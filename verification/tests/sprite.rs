use game_of_life::rendering::colors::TerminalColors as TC;
use game_of_life::rendering::sprite::Sprite;
use game_of_life::shared::shared_errors::SharedErrors;
use game_of_life::shared::square::Square;
use game_of_life::shared::usize2d::Coord;

fn rows_to_string(rows: &Vec<Vec<u8>>) -> String {
    rows.iter()
        .map(|inner| inner.iter().map(|&byte| byte as char).collect::<String>())
        .collect::<Vec<String>>()
        .join("\n")
}

#[test]
fn get_content_to_write() {
    let content: Vec<Vec<u8>> = vec![
        vec![b'x', b'a', b'1'], //
        vec![b'y', b'b', b'2'], //
        vec![b'z', b'c', b'3'], //
        vec![b'0', b'0', b'0'], //
    ];
    let background_colors: Vec<Vec<TC>> = vec![
        vec![TC::Red, TC::Black, TC::LightGreen], //
        vec![TC::Red, TC::Black, TC::LightGreen], //
        vec![TC::Red, TC::Black, TC::LightGreen], //
        vec![TC::Red, TC::Black, TC::LightGreen], //
    ];
    let foreground_colors: Vec<Vec<TC>> = vec![
        vec![TC::Red, TC::Black, TC::LightGreen], //
        vec![TC::Red, TC::Black, TC::LightGreen], //
        vec![TC::Red, TC::Black, TC::LightGreen], //
        vec![TC::Red, TC::Black, TC::LightGreen], //
    ];
    let sprite = Sprite::new(
        "Test Sprite".to_string(),
        content[0].len(),
        content.len(),
        content,
        background_colors,
        foreground_colors,
    );

    let expected: Vec<Vec<u8>> = vec![
        vec![b'x', b'a'], //
        vec![b'y', b'b'], //
        vec![b'z', b'c'], //
    ];
    let actual_result = sprite.get_content_for_area(
        Coord::default(),
        Square::new(Coord::default(), Coord::new(1, 2)),
    );
    assert!(
        actual_result.is_ok(),
        "There should be no error while getting the content to write. Got error {:?}",
        actual_result
    );
    let actual = actual_result.unwrap_or_else(|_| unreachable!());
    assert_eq!(
        expected,
        actual,
        "Expected:\n{}\nGot:\n{}",
        rows_to_string(&expected),
        rows_to_string(&actual)
    );
}

#[test]
fn get_index() {
    let test_cases = vec![
        (1, 0, 5, 1, true, SharedErrors::NoError),
        (3, 1, 5, 2, true, SharedErrors::NoError),
        (0, 1, 5, 0, false, SharedErrors::BeforeStart),
        (11, 1, 5, 0, false, SharedErrors::AfterEnd),
    ];
    for (coord, range_start, range_end, expected_index, is_in_range, expected_error) in test_cases
    {
        let index = Sprite::get_index_in_range(coord, range_start, range_end);
        if is_in_range {
            assert!(
                index.is_ok(),
                "The coordinate should be in the expected range"
            );
            let actual = index.unwrap_or_else(|_| unreachable!());

            assert_eq!(
                actual, expected_index,
                "The index of coordinate {}, in the range {} to {} should be {}, got {}",
                coord, range_start, range_end, expected_index, actual
            );
        } else {
            assert!(
                index.is_err(),
                "The coordinate should be outside of the expected range"
            );
            let actual = match index {
                Err(error) => error,
                Ok(_) => unreachable!(),
            };
            assert_eq!(
                actual,
                expected_error,
                "Expected error {}, Got error {}",
                expected_error.label(),
                actual.label()
            );
        }
    }
}

#[test]
fn test_get_indexes() {
    let test_cases = vec![
        ((1, 8), (0, 5), (0, 4), true, SharedErrors::NoError), //leans right
        ((1, 8), (6, 12), (5, 7), true, SharedErrors::NoError), //leans left
        ((3, 8), (0, 12), (0, 5), true, SharedErrors::NoError), //inside
        ((3, 8), (4, 6), (1, 3), true, SharedErrors::NoError), //over
        ((1, 3), (5, 10), (0, 0), false, SharedErrors::OutOfBounds), //oob
        ((11, 13), (5, 10), (0, 0), false, SharedErrors::OutOfBounds), //oob
    ];

    for (
        (coord_start, coord_end),
        (range_start, range_end),
        (expected_start, expected_end),
        is_in_range,
        expected_error,
    ) in test_cases
    {
        let index = Sprite::get_indexes_in_range(coord_start, coord_end, range_start, range_end);

        if is_in_range {
            assert!(
                index.is_ok(),
                "The coordinates should be in the expected range, but got error: {:?}",
                index
            );
            let (actual_start, actual_end) = index.unwrap_or_else(|_| unreachable!());
            assert_eq!(
                actual_start, expected_start,
                "The start coordinate should be {}, but got {}",
                expected_start, actual_start
            );
            assert_eq!(
                actual_end, expected_end,
                "The end coordinate should be {}, but got {}",
                expected_end, actual_end
            );
        } else {
            assert!(
                index.is_err(),
                "The coordinates should be outside of the expected range, but got result: {:?}",
                index
            );
            let actual = match index {
                Err(error) => error,
                Ok(_) => unreachable!(),
            };
            assert_eq!(
                actual, expected_error,
                "Expected error {:?}, but got error {:?}",
                expected_error, actual
            );
        }
    }
}
