use game_of_life::rendering::colors::TerminalColors;
use game_of_life::utils::vec_t_writer::{pad_vec, write_t_to_vec, write_vec_to_vec};
use game_of_life::utils::vec_u8_writer::write_to_location;

#[test]
fn write_u8_to_location_scenarios() {
    let test_cases = vec![
        ("Hello ", "World", 6, "Hello World"),
        ("Rust", " is great", 4, "Rust is great"),
        ("Foo Baz", "Bar", 0, "Bar Baz"),
        ("Foo", "Bar Baz", 0, "Bar Baz"),
        ("12345", "678", 5, "12345678"),
        ("", "Non-empty", 9, "         Non-empty"),
        ("What even", "", 1, "What even"),
        ("the original", "new string", 4, "the new string"),
    ];

    for (i, (original, to_write, location, expected)) in test_cases.iter().enumerate() {
        let original_vec: Vec<u8> = original.as_bytes().to_vec();
        let to_write_vec: Vec<u8> = to_write.as_bytes().to_vec();
        let expected_vec: Vec<u8> = expected.as_bytes().to_vec();

        let result =
            write_vec_to_vec(original_vec.clone(), to_write_vec.clone(), *location, b' ');

        let result_string = String::from_utf8(result.clone());
        let expected_string = String::from_utf8(expected_vec.clone());

        assert!(
            expected_string.is_ok(),
            "Test case {}: Expected is not valid UTF-8",
            i
        );
        assert!(
            result_string.is_ok(),
            "Test case {}: Result is not valid UTF-8",
            i
        );

        assert_eq!(
            result,
            expected_vec,
            "Test case {}: Got: {:?}, Expected: {:?}",
            i,
            result_string.unwrap(),
            expected_string.unwrap()
        );
    }
}

#[test]
fn write_enum_to_location_scenarios() {
    let default = TerminalColors::Black;
    let test_cases = vec![
        (
            vec![TerminalColors::Red, TerminalColors::Black],
            vec![TerminalColors::HotPink],
            4,
            vec![
                TerminalColors::Red,
                TerminalColors::Black,
                default.clone(),
                default.clone(),
                TerminalColors::HotPink,
            ],
        ),
        (
            vec![TerminalColors::Red, TerminalColors::Black],
            vec![TerminalColors::HotPink],
            1,
            vec![TerminalColors::Red, TerminalColors::HotPink],
        ),
    ];

    for (i, (original, to_write, location, expected)) in test_cases.iter().enumerate() {
        let result = write_vec_to_vec(
            original.clone(),
            to_write.clone(),
            *location,
            default.clone(),
        );

        assert_eq!(
            &result, expected,
            "Test case {}: Got: {:?}, Expected: {:?}",
            i, result, expected
        );
    }
}

#[test]
fn write_u8() {
    let test_cases = vec![
        ("Hello", 6_usize, 4_usize, b'P', b'V', "HelloPVVVV"),
        ("Hello", 2_usize, 1_usize, b'P', b'V', "HeVlo"),
        ("Hello", 2_usize, 10_usize, b'P', b'V', "HeVVVVVVVVVV"),
        ("Hello World", 0_usize, 3_usize, b'P', b' ', "   lo World"),
        ("cat", 5_usize, 4_usize, b' ', b'N', "cat  NNNN"),
        ("cat", 5_usize, 0_usize, b' ', b'N', "cat  "),
    ];

    for (i, (original, index, len, padding_value, t_to_write, expected)) in
        test_cases.iter().enumerate()
    {
        let original_vec: Vec<u8> = original.as_bytes().to_vec();
        let expected_vec: Vec<u8> = expected.as_bytes().to_vec();

        let result: Vec<u8> =
            write_t_to_vec(original_vec, *t_to_write, *index, *len, *padding_value);

        let result_string = String::from_utf8(result.clone());
        let expected_string = String::from_utf8(expected_vec.clone());

        assert!(
            expected_string.is_ok(),
            "Test case {}: Expected is not valid UTF-8",
            i
        );
        assert!(
            result_string.is_ok(),
            "Test case {}: Result is not valid UTF-8",
            i
        );

        assert_eq!(
            result,
            expected_vec,
            "Test case {}: Got: {:?}, Expected: {:?}",
            i,
            result_string.unwrap(),
            expected_string.unwrap()
        );
    }
}

#[test]
fn pad() {
    let test_cases = vec![
        ("Hello", 6_usize, b' ', "Hello "),
        ("Hello", 3_usize, b' ', "Hello"),
        ("Hello", 10_usize, b'A', "HelloAAAAA"),
    ];

    for (i, (original, new_len, padding_value, expected)) in test_cases.iter().enumerate() {
        let original_vec: Vec<u8> = original.as_bytes().to_vec();
        let expected_vec: Vec<u8> = expected.as_bytes().to_vec();

        let mut result = original_vec.clone();
        pad_vec(&mut result, *new_len, *padding_value);

        let result_string = String::from_utf8(result.clone());
        let expected_string = String::from_utf8(expected_vec.clone());

        assert!(
            expected_string.is_ok(),
            "Test case {}: Expected is not valid UTF-8",
            i
        );
        assert!(
            result_string.is_ok(),
            "Test case {}: Result is not valid UTF-8",
            i
        );

        assert_eq!(
            result,
            expected_vec,
            "Test case {}: Got: {:?}, Expected: {:?}",
            i,
            result_string.unwrap(),
            expected_string.unwrap()
        );
    }
}

#[test]
fn write_to_location_scenarios() {
    let test_cases = vec![
        ("Hello ", "World", 6, "Hello World"),
        ("Rust", " is great", 4, "Rust is great"),
        ("Foo Baz", "Bar", 0, "Bar Baz"),
        ("Foo", "Bar Baz", 0, "Bar Baz"),
        ("12345", "678", 5, "12345678"),
        ("", "Non-empty", 9, "         Non-empty"),
        ("What even", "", 1, "What even"),
        ("the original", "new string", 4, "the new string"),
    ];

    for (i, (original, to_write, location, expected)) in test_cases.iter().enumerate() {
        let original_vec: Vec<u8> = original.as_bytes().to_vec();
        let to_write_vec: Vec<u8> = to_write.as_bytes().to_vec();
        let expected_vec: Vec<u8> = expected.as_bytes().to_vec();

        let result = write_to_location(original_vec.clone(), to_write_vec.clone(), *location);

        let result_string = String::from_utf8(result.clone());
        let expected_string = String::from_utf8(expected_vec.clone());

        assert!(
            expected_string.is_ok(),
            "Test case {}: Expected is not valid UTF-8",
            i
        );
        assert!(
            result_string.is_ok(),
            "Test case {}: Result is not valid UTF-8",
            i
        );

        assert_eq!(
            result,
            expected_vec,
            "Test case {}: Got: {:?}, Expected: {:?}",
            i,
            result_string.unwrap(),
            expected_string.unwrap()
        );
    }
}
