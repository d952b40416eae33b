use game_of_life::coordinate::Coord;
use game_of_life::handler::memory_handle::MemoryHandle;
use game_of_life::panel::errors::PanelError;
use game_of_life::panel::panel::{Panel, PlacedRow};
use game_of_life::rendering::render_object::RenderObject;
use game_of_life::rendering::sprite::Sprite;
use game_of_life::shared::square::Square;
use game_of_life::shared::usize2d::Usize2d;
use game_of_life::terminal::decimal::append_decimal;
use game_of_life::utils::arg_helper::{parse_u64, parse_unsigned, parse_usize};

#[test]
fn positions_are_shown_by_axis() {
    assert_eq!(Coord { x: 0, y: 65535 }.label(), "x: 0, y: 65535");
    assert_eq!(Coord { x: 12, y: 7 }.label(), "x: 12, y: 7");
    assert_eq!(Usize2d::new(1003, 4).label(), "x: 1003, y: 4");
    assert_eq!(
        Usize2d::new(usize::MAX, 0).label(),
        format!("x: {}, y: 0", usize::MAX)
    );
    assert_eq!(
        Square::new(Usize2d::new(3, 4), Usize2d::new(17, 21)).label(),
        "[Square - (top-left: x: 3, y: 4, bottom-right: x: 17, y: 21)]"
    );
}

#[test]
fn numbers_are_appended_in_decimal() {
    for number in [0u64, 1, 9, 10, 11, 19, 20, 99, 100, 101, 1234567890, u64::MAX] {
        let mut text = "n=".to_string();
        append_decimal(&mut text, number);
        assert_eq!(text, format!("n={}", number));
    }
}

#[test]
fn numbers_are_read_as_the_standard_library_reads_them() {
    let samples = [
        "",
        "+",
        "-",
        "0",
        "+0",
        "-0",
        "7",
        "+7",
        "++7",
        "-7",
        "007",
        "+007",
        "100",
        "65535",
        "4294967295",
        "4294967296",
        "18446744073709551615",
        "+18446744073709551615",
        "18446744073709551616",
        "018446744073709551615",
        "99999999999999999999999999",
        "0000000000000000000000000000001",
        " 1",
        "1 ",
        "1_000",
        "1.0",
        "1e3",
        "0x10",
        "ten",
        "１２",
        "٣",
        "1+",
        "12a",
        "a12",
    ];
    for sample in samples {
        assert_eq!(parse_u64(sample), sample.parse::<u64>().ok(), "{:?}", sample);
        assert_eq!(
            parse_usize(sample),
            sample.parse::<usize>().ok(),
            "{:?}",
            sample
        );
        assert_eq!(
            parse_unsigned(sample, 65535),
            sample.parse::<u16>().ok().map(u64::from),
            "{:?}",
            sample
        );
        assert_eq!(
            parse_unsigned(sample, 255),
            sample.parse::<u8>().ok().map(u64::from),
            "{:?}",
            sample
        );
    }
    assert_eq!(parse_u64("419"), Some(419));
    assert_eq!(parse_unsigned("256", 255), None);
    assert_eq!(parse_unsigned("255", 255), Some(255));
    assert_eq!(parse_unsigned("0", 0), Some(0));
    assert_eq!(parse_unsigned("1", 0), None);
}

#[test]
fn a_plan_holds_the_rows_within_the_area() {
    let area = Square::new(Usize2d::new(3, 5), Usize2d::new(10, 10));
    let panel = Panel::init(area, MemoryHandle::new()).unwrap_or_else(|_| unreachable!());
    let object = RenderObject::new(Sprite::default(), Usize2d::new(9, 6));
    assert_eq!(
        panel.plan_object(&object),
        Ok(Some(vec![
            PlacedRow {
                at: Usize2d::new(9, 6),
                bytes: b"X ".to_vec()
            },
            PlacedRow {
                at: Usize2d::new(9, 7),
                bytes: b" X".to_vec()
            },
            PlacedRow {
                at: Usize2d::new(9, 8),
                bytes: b"X ".to_vec()
            },
        ]))
    );
    // the lower rows fall out of the area
    let low = RenderObject::new(Sprite::default(), Usize2d::new(4, 9));
    assert_eq!(
        panel.plan_object(&low),
        Ok(Some(vec![
            PlacedRow {
                at: Usize2d::new(4, 9),
                bytes: b"X X".to_vec()
            },
            PlacedRow {
                at: Usize2d::new(4, 10),
                bytes: b" X ".to_vec()
            },
        ]))
    );
    // the left columns fall out of the area, the rows keep their place
    let left = RenderObject::new(Sprite::default(), Usize2d::new(2, 6));
    assert_eq!(
        panel.plan_object(&left),
        Ok(Some(vec![
            PlacedRow {
                at: Usize2d::new(2, 6),
                bytes: b" X".to_vec()
            },
            PlacedRow {
                at: Usize2d::new(2, 7),
                bytes: b"X ".to_vec()
            },
            PlacedRow {
                at: Usize2d::new(2, 8),
                bytes: b" X".to_vec()
            },
        ]))
    );
    let touching = RenderObject::new(Sprite::default(), Usize2d::new(10, 6));
    assert_eq!(panel.plan_object(&touching), Ok(None));
    let outside = RenderObject::new(Sprite::default(), Usize2d::new(11, 6));
    assert_eq!(panel.plan_object(&outside), Err(PanelError::OutOfBounds));
}
