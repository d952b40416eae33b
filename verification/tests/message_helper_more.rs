use game_of_life::coordinate::Coord;
use game_of_life::terminal::message_helper::{glyph, MessageHelper, MessageHelperErr};
use game_of_life::terminal::shared_writer::SharedWriter;

fn helper() -> MessageHelper {
    MessageHelper::init(SharedWriter::init(Vec::new()))
}

fn written(helper: &MessageHelper) -> String {
    String::from_utf8_lossy(helper.terminal.writer.written()).to_string()
}

#[test]
fn upper_case_prints_as_lower_case() {
    let mut upper = helper();
    let mut lower = helper();
    assert_eq!(upper.print("HeLLo 42".to_string(), Coord { x: 3, y: 4 }), Ok(()));
    assert_eq!(lower.print("hello 42".to_string(), Coord { x: 3, y: 4 }), Ok(()));
    assert_eq!(written(&upper), written(&lower));
    assert!(written(&upper).starts_with("\x1b[4;3H\x1b[48;5;231m\x1b[38;5;160m █   █  █████ "));
}

#[test]
fn glyphs_exist_for_blank_letters_and_digits() {
    for c in " abcdefghijklmnopqrstuvwxyz0123456789".chars() {
        let rows = glyph(c);
        assert!(rows.is_some(), "{:?}", c);
        for row in rows.unwrap_or([""; 5]) {
            assert_eq!(row.chars().count(), 7);
        }
    }
    for c in "A?!-é\n".chars() {
        assert!(glyph(c).is_none(), "{:?}", c);
    }
    assert_eq!(
        glyph('t'),
        Some([" █████ ", "   █   ", "   █   ", "   █   ", "   █   "])
    );
}

#[test]
fn an_empty_message_prints_only_the_row_starts() {
    let mut helper = helper();
    assert_eq!(helper.print(String::new(), Coord { x: 1, y: 1 }), Ok(()));
    let mut expected = String::new();
    for row in 1..=5 {
        expected += &format!("\x1b[{};1H\x1b[48;5;231m\x1b[38;5;160m", row);
    }
    assert_eq!(written(&helper), expected);
}

#[test]
fn printing_stops_at_the_first_unsupported_character() {
    let mut helper = helper();
    assert_eq!(
        helper.print("hi?o".to_string(), Coord { x: 2, y: 3 }),
        Err(MessageHelperErr::UnsupportedCharacters)
    );
    assert_eq!(
        written(&helper),
        "\x1b[3;2H\x1b[48;5;231m\x1b[38;5;160m █   █  █████ "
    );
}

#[test]
fn origin_is_half_the_message_left_and_two_rows_up() {
    let helper = helper();
    // nine bytes: four letters of seven columns to the left
    assert_eq!(
        helper.calculate_origin("what even".to_string(), Coord { x: 100, y: 18 }),
        Coord { x: 72, y: 16 }
    );
    assert_eq!(
        helper.calculate_origin("what even".to_string(), Coord { x: 28, y: 2 }),
        Coord { x: 1, y: 1 }
    );
    assert_eq!(
        helper.calculate_origin("what even".to_string(), Coord { x: 29, y: 3 }),
        Coord { x: 1, y: 1 }
    );
    assert_eq!(
        helper.calculate_origin("".to_string(), Coord { x: 0, y: 0 }),
        Coord { x: 1, y: 1 }
    );
    assert_eq!(
        helper.calculate_origin("a".to_string(), Coord { x: 5, y: 9 }),
        Coord { x: 5, y: 7 }
    );
    // the length counts in bytes: one letter of three bytes is a half of one
    assert_eq!(
        helper.calculate_origin("█".to_string(), Coord { x: 50, y: 9 }),
        Coord { x: 43, y: 7 }
    );
}

#[test]
fn error_labels() {
    assert_eq!(
        MessageHelperErr::UnsupportedCharacters.label(),
        "Unsupported character"
    );
    assert_eq!(
        MessageHelperErr::MessageOutOfBounds.label(),
        "Message out of bounds"
    );
    assert_eq!(
        MessageHelperErr::UnexpecterMessageLength.label(),
        "Unexpected message length"
    );
}
