use game_of_life::coordinate::Coord;
use game_of_life::terminal::message_helper::{MessageHelper, MessageHelperErr};
use game_of_life::terminal::shared_writer::SharedWriter;

#[test]
fn print_at_origin() {
    let writer = SharedWriter::init(Vec::new());
    let mut helper = MessageHelper::init(writer);

    match helper.print("hello".to_string(), Coord { x: 1, y: 1 }) {
        Ok(_) => (),
        Err(_) => assert!(false, "Should not have an error at this point"),
    };

    let result = String::from_utf8_lossy(helper.terminal.writer.written());
    let expected ="\u{1b}[1;1H\u{1b}[48;5;231m\u{1b}[38;5;160m █   █  █████  █      █       ███  \u{1b}[2;1H\u{1b}[48;5;231m\u{1b}[38;5;160m █   █  █      █      █      █   █ \u{1b}[3;1H\u{1b}[48;5;231m\u{1b}[38;5;160m █████  ████   █      █      █   █ \u{1b}[4;1H\u{1b}[48;5;231m\u{1b}[38;5;160m █   █  █      █      █      █   █ \u{1b}[5;1H\u{1b}[48;5;231m\u{1b}[38;5;160m █   █  █████  █████  █████   ███  ";
    assert_eq!(
        expected, result,
        "The output written should look like a chunky version of the string \"hello\""
    )
}
#[test]
fn print_at_location() {
    let writer = SharedWriter::init(Vec::new());
    let mut helper = MessageHelper::init(writer);
    match helper.print(
        "world".to_string(),
        Coord { x: 10, y: 18 },
    ) {
        Ok(_) => (),
        Err(_) => assert!(false, "Should not have an error at this point"),
    };

    let result = String::from_utf8_lossy(helper.terminal.writer.written());
    let expected = "\u{1b}[18;10H\u{1b}[48;5;231m\u{1b}[38;5;160m █   █   ███   ████   █      ███   \u{1b}[19;10H\u{1b}[48;5;231m\u{1b}[38;5;160m █   █  █   █  █   █  █      █  █  \u{1b}[20;10H\u{1b}[48;5;231m\u{1b}[38;5;160m █ █ █  █   █  ████   █      █   █ \u{1b}[21;10H\u{1b}[48;5;231m\u{1b}[38;5;160m ██ ██  █   █  █  █   █      █  █  \u{1b}[22;10H\u{1b}[48;5;231m\u{1b}[38;5;160m █   █   ███   █   █  █████  ███   ";
    assert_eq!(
        expected, result,
        "The output written should look like a chunky version of the string \"world\" but shifter 17 positions down and 9 positions to the right"
    )
}
#[test]
fn print_around_location() {
    let writer = SharedWriter::init(Vec::new());
    let mut helper = MessageHelper::init(writer);

    match helper.print_around_centerpoint(
        "what even".to_string(),
        Coord { x: 10, y: 18 },
    ) {
        Ok(_) => (),
        Err(_) => assert!(false, "Should not have an error at this point"),
    };
    let result = String::from_utf8_lossy(helper.terminal.writer.written());
    let expected = "\u{1b}[16;1H\u{1b}[48;5;231m\u{1b}[38;5;160m █   █  █   █   ███   █████         █████  █   █  █████  █   █ \u{1b}[17;1H\u{1b}[48;5;231m\u{1b}[38;5;160m █   █  █   █  █   █    █           █      █   █  █      ██  █ \u{1b}[18;1H\u{1b}[48;5;231m\u{1b}[38;5;160m █ █ █  █████  █████    █           ████   █   █  ████   █ █ █ \u{1b}[19;1H\u{1b}[48;5;231m\u{1b}[38;5;160m ██ ██  █   █  █   █    █           █       █ █   █      █  ██ \u{1b}[20;1H\u{1b}[48;5;231m\u{1b}[38;5;160m █   █  █   █  █   █    █           █████    █    █████  █   █ ";
    assert_eq!(
        expected, result,
        "The output written should look like a chunky version of the string \"what even\" but printed around the centerpoint x = 10 and y = 18"
    )
}
#[test]
fn print_unsupported_characters() {
    let writer = SharedWriter::init(Vec::new());
    let mut helper = MessageHelper::init(writer);

    match helper.print_around_centerpoint(
        "what even?".to_string(),
        Coord { x: 10, y: 18 },
    ) {
        Ok(_) => assert!(false, "Should have an error at this point"),
        Err(e) => assert_eq!(e, MessageHelperErr::UnsupportedCharacters),
    };
}
