use game_of_life::console::console_control::ConsoleCommand;
use game_of_life::console::errors::ConsoleControlErr;
use game_of_life::console::input_record::{
    is_key_code, EventType, InputEvent, InputRecord, KeyEvent, MouseEvent,
};
use game_of_life::console::mode::ConsoleMode;
use game_of_life::console::notify_inputs::reader_stops;
use game_of_life::coordinate::Coord;

#[test]
fn a_word_with_all_three_flags_is_cooked() {
    assert_eq!(ConsoleMode::match_mode(7), Ok(ConsoleMode::Cooked));
    assert_eq!(ConsoleMode::match_mode(0x1f7), Ok(ConsoleMode::Cooked));
    assert_eq!(ConsoleMode::match_mode(u32::MAX), Ok(ConsoleMode::Cooked));
    assert_eq!(ConsoleMode::match_mode(0), Ok(ConsoleMode::Uncooked));
    assert_eq!(ConsoleMode::match_mode(0x1f0), Ok(ConsoleMode::Uncooked));
    for word in [1, 2, 3, 4, 5, 6, 0x1f1, 0x86] {
        assert_eq!(
            ConsoleMode::match_mode(word),
            Ok(ConsoleMode::UncookedPartial),
            "{}",
            word
        );
    }
}

#[test]
fn switching_sets_or_clears_the_three_flags() {
    assert_eq!(ConsoleMode::update_mode(0, ConsoleMode::Cooked), 7);
    assert_eq!(ConsoleMode::update_mode(0x1f0, ConsoleMode::Cooked), 0x1f7);
    assert_eq!(ConsoleMode::update_mode(0x1f2, ConsoleMode::Cooked), 0x1f7);
    assert_eq!(ConsoleMode::update_mode(0x1f7, ConsoleMode::Uncooked), 0x1f0);
    assert_eq!(ConsoleMode::update_mode(5, ConsoleMode::Uncooked), 0);
    assert_eq!(
        ConsoleMode::update_mode(u32::MAX, ConsoleMode::Uncooked),
        u32::MAX - 7
    );
    for word in [0u32, 3, 0x1f4, u32::MAX] {
        for mode in [ConsoleMode::Cooked, ConsoleMode::Uncooked] {
            assert_eq!(
                ConsoleMode::match_mode(ConsoleMode::update_mode(word, mode)),
                Ok(mode)
            );
        }
    }
}

#[test]
fn labels_of_the_console() {
    assert_eq!(ConsoleMode::Uncooked.label(), "Uncooked");
    assert_eq!(ConsoleMode::UncookedPartial.label(), "Partially Uncooked");
    assert_eq!(ConsoleMode::Cooked.label(), "Cooked");
    assert_eq!(ConsoleMode::Unknown.label(), "NOT FOUND");
    assert_eq!(EventType::KeyEvent.label(), "key_pressed");
    assert_eq!(EventType::MouseEvent.label(), "mouse_thing");
    for error in [
        ConsoleControlErr::NoHandle,
        ConsoleControlErr::NoModeResponse,
        ConsoleControlErr::ModeTypeUnknown,
        ConsoleControlErr::SetModeFailed,
        ConsoleControlErr::NoInputRead,
        ConsoleControlErr::WrongEventType,
    ] {
        assert_eq!(error.label(), "failed...");
    }
}

#[test]
fn a_keyboard_record_is_decoded() {
    let record = InputRecord::from_raw(1, 0x71, 3, 1);
    assert_eq!(
        record,
        Ok(InputRecord {
            event_type: EventType::KeyEvent,
            event: InputEvent::Key(KeyEvent {
                command: 'q',
                repreat_count: 3,
                is_down: true,
            }),
        })
    );
    let record = InputRecord::from_raw(1, 0x2588, 0, 0);
    assert_eq!(
        record,
        Ok(InputRecord {
            event_type: EventType::KeyEvent,
            event: InputEvent::Key(KeyEvent {
                command: '█',
                repreat_count: 0,
                is_down: false,
            }),
        })
    );
    // only the value one counts as down
    let record = InputRecord::from_raw(1, 0x20, 1, 2);
    assert_eq!(
        record.map(|decoded| decoded.event),
        Ok(InputEvent::Key(KeyEvent {
            command: ' ',
            repreat_count: 1,
            is_down: false,
        }))
    );
}

#[test]
fn other_records_are_the_wrong_event_type() {
    for kind in [0u16, 2, 4, 8, 16, 257] {
        assert_eq!(
            InputRecord::from_raw(kind, 0x71, 1, 1),
            Err(ConsoleControlErr::WrongEventType)
        );
    }
    assert_eq!(
        InputRecord::from_raw(2, 0xD800, 1, 1),
        Err(ConsoleControlErr::WrongEventType)
    );
}

#[test]
fn surrogate_halves_are_no_key_codes() {
    assert!(is_key_code(0));
    assert!(is_key_code(0x71));
    assert!(is_key_code(0xD7FF));
    assert!(!is_key_code(0xD800));
    assert!(!is_key_code(0xDFFF));
    assert!(is_key_code(0xE000));
    assert!(is_key_code(0xFFFF));
}

#[test]
fn a_console_command_is_a_key_event() {
    let command = ConsoleCommand {
        command: 'w',
        repreat_count: 2,
        is_down: true,
    };
    assert_eq!(
        command.key_event(),
        KeyEvent {
            command: 'w',
            repreat_count: 2,
            is_down: true,
        }
    );
    let mouse = MouseEvent {
        pos: Coord { x: 1, y: 2 },
        button_state: 3,
        ctrl_key_state: 4,
        flags: 5,
    };
    assert_eq!(InputEvent::Mouse(mouse), InputEvent::Mouse(mouse.clone()));
}

#[test]
fn the_reader_stops_on_the_quit_key_or_a_lost_listener() {
    let key = |command: char| KeyEvent {
        command,
        repreat_count: 1,
        is_down: true,
    };
    assert!(!reader_stops(Ok(key('w')), true));
    assert!(!reader_stops(Ok(key('Q')), true));
    assert!(reader_stops(Ok(key('q')), true));
    assert!(reader_stops(Ok(key('q')), false));
    assert!(reader_stops(Ok(key('w')), false));
    let released = KeyEvent {
        command: 'q',
        repreat_count: 1,
        is_down: false,
    };
    assert!(reader_stops(Ok(released), true));
    for error in [
        ConsoleControlErr::NoInputRead,
        ConsoleControlErr::WrongEventType,
        ConsoleControlErr::NoHandle,
    ] {
        assert!(!reader_stops(Err(error), true));
        assert!(!reader_stops(Err(error), false));
    }
}
