use game_of_life::handler::handle::Handle;
use game_of_life::handler::memory_handle::MemoryHandle;
use game_of_life::rendering::colors::TerminalColors as TC;
use game_of_life::shared::usize2d::Usize2d;

fn color_rows_to_string(rows: &Vec<Vec<TC>>) -> String {
    rows.iter()
        .map(|inner| inner.iter().map(|v| v.label().to_string()).collect::<String>())
        .collect::<Vec<String>>()
        .join("\n")
}

#[test]
fn memory_handle_hello_world() {
    let mut handle = MemoryHandle::new();
    let test_str: &[u8] = b"Hello world";
    let result = handle.write(test_str);
    assert!(result.is_ok(), "Write should not fail");

    let result = handle.flush();
    assert!(result.is_ok(), "Flush should not fail");

    let buffer_content: Vec<u8> = handle.get_buffer_content();
    let result = String::from_utf8_lossy(&buffer_content);

    let expected = String::from_utf8_lossy(test_str);

    assert_eq!(
        expected, result,
        "The initial string written to the MemoryHandle should match to output"
    );
}

#[test]
fn memory_handle_hello_rust() {
    let mut handle = MemoryHandle::new();
    let test_str: &[u8] = b"Hello world";
    let write_result = handle.write(test_str);
    assert!(write_result.is_ok());

    let set_cursor_result = handle.set_cursor_location(Usize2d::new(6, 0));
    assert!(set_cursor_result.is_ok());

    let test_str: &[u8] = b"rust ";
    let result = handle.write(test_str);
    assert!(result.is_ok(), "Write should not fail");

    let result = handle.flush();
    assert!(result.is_ok(), "Flush should not fail");

    let buffer_content: Vec<u8> = handle.get_buffer_content();
    let result = String::from_utf8_lossy(&buffer_content);

    let expected = String::from_utf8_lossy(b"Hello rust ");

    assert_eq!(
        expected, result,
        "The initial string written to the MemoryHandle should match to output"
    );
}

#[test]
fn memory_handle_set_location() {
    let mut handle = MemoryHandle::new();

    let result = handle.set_cursor_location(Usize2d::new(5, 2));
    assert!(result.is_ok());

    let test_str: &[u8] = b"Hello world";
    let result = handle.write(test_str);
    assert!(result.is_ok(), "Write should not fail");

    let result = handle.flush();
    assert!(result.is_ok(), "Flush should not fail");

    let buffer_content: Vec<u8> = handle.get_buffer_content();
    let result = String::from_utf8_lossy(&buffer_content);

    let expected = "\n\n     Hello world".to_string();

    assert_eq!(
        expected, result,
        "The initial string written to the MemoryHandle should match to output. Got: \'{}\', Expected: \'{}\'",
        result, expected
    );
}

#[test]
fn set_colors() {
    let mut handle = MemoryHandle::new();

    let result = handle.set_foreground_color(TC::Red);
    assert!(result.is_ok());
    assert_eq!(
        handle.current_foreground_color,
        TC::Red,
        "Expected foreground color: {}, Got: {}",
        handle.current_foreground_color.label(),
        TC::Red.label()
    );

    let result = handle.set_background_color(TC::Black);
    assert!(result.is_ok());
    assert_eq!(
        handle.current_background_color,
        TC::Black,
        "Expected background color: {}, Got: {}",
        handle.current_background_color.label(),
        TC::Black.label()
    );

    let result = handle.set_cursor_location(Usize2d::new(5, 2));
    assert!(result.is_ok());

    let test_str: &[u8] = b"Hello world";
    let result = handle.write(test_str);
    assert!(result.is_ok(), "Write should not fail");

    let result = handle.flush();
    assert!(result.is_ok(), "Flush should not fail");

    let buffer_content: Vec<u8> = handle.get_buffer_content();
    let result = String::from_utf8_lossy(&buffer_content);

    let expected = "\n\n     Hello world".to_string();

    assert_eq!(
        expected, result,
        "The initial string written to the MemoryHandle should match to output. Got: \'{}\', Expected: \'{}\'",
        result, expected
    );
    let background_colors = handle.get_background_colors();
    let expected: Vec<Vec<TC>> = vec![
        vec![], //
        vec![], //
        vec![
            TC::Default,
            TC::Default,
            TC::Default,
            TC::Default,
            TC::Default,
            TC::Default,
            TC::Default,
            TC::Default,
            TC::Default,
            TC::Default,
            TC::Default,
            TC::Black,
            TC::Black,
            TC::Black,
            TC::Black,
            TC::Black,
        ], //
    ];

    assert_eq!(
        expected,
        background_colors,
        "The background colors should match the expected colors. Got: \'{}\', Expected: \'{}\'",
        color_rows_to_string(&background_colors),
        color_rows_to_string(&expected)
    );
    let foreground_colors = handle.get_foreground_colors();
    let expected: Vec<Vec<TC>> = vec![
        vec![], //
        vec![], //
        vec![
            TC::Default,
            TC::Default,
            TC::Default,
            TC::Default,
            TC::Default,
            TC::Default,
            TC::Default,
            TC::Default,
            TC::Default,
            TC::Default,
            TC::Default,
            TC::Red,
            TC::Red,
            TC::Red,
            TC::Red,
            TC::Red,
        ], //
    ];

    assert_eq!(
        expected,
        foreground_colors,
        "The foreground colors should match the expected colors. Got: \'{}\', Expected: \'{}\'",
        color_rows_to_string(&foreground_colors),
        color_rows_to_string(&expected)
    );
}
