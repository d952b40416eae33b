use game_of_life::terminal::shared_writer::SharedWriter;

#[test]
fn shared_writer_hello_world() {
    let mut writer = SharedWriter::init(Vec::new());
    let test_str = "Hello world";
    let _ = writer.write(test_str.as_bytes());

    let result = String::from_utf8_lossy(writer.written());

    assert_eq!(test_str, result);
}
