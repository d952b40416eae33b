use game_of_life::handler::memory_handle::MemoryHandle;
use game_of_life::panel::panel::Panel;
use game_of_life::rendering::render_object::RenderObject;
use game_of_life::rendering::sprite::Sprite;
use game_of_life::shared::frame::Pixel;
use game_of_life::shared::square::Square;
use game_of_life::shared::usize2d::{Coord, Usize2d};

#[test]
fn panel_init() {
    let top_left = Usize2d::new(0, 0);
    let bottom_right = Usize2d::new(10, 20);
    let square = Square::new(top_left, bottom_right);
    let handle = MemoryHandle::new();

    let window = Panel::init(square, handle);
    assert!(window.is_ok());
    let window = window.unwrap_or_else(|_| unreachable!());
    let expected = vec![vec![Pixel::default(); 11]; 21];

    assert_eq!(
        window._previous_frame,
        expected,
        "Default initialization previous frame is wrong. Expected lenth: {}, Actual length: {}",
        expected.len(),
        window._previous_frame.len()
    );
    assert_eq!(
        window._next_frame,
        expected,
        "Default initialization for next frame is wrong. Expected lenth: {}, Actual length: {}",
        expected.len(),
        window._next_frame.len()
    );
}

#[test]
fn write_object() {
    let test_cases = vec![
        (
            1,
            Usize2d::default(),
            Usize2d::new(100, 100),
            Coord::new(10, 6),
            "\n\n\n\n\n\n          X X\n           X \n          X X",
        ),
        (
            2,
            Usize2d::new(3, 5),
            Usize2d::new(10, 10),
            Coord::new(9, 6),
            "\n\n\n\n\n\n         X \n          X\n         X ",
        ),
    ];

    for (i, top_left, bottom_right, object_coordinate, expected) in test_cases {
        let square = Square::new(top_left, bottom_right);

        let mut panel = match Panel::init(square, MemoryHandle::new()) {
            Ok(panel) => panel,
            Err(_) => panic!("Failed to init the panel"),
        };

        let obj = RenderObject::new(Sprite::default(), object_coordinate);
        match panel.write_object(&obj) {
            Ok(_) => (),
            Err(_) => panic!("Test case {} failed to write object to handle", i),
        };

        let actual = panel.handle.get_buffer_content();
        let actual_string = String::from_utf8_lossy(&actual).to_string();

        assert_eq!(
            actual_string, expected,
            "Test case {} failed. Expected:\n{}\nGot:\n{}\n",
            i, expected, actual_string
        )
    }
}
