use game_of_life::handler::handle::Handle;
use game_of_life::handler::handle_error::HandleError;
use game_of_life::handler::memory_handle::MemoryHandle;
use game_of_life::panel::command_enum::PanelCommandEnum;
use game_of_life::panel::errors::PanelError;
use game_of_life::panel::panel::Panel;
use game_of_life::panel::state::PanelState;
use game_of_life::rendering::colors::TerminalColors as TC;
use game_of_life::rendering::render_object::RenderObject;
use game_of_life::rendering::sprite::Sprite;
use game_of_life::shared::shared_errors::SharedErrors;
use game_of_life::shared::square::Square;
use game_of_life::shared::usize2d::{Coord, Usize2d};
use game_of_life::windows::command_enum::WindowCommandEnum;
use game_of_life::windows::state::WindowState;
use game_of_life::windows::window::Window;

fn text(handle: &MemoryHandle) -> String {
    String::from_utf8_lossy(&handle.get_buffer_content()).to_string()
}

#[test]
fn nothing_shows_before_the_first_flush() {
    let mut handle = MemoryHandle::new();
    assert_eq!(handle.write(b"pending"), Ok(7));
    assert_eq!(text(&handle), "");
    assert_eq!(handle.buffer, Vec::<Vec<u8>>::new());
    assert_eq!(handle.flush(), Ok(()));
    assert_eq!(handle.buffer, vec![b"pending".to_vec()]);
    assert_eq!(text(&handle), "pending");
}

#[test]
fn need_to_flush_compares_pending_and_visible() {
    let handle = MemoryHandle::new();
    assert!(!handle.need_to_flush());

    let mut handle = MemoryHandle::new();
    let _ = handle.write(b"a");
    assert!(handle.need_to_flush());

    let mut handle = MemoryHandle::new();
    let _ = handle.write(b"a");
    let _ = handle.flush();
    assert!(!handle.need_to_flush());

    let mut handle = MemoryHandle::new();
    let _ = handle.write(b"a");
    let _ = handle.flush();
    let _ = handle.write(b"b");
    assert!(handle.need_to_flush());
}

#[test]
fn writes_overlay_rows_and_join_with_line_ends() {
    let mut handle = MemoryHandle::new();
    assert_eq!(handle.write_to_location(b"world", Coord::new(6, 1)), Ok(5));
    assert_eq!(handle.current_cursor_location, Coord::new(6, 1));
    assert_eq!(handle.write_to_location(b"hello", Coord::new(0, 1)), Ok(5));
    assert_eq!(handle.write_to_location(b"X", Coord::new(2, 0)), Ok(1));
    assert_eq!(handle.write_to_location(b"", Coord::new(9, 3)), Ok(0));
    let _ = handle.flush();
    assert_eq!(text(&handle), "  X\nhello world\n\n         ");
}

#[test]
fn write_fmt_adds_a_row_below() {
    let mut handle = MemoryHandle::new();
    let _ = handle.set_cursor_location(Usize2d::new(3, 0));
    handle.write_fmt("first");
    handle.write_fmt("sécond");
    let _ = handle.flush();
    assert_eq!(text(&handle), "first\nsécond");
    assert_eq!(handle.get_background_colors(), Vec::<Vec<TC>>::new());
    // a later write at the cursor pads the colour planes on its own
    assert_eq!(handle.write(b"!"), Ok(1));
    let _ = handle.flush();
    assert_eq!(text(&handle), "fir!t\nsécond");
    assert_eq!(
        handle.get_foreground_colors(),
        vec![vec![TC::Default, TC::Default, TC::Default, TC::Default]]
    );
}

#[test]
fn a_write_beyond_the_last_row_or_column_fails() {
    let mut handle = MemoryHandle::new();
    let _ = handle.set_cursor_location(Usize2d::new(0, usize::MAX));
    assert_eq!(handle.write(b"x"), Err(HandleError::WriteFailed));
    let _ = handle.set_cursor_location(Usize2d::new(usize::MAX, 0));
    assert_eq!(handle.write(b"x"), Err(HandleError::WriteFailed));
    assert_eq!(
        handle.write_to_location(b"xy", Coord::new(usize::MAX - 1, 0)),
        Err(HandleError::WriteFailed)
    );
    assert_eq!(handle.buffer_temp, Vec::<Vec<u8>>::new());
    let _ = handle.flush();
    assert_eq!(text(&handle), "");
}

#[test]
fn an_object_outside_of_the_panel_is_out_of_bounds() {
    let area = Square::new(Usize2d::new(3, 5), Usize2d::new(10, 10));
    let mut panel = Panel::init(area, MemoryHandle::new()).unwrap_or_else(|_| unreachable!());
    let outside = RenderObject::new(Sprite::default(), Coord::new(11, 6));
    assert_eq!(panel.write_object(&outside), Err(PanelError::OutOfBounds));
    let above = RenderObject::new(Sprite::default(), Coord::new(4, 0));
    assert_eq!(panel.write_object(&above), Err(PanelError::OutOfBounds));
    assert_eq!(panel.handle.buffer_temp, Vec::<Vec<u8>>::new());
}

#[test]
fn an_object_that_only_touches_the_panel_is_skipped() {
    let area = Square::new(Usize2d::new(3, 5), Usize2d::new(10, 10));
    let mut panel = Panel::init(area, MemoryHandle::new()).unwrap_or_else(|_| unreachable!());
    // its last column is the panel's first
    let touching = RenderObject::new(Sprite::default(), Coord::new(1, 6));
    assert_eq!(panel.write_object(&touching), Ok(false));
    // its first column is the panel's last
    let touching = RenderObject::new(Sprite::default(), Coord::new(10, 6));
    assert_eq!(panel.write_object(&touching), Ok(false));
    assert_eq!(panel.handle.buffer_temp, Vec::<Vec<u8>>::new());
}

struct Refusing {
    places_cursor: bool,
    calls: Vec<String>,
}

impl Handle for Refusing {
    fn set_cursor_location(&mut self, coord: Usize2d) -> Result<(), HandleError> {
        self.calls.push(format!("cursor {},{}", coord.x, coord.y));
        if self.places_cursor {
            Ok(())
        } else {
            Err(HandleError::SetCursorLocationFailed)
        }
    }

    fn set_foreground_color(&mut self, _color: TC) -> Result<(), HandleError> {
        Err(HandleError::SetForegroundFailed)
    }

    fn set_background_color(&mut self, _color: TC) -> Result<(), HandleError> {
        Err(HandleError::SetBackgroundFailed)
    }

    fn write_to_location(&mut self, _buf: &[u8], _coord: Coord) -> Result<usize, HandleError> {
        Err(HandleError::WriteFailed)
    }

    fn write(&mut self, buf: &[u8]) -> Result<usize, HandleError> {
        self.calls
            .push(format!("write {}", String::from_utf8_lossy(buf)));
        Err(HandleError::WriteFailed)
    }

    fn flush(&mut self) -> Result<(), HandleError> {
        self.calls.push("flush".to_string());
        Err(HandleError::WriteFailed)
    }
}

#[test]
fn a_handle_that_cannot_write_fails_the_object() {
    let area = Square::new(Usize2d::new(0, 0), Usize2d::new(20, 20));
    let handle = Refusing {
        places_cursor: true,
        calls: Vec::new(),
    };
    let mut panel = Panel::init(area, handle).unwrap_or_else(|_| unreachable!());
    let object = RenderObject::new(Sprite::default(), Coord::new(4, 1));
    assert_eq!(panel.write_object(&object), Err(PanelError::WriteFailed));
    assert_eq!(panel.handle.calls, vec!["cursor 4,1", "write X X"]);
}

#[test]
fn a_handle_that_cannot_place_the_cursor_fails_the_object() {
    let area = Square::new(Usize2d::new(0, 0), Usize2d::new(20, 20));
    let handle = Refusing {
        places_cursor: false,
        calls: Vec::new(),
    };
    let mut panel = Panel::init(area, handle).unwrap_or_else(|_| unreachable!());
    let object = RenderObject::new(Sprite::default(), Coord::new(4, 1));
    assert_eq!(
        panel.write_object(&object),
        Err(PanelError::WriteLocationFailed)
    );
    assert_eq!(panel.handle.calls, vec!["cursor 4,1"]);
}

#[test]
fn the_claimed_square_is_as_high_as_the_sprite_is_wide() {
    let content = vec![vec![b'a', b'b', b'c', b'd'], vec![b'e', b'f', b'g', b'h']];
    let colors = vec![vec![TC::Red; 4]; 2];
    let sprite = Sprite::new("wide".to_string(), 4, 2, content, colors.clone(), colors);
    assert_eq!(sprite.width(), 4);
    assert_eq!(sprite.height(), 2);
    let object = RenderObject::new(sprite, Coord::new(5, 7));
    assert_eq!(object.get_location(), Coord::new(5, 7));
    let (top_left, bottom_right) = object.get_area().get_boundary();
    assert_eq!(top_left, Coord::new(5, 7));
    assert_eq!(bottom_right, Coord::new(8, 10));
    assert_eq!(
        object.get_content_to_write(Square::new(Coord::new(6, 0), Coord::new(7, 8))),
        Ok(vec![vec![b'b', b'c'], vec![b'f', b'g']])
    );
    assert_eq!(
        object.get_content_to_write(Square::new(Coord::new(0, 0), Coord::new(5, 8))),
        Err(SharedErrors::OutOfBounds)
    );
    assert_eq!(
        object.get_content_to_write(Square::new(Coord::new(0, 0), Coord::new(9, 7))),
        Err(SharedErrors::OutOfBounds)
    );
}

#[test]
fn the_default_sprite_is_a_cross() {
    let sprite = Sprite::default();
    assert_eq!(sprite.width(), 3);
    assert_eq!(sprite.height(), 3);
    assert_eq!(
        sprite.get_content_for_area(
            Coord::new(0, 0),
            Square::new(Coord::new(0, 0), Coord::new(9, 9))
        ),
        Ok(vec![b"X X".to_vec(), b" X ".to_vec(), b"X X".to_vec()])
    );
}

#[test]
fn commands_raise_their_flags() {
    let mut state = PanelState::default();
    assert_eq!(
        state,
        PanelState {
            is_paused: false,
            is_killed: false,
            is_cleared: false,
            new_buffer_size: Usize2d::new(0, 0),
        }
    );
    state.process_command(PanelCommandEnum::PauseProcess);
    assert!(state.is_paused && !state.is_killed && !state.is_cleared);
    state.process_command(PanelCommandEnum::ResizeBuffer);
    assert!(state.is_paused && !state.is_killed && state.is_cleared);
    state.process_command(PanelCommandEnum::KillProcess);
    assert!(state.is_paused && state.is_killed && state.is_cleared);
    state.process_command(PanelCommandEnum::ClearBuffer);
    assert!(state.is_paused && state.is_killed && state.is_cleared);

    let mut state = WindowState::default();
    state.process_command(WindowCommandEnum::ClearBuffer);
    assert!(!state.is_paused && !state.is_killed && state.is_cleared);
    state.process_command(WindowCommandEnum::KillProcess);
    assert!(state.is_killed);
    let mut state = WindowState::default();
    state.process_command(WindowCommandEnum::ResizeBuffer);
    assert!(state.is_cleared);
    state.process_command(WindowCommandEnum::PauseProcess);
    assert!(state.is_paused);
}

#[test]
fn a_killed_panel_stops() {
    let area = Square::new(Usize2d::new(0, 0), Usize2d::new(2, 2));
    let mut panel = Panel::init(area, MemoryHandle::new()).unwrap_or_else(|_| unreachable!());
    assert!(panel.run_step(None));
    assert!(panel.run_step(Some(PanelCommandEnum::PauseProcess)));
    assert!(panel.state.is_paused);
    assert_eq!(panel.process_frame(Vec::new()), Ok(()));
    assert!(!panel.run_step(Some(PanelCommandEnum::KillProcess)));
    assert!(!panel.run_step(None));

    let mut window = Window::init(Usize2d::new(2, 2), Usize2d::new(0, 0), Usize2d::new(1, 1))
        .unwrap_or_else(|_| unreachable!());
    assert!(window.run_step(None));
    assert!(window.run_step(Some(WindowCommandEnum::ClearBuffer)));
    assert!(!window.run_step(Some(WindowCommandEnum::KillProcess)));
    assert!(!window.run_step(None));
}

#[test]
fn points_add_axis_by_axis() {
    assert_eq!(Usize2d::new(3, 4) + Usize2d::new(10, 20), Usize2d::new(13, 24));
    assert_eq!(Usize2d::default(), Usize2d::new(0, 0));
    let (top_left, bottom_right) = Square::default().get_boundary();
    assert_eq!(top_left, Usize2d::new(0, 0));
    assert_eq!(bottom_right, Usize2d::new(0, 0));
    assert_eq!(SharedErrors::OutOfBounds.label(), "OutOfBounds");
    assert_eq!(SharedErrors::NoError.label(), "None");
}
