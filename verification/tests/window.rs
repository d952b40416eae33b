use game_of_life::shared::frame::Pixel;
use game_of_life::shared::usize2d::Usize2d;
use game_of_life::windows::errors::WindowException;
use game_of_life::windows::window::Window;

#[test]
fn window_init() {
    let size = Usize2d::new(10, 20);
    let top_left = Usize2d::new(0, 0);
    let bottom_right = Usize2d::new(10, 20);

    let window = Window::init(size, top_left, bottom_right);
    assert!(window.is_ok());
    let window = window.unwrap_or_else(|_| unreachable!());

    assert_eq!(window.previous_frame, vec![vec![Pixel::default(); 10]; 20]);
    assert_eq!(window.next_frame, vec![vec![Pixel::default(); 10]; 20]);
}

#[test]
fn window_init_fail_left_gt_right() {
    let size = Usize2d::new(10, 20);
    let top_left = Usize2d::new(1, 0);
    let bottom_right = Usize2d::new(0, 20);

    let window = Window::init(size, top_left, bottom_right);
    assert!(window.is_err());
    let error = match window {
        Err(error) => error,
        Ok(_) => unreachable!(),
    };
    assert!(error == WindowException::BadCoordinateException);
}

#[test]
fn window_init_fail_top_gt_bottom() {
    let size = Usize2d::new(10, 20);
    let top_left = Usize2d::new(0, 1);
    let bottom_right = Usize2d::new(10, 0);

    let window = Window::init(size, top_left, bottom_right);
    assert!(window.is_err());
    let error = match window {
        Err(error) => error,
        Ok(_) => unreachable!(),
    };
    assert!(error == WindowException::BadCoordinateException);
}
