use game_of_life::conway::conways_game::ConwaysGame;
use game_of_life::conway::print_mode::PrintMode;

const SECOND: u128 = 1_000_000_000;

fn board(rows: &[&str]) -> Vec<Vec<bool>> {
    rows.iter()
        .map(|row| row.chars().map(|cell| cell == '#').collect())
        .collect()
}

fn game(rows: &[&str]) -> ConwaysGame {
    ConwaysGame::with_board(board(rows), PrintMode::PRETTY, SECOND)
}

#[test]
fn init_has_the_declared_dimensions() {
    for (width, height, seed) in [(1, 1, 0), (1, 9, 3), (9, 1, 4), (10, 7, 419), (33, 17, 55)] {
        let game = ConwaysGame::init(width, height, seed, PrintMode::PRETTY, SECOND);
        assert_eq!(game.current.len(), height);
        assert_eq!(game.previous.len(), height);
        for row in 0..height {
            assert_eq!(game.current[row].len(), width);
            assert_eq!(game.previous[row].len(), width);
        }
        assert_eq!(game.settings.x_len, width);
        assert_eq!(game.settings.y_len, height);
    }
}

#[test]
fn init_is_fixed_by_the_seed() {
    let first = ConwaysGame::init(12, 9, 419, PrintMode::PRETTY, SECOND);
    let second = ConwaysGame::init(12, 9, 419, PrintMode::DEBUG, 5);
    let other = ConwaysGame::init(12, 9, 420, PrintMode::PRETTY, SECOND);
    assert_eq!(first.current, second.current);
    assert_ne!(first.current, other.current);
}

#[test]
fn init_fills_row_by_row() {
    let wide = ConwaysGame::init(25, 1, 55, PrintMode::PRETTY, SECOND);
    let square = ConwaysGame::init(5, 5, 55, PrintMode::PRETTY, SECOND);
    let flat: Vec<bool> = square.current.iter().flatten().copied().collect();
    assert_eq!(wide.current[0], flat);
}

#[test]
fn init_keeps_a_copy_as_previous() {
    let game = ConwaysGame::init(6, 4, 55, PrintMode::PRETTY, SECOND);
    assert_eq!(game.previous, game.current);
    assert!(game.is_stable());
}

#[test]
fn step_keeps_the_dimensions() {
    let mut game = ConwaysGame::init(7, 3, 1, PrintMode::PRETTY, SECOND);
    for _ in 0..10 {
        game.next();
        assert_eq!(game.current.len(), 3);
        assert_eq!(game.previous.len(), 3);
        for row in 0..3 {
            assert_eq!(game.current[row].len(), 7);
            assert_eq!(game.previous[row].len(), 7);
        }
    }
}

#[test]
fn step_keeps_the_old_generation() {
    let mut game = ConwaysGame::init(7, 5, 55, PrintMode::PRETTY, SECOND);
    let before = game.current.clone();
    game.next();
    assert_eq!(game.previous, before);
}

#[test]
fn still_life_is_stable_after_a_step() {
    let rows = ["......", "..##..", "..##..", "......", "......"];
    let mut still = game(&rows);
    still.next();
    assert_eq!(still.current, board(&rows));
    assert!(still.is_stable());
}

#[test]
fn blinker_is_not_stable_after_a_step() {
    let mut blinker = game(&[".....", "..#..", "..#..", "..#..", "....."]);
    blinker.next();
    assert_eq!(
        blinker.current,
        board(&[".....", ".....", ".###.", ".....", "....."])
    );
    assert!(!blinker.is_stable());
    blinker.next();
    assert!(!blinker.is_stable());
}

#[test]
fn corner_counts_the_opposite_edges() {
    // only cells on the far edges are alive
    let far = game(&[".....", ".....", ".....", "....#"]);
    assert_eq!(far.count_siblings(0, 0), 1);
    let right = game(&["....#", "....#", ".....", "....."]);
    assert_eq!(right.count_siblings(0, 0), 2);
    let bottom = game(&[".....", ".....", ".....", "##..#"]);
    assert_eq!(bottom.count_siblings(0, 0), 3);
    let all = game(&["#####", "#####", "#####", "#####"]);
    assert_eq!(all.count_siblings(0, 0), 8);
    assert_eq!(all.count_siblings(4, 3), 8);
    let own = game(&["#....", ".....", ".....", "....."]);
    assert_eq!(own.count_siblings(0, 0), 0);
    assert_eq!(own.count_siblings(4, 3), 1);
    assert_eq!(own.count_siblings(1, 1), 1);
    assert_eq!(own.count_siblings(4, 0), 1);
    assert_eq!(own.count_siblings(0, 3), 1);
}

#[test]
fn a_single_cell_is_its_own_neighbour() {
    let alone = game(&["#"]);
    assert_eq!(alone.count_siblings(0, 0), 8);
    let dead = game(&["."]);
    assert_eq!(dead.count_siblings(0, 0), 0);
    let mut alone = alone;
    alone.next();
    assert_eq!(alone.current, board(&["."]));
}

#[test]
fn a_narrow_board_counts_cells_twice() {
    let pair = game(&["#.", ".."]);
    // the cell right of (1, 0) and the cell left of it are the same cell
    assert_eq!(pair.count_siblings(1, 0), 2);
    assert_eq!(pair.count_siblings(1, 1), 4);
    assert_eq!(pair.count_siblings(0, 0), 0);
}

#[test]
fn places_beyond_the_board_count_from_its_first_line() {
    let own = game(&["#....", ".....", ".....", "....."]);
    // every neighbour of a column far right of the board is column zero
    assert_eq!(own.count_siblings(100, 1), 3);
    assert_eq!(own.count_siblings(1, 100), 3);
}

#[test]
fn every_cell_sees_the_same_snapshot() {
    let mut glider = game(&[
        ".#....",
        "..#...",
        "###...",
        "......",
        "......",
        "......",
    ]);
    glider.next();
    assert_eq!(
        glider.current,
        board(&[
            "......",
            "#.#...",
            ".##...",
            ".#....",
            "......",
            "......",
        ])
    );
}
