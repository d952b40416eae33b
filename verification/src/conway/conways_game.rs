//! The board, its generations, and the state that the operator steers.

use vstd::prelude::*;
use vstd::string::StringExecFns;
use crate::console::input_record::KeyEvent;
use crate::coordinate::Coord;
use crate::conway::command::{command_for, Command};
use crate::conway::print_mode::PrintMode;
use crate::conway::settings::ConwaysSettings;
use crate::conway::seeded_fill::{draw_bool, rng_from_seed, seeded_bool, upcoming_bool};
use crate::conways_law::{conways_law, lives_on};
use crate::terminal::formatter::Terminal;
use crate::terminal::shared_writer::SharedWriter;

verus! {

/// A generation as a matrix of cells, row by row.
pub type Generation = Seq<Seq<bool>>;

/// The matrix that a vector of rows holds.
pub open spec fn cells(rows: Seq<Vec<bool>>) -> Generation {
    Seq::new(rows.len(), |y: int| rows[y]@)
}

/// Whether a matrix has `height` rows of `width` cells each.
pub open spec fn has_shape(grid: Generation, width: int, height: int) -> bool {
    &&& grid.len() == height
    &&& forall|y: int| 0 <= y < height ==> (#[trigger] grid[y]).len() == width
}

/// The neighbouring index of `index` in direction `delta` on a ring of `len`
/// places: one step below zero lands on the last place, one step past the
/// last place (or anywhere beyond) lands on zero.
pub open spec fn wrapped(index: int, delta: int, len: int) -> int {
    if index + delta < 0 {
        len - 1
    } else if index + delta >= len {
        0
    } else {
        index + delta
    }
}

/// One if the neighbour of `(x, y)` in direction `(dx, dy)` is alive, else zero.
pub open spec fn neighbour(grid: Generation, x: int, y: int, dx: int, dy: int) -> int {
    let width = grid[0].len() as int;
    let height = grid.len() as int;
    if grid[wrapped(y, dy, height)][wrapped(x, dx, width)] {
        1
    } else {
        0
    }
}

/// How many of the eight neighbours of `(x, y)` are alive on the torus.
pub open spec fn live_neighbours(grid: Generation, x: int, y: int) -> int {
    neighbour(grid, x, y, -1, -1) + neighbour(grid, x, y, -1, 0) + neighbour(grid, x, y, -1, 1)
        + neighbour(grid, x, y, 0, -1) + neighbour(grid, x, y, 0, 1) + neighbour(
        grid,
        x,
        y,
        1,
        -1,
    ) + neighbour(grid, x, y, 1, 0) + neighbour(grid, x, y, 1, 1)
}

/// The generation that follows `grid`: every cell judged by the rule against
/// the neighbours it has in `grid` itself.
pub open spec fn next_generation(grid: Generation) -> Generation {
    Seq::new(
        grid.len(),
        |y: int|
            Seq::new(grid[0].len(), |x: int| lives_on(grid[y][x], live_neighbours(grid, x, y))),
    )
}

/// The board that a seed gives: one drawn boolean per cell, row by row.
pub open spec fn seeded_generation(seed: u64, width: int, height: int) -> Generation {
    Seq::new(
        height as nat,
        |y: int| Seq::new(width as nat, |x: int| seeded_bool(seed, (y * width + x) as nat)),
    )
}

/// Everything about a running game that the operator or the clock changes.
pub struct ConwaysState {
    pub fps_last: u64,
    pub fps_current: u64,
    pub latest_input: char,
    pub latest_command: Command,
    pub command_count: u64,
    pub latest_err: String,
    pub is_paused: bool,
    pub is_fps_limited: bool,
    pub rounds: u64,
    pub print_mode: PrintMode,
}

/// When, in nanoseconds since the loop began, the last generation was
/// computed and the last frame-rate sample was taken.
#[derive(Clone, Copy, Debug, PartialEq, Eq, Structural)]
pub struct Pacing {
    pub elapsed_prev_game: u128,
    pub elapsed_prev_fps_counter: u128,
}

/// A game: the current generation, the one before it, the run state, the
/// settings, the pacing of the loop, and the terminal that gathers what the
/// game draws.
pub struct ConwaysGame {
    pub current: Vec<Vec<bool>>,
    pub previous: Vec<Vec<bool>>,
    pub state: ConwaysState,
    pub settings: ConwaysSettings,
    pub pacing: Pacing,
    pub out: Terminal,
}

/// What a processed key asks of the display.
#[derive(Clone, Copy, Debug, PartialEq, Eq, Structural)]
pub enum DisplaySignal {
    /// Nothing to redraw.
    Nothing,
    /// The mode changed: clear the whole screen and hide the cursor again.
    ClearScreen,
    /// The viewport moved: clear the rows that the board covered.
    ClearCells,
}

/// A reading of the wall clock: the nanoseconds since the loop began, or the
/// reason why the clock could not be read.
pub enum ClockReading {
    Elapsed(u128),
    Failed(String),
}

/// How one pass of the loop ended.
#[derive(Clone, Copy, Debug, PartialEq, Eq, Structural)]
pub enum LoopOutcome {
    /// The operator quit: leave the loop at once, without drawing.
    Quit,
    /// Draw the board. `throttle` asks for the fixed pause before drawing,
    /// `done` says that the board has come to rest and this is the last pass.
    Render { throttle: bool, done: bool },
}

/// The result of one pass of the loop: what the key of this pass, if any, asks
/// of the display, and how the pass ended.
#[derive(Clone, Copy, Debug, PartialEq, Eq, Structural)]
pub struct LoopStep {
    pub signal: DisplaySignal,
    pub outcome: LoopOutcome,
}

/// The frame-rate sample interval, in nanoseconds.
pub const FPS_SAMPLE_NANOS: u128 = 100_000_000;

/// The number of nanoseconds in a second.
pub const NANOS_PER_SECOND: u128 = 1_000_000_000;

/// The run state after the key `key` went down.
pub open spec fn state_after_key(state: ConwaysState, key: char) -> ConwaysState {
    let command = command_for(key);
    ConwaysState {
        command_count: (state.command_count + 1) as u64,
        latest_input: key,
        latest_command: command,
        print_mode: if command == Command::TOGGLEMODE {
            state.print_mode.toggled()
        } else {
            state.print_mode
        },
        is_paused: if command == Command::PAUSEPLAY {
            !state.is_paused
        } else {
            state.is_paused
        },
        is_fps_limited: if command == Command::TOGGLEFPS {
            !state.is_fps_limited
        } else {
            state.is_fps_limited
        },
        ..state
    }
}

/// The viewport origin after the key `key` went down: up and left stop at
/// zero, down and right always move on.
pub open spec fn origin_after_key(origin: Coord, key: char) -> Coord {
    match command_for(key) {
        Command::MOVEUP => Coord { x: origin.x, y: if origin.y > 0 { (origin.y - 1) as u16 } else { 0 } },
        Command::MOVELEFT => Coord { x: if origin.x > 0 { (origin.x - 1) as u16 } else { 0 }, y: origin.y },
        Command::MOVEDOWN => Coord { x: origin.x, y: (origin.y + 1) as u16 },
        Command::MOVERIGHT => Coord { x: (origin.x + 1) as u16, y: origin.y },
        _ => origin,
    }
}

/// What the key `key` going down asks of the display, given the viewport
/// origin before the key.
pub open spec fn signal_for_key(origin: Coord, key: char) -> DisplaySignal {
    match command_for(key) {
        Command::TOGGLEMODE => DisplaySignal::ClearScreen,
        Command::MOVEUP => if origin.y > 0 { DisplaySignal::ClearCells } else { DisplaySignal::Nothing },
        Command::MOVELEFT => if origin.x > 0 { DisplaySignal::ClearCells } else { DisplaySignal::Nothing },
        Command::MOVEDOWN => DisplaySignal::ClearCells,
        Command::MOVERIGHT => DisplaySignal::ClearCells,
        _ => DisplaySignal::Nothing,
    }
}

/// The viewport origin after a run of keys went down, one after the other.
pub open spec fn origin_after_keys(origin: Coord, keys: Seq<char>) -> Coord
    decreases keys.len(),
{
    if keys.len() == 0 {
        origin
    } else {
        origin_after_key(origin_after_keys(origin, keys.drop_last()), keys.last())
    }
}

/// The frame rate for `frames` loop passes in `nanos` nanoseconds: passes
/// per second, rounded down, and capped at the largest counter value.
pub open spec fn frames_per_second(frames: u64, nanos: u128) -> u64 {
    let rate = frames * NANOS_PER_SECOND / (nanos as int);
    if rate > u64::MAX {
        u64::MAX
    } else {
        rate as u64
    }
}

/// Whether a reading is usable: the clock was read, and it shows no time
/// before an earlier reading that the loop acted on.
pub open spec fn clock_is_sound(pacing: Pacing, clock: ClockReading) -> bool {
    clock matches ClockReading::Elapsed(elapsed) && elapsed >= pacing.elapsed_prev_fps_counter
        && elapsed >= pacing.elapsed_prev_game
}

/// The elapsed time of a reading; zero where the clock could not be read.
pub open spec fn elapsed_of(clock: ClockReading) -> u128 {
    match clock {
        ClockReading::Elapsed(elapsed) => elapsed,
        ClockReading::Failed(_) => 0,
    }
}

/// The error text that an unusable reading leaves behind.
pub open spec fn clock_error(clock: ClockReading) -> Seq<char> {
    match clock {
        ClockReading::Elapsed(_) => backward_clock_message(),
        ClockReading::Failed(reason) => reason@,
    }
}

/// Whether a frame-rate sample is due at `elapsed`: more than the sample
/// interval has passed since the last one.
pub open spec fn sample_due(pacing: Pacing, elapsed: u128) -> bool {
    elapsed - pacing.elapsed_prev_fps_counter > FPS_SAMPLE_NANOS
}

/// Whether a generation is due at `elapsed`: the game is not paused and more
/// than the round duration has passed since the last generation.
pub open spec fn round_due(
    state: ConwaysState,
    settings: ConwaysSettings,
    pacing: Pacing,
    elapsed: u128,
) -> bool {
    !state.is_paused && elapsed - pacing.elapsed_prev_game > settings.round_duration
}

/// The run state after a usable clock reading. A pass on which a sample is
/// due turns the frames counted so far into a rate and starts the count anew
/// at zero; every other pass counts as one more frame. A due generation
/// counts as a round.
pub open spec fn state_after_clock(
    state: ConwaysState,
    settings: ConwaysSettings,
    pacing: Pacing,
    elapsed: u128,
) -> ConwaysState {
    ConwaysState {
        fps_last: if sample_due(pacing, elapsed) {
            frames_per_second(
                state.fps_current,
                (elapsed - pacing.elapsed_prev_fps_counter) as u128,
            )
        } else {
            state.fps_last
        },
        fps_current: if sample_due(pacing, elapsed) {
            0
        } else {
            (state.fps_current + 1) as u64
        },
        rounds: if round_due(state, settings, pacing, elapsed) {
            (state.rounds + 1) as u64
        } else {
            state.rounds
        },
        ..state
    }
}

/// The pacing after a usable clock reading.
pub open spec fn pacing_after_clock(
    state: ConwaysState,
    settings: ConwaysSettings,
    pacing: Pacing,
    elapsed: u128,
) -> Pacing {
    Pacing {
        elapsed_prev_game: if round_due(state, settings, pacing, elapsed) {
            elapsed
        } else {
            pacing.elapsed_prev_game
        },
        elapsed_prev_fps_counter: if sample_due(pacing, elapsed) {
            elapsed
        } else {
            pacing.elapsed_prev_fps_counter
        },
    }
}

/// The text recorded when a clock reading lies before an earlier one.
pub open spec fn backward_clock_message() -> Seq<char> {
    "the clock moved backward"@
}

/// The index next to `index` in direction `delta` on a ring of `len` places.
fn wrap_index(index: usize, delta: i8, len: usize) -> (at: usize)
    requires
        len > 0,
        -1 <= delta <= 1,
    ensures
        at == wrapped(index as int, delta as int, len as int),
        at < len,
{
    if delta < 0 {
        if index == 0 {
            len - 1
        } else if index - 1 >= len {
            0
        } else {
            index - 1
        }
    } else if delta == 0 {
        if index >= len {
            0
        } else {
            index
        }
    } else {
        if index >= len - 1 {
            0
        } else {
            index + 1
        }
    }
}

/// Computes the frame rate for `frames` passes in `nanos` nanoseconds.
fn frame_rate(frames: u64, nanos: u128) -> (rate: u64)
    requires
        nanos > 0,
    ensures
        rate == frames_per_second(frames, nanos),
{
    let scaled: u128 = (frames as u128) * NANOS_PER_SECOND;
    let rate: u128 = scaled / nanos;
    if rate > u64::MAX as u128 {
        u64::MAX
    } else {
        rate as u64
    }
}

/// However many keys for moving up or left go down, a viewport that stands at
/// the top left corner stays there.
pub proof fn origin_stays_at_corner(keys: Seq<char>)
    requires
        forall|i: int|
            0 <= i < keys.len() ==> command_for(#[trigger] keys[i]) == Command::MOVEUP
                || command_for(keys[i]) == Command::MOVELEFT,
    ensures
        origin_after_keys(Coord { x: 0, y: 0 }, keys) == (Coord { x: 0, y: 0 }),
    decreases keys.len(),
{
    if keys.len() > 0 {
        origin_stays_at_corner(keys.drop_last());
        assert(keys.last() == keys[keys.len() - 1]);
    }
}

/// Whether `event` is a pause key going down.
pub open spec fn is_pause_key(event: Option<KeyEvent>) -> bool {
    event matches Some(command) && command.is_down && command_for(command.command)
        == Command::PAUSEPLAY
}

/// What one pass of the loop does: `before` is the game as the pass found
/// it, `after` the game as it left it, and `step` what it reported.
///
/// The event is processed first. If the latest command is then to quit, the
/// pass ends there and reports it. Otherwise the pass asks for a drawing,
/// with the fixed pause if the frame limit is on, and reports the game done
/// once a generation has been computed and the board is at rest. In between,
/// a usable clock reading settles the frame count, the rate and the round,
/// and an unusable one only leaves its message in the run state. A paused
/// game computes no generation, whatever the clock reads.
pub open spec fn passed(
    before: ConwaysGame,
    event: Option<KeyEvent>,
    clock: ClockReading,
    after: ConwaysGame,
    step: LoopStep,
) -> bool {
    let mid = before.after_event(event);
    let elapsed = elapsed_of(clock);
    &&& after.out == before.out
    &&& step.signal == (match event {
        Some(command) => before.signal_of(command),
        None => DisplaySignal::Nothing,
    })
    &&& after.settings == mid.settings
    &&& mid.state.latest_command == Command::QUIT ==> {
        &&& step.outcome == LoopOutcome::Quit
        &&& after == mid
    }
    &&& mid.state.latest_command != Command::QUIT ==> {
        &&& step.outcome == (LoopOutcome::Render {
            throttle: mid.state.is_fps_limited,
            done: after.state.rounds > 0 && after.is_at_rest(),
        })
        &&& clock_is_sound(mid.pacing, clock) ==> {
            &&& after.state == state_after_clock(mid.state, mid.settings, mid.pacing, elapsed)
            &&& after.pacing == pacing_after_clock(mid.state, mid.settings, mid.pacing, elapsed)
            &&& round_due(mid.state, mid.settings, mid.pacing, elapsed) ==> {
                &&& after.grid() == next_generation(before.grid())
                &&& after.previous_grid() == before.grid()
            }
            &&& !round_due(mid.state, mid.settings, mid.pacing, elapsed) ==> {
                &&& after.current == before.current
                &&& after.previous == before.previous
            }
        }
        &&& !clock_is_sound(mid.pacing, clock) ==> {
            &&& after.state.latest_err@ == clock_error(clock)
            &&& after.state == (ConwaysState { latest_err: after.state.latest_err, ..mid.state })
            &&& after.pacing == mid.pacing
            &&& after.current == before.current
            &&& after.previous == before.previous
        }
    }
}

/// A pass on which a frame-rate sample is taken leaves the frame count at
/// zero and the rate at the frames counted so far per second; every other
/// pass with a usable clock counts one frame more and keeps the rate.
pub proof fn frames_are_counted_between_samples(
    before: ConwaysGame,
    event: Option<KeyEvent>,
    clock: ClockReading,
    after: ConwaysGame,
    step: LoopStep,
)
    requires
        passed(before, event, clock, after, step),
        before.after_event(event).state.latest_command != Command::QUIT,
        clock_is_sound(before.pacing, clock),
        before.state.fps_current < u64::MAX,
    ensures
        sample_due(before.pacing, elapsed_of(clock)) ==> {
            &&& after.state.fps_current == 0
            &&& after.state.fps_last == frames_per_second(
                before.state.fps_current,
                (elapsed_of(clock) - before.pacing.elapsed_prev_fps_counter) as u128,
            )
            &&& after.pacing.elapsed_prev_fps_counter == elapsed_of(clock)
        },
        !sample_due(before.pacing, elapsed_of(clock)) ==> {
            &&& after.state.fps_current == before.state.fps_current + 1
            &&& after.state.fps_last == before.state.fps_last
            &&& after.pacing.elapsed_prev_fps_counter == before.pacing.elapsed_prev_fps_counter
        },
{
}

/// A pass of a paused game on which no pause key goes down computes no
/// generation and leaves the game paused, whatever the clock reads.
pub proof fn paused_pass_keeps_the_board(
    before: ConwaysGame,
    event: Option<KeyEvent>,
    clock: ClockReading,
    after: ConwaysGame,
    step: LoopStep,
)
    requires
        passed(before, event, clock, after, step),
        before.state.is_paused,
        !is_pause_key(event),
    ensures
        after.state.is_paused,
        after.current == before.current,
        after.previous == before.previous,
        after.state.rounds == before.state.rounds,
{
}

/// However many passes a paused game makes, and whatever the clock reads on
/// each, as long as no pause key goes down the game stays paused and its
/// board and round stay as they were. `games` holds the game before the
/// first pass and after each pass.
pub proof fn paused_game_never_steps(
    games: Seq<ConwaysGame>,
    events: Seq<Option<KeyEvent>>,
    clocks: Seq<ClockReading>,
    steps: Seq<LoopStep>,
    upto: int,
)
    requires
        games.len() == events.len() + 1,
        clocks.len() == events.len(),
        steps.len() == events.len(),
        forall|i: int|
            0 <= i < events.len() ==> passed(
                games[i],
                #[trigger] events[i],
                clocks[i],
                games[i + 1],
                steps[i],
            ),
        forall|i: int| 0 <= i < events.len() ==> !is_pause_key(#[trigger] events[i]),
        games[0].state.is_paused,
        0 <= upto <= events.len(),
    ensures
        games[upto].state.is_paused,
        games[upto].current == games[0].current,
        games[upto].previous == games[0].previous,
        games[upto].state.rounds == games[0].state.rounds,
    decreases upto,
{
    if upto > 0 {
        paused_game_never_steps(games, events, clocks, steps, upto - 1);
        let event = events[upto - 1];
        assert(!is_pause_key(event));
        paused_pass_keeps_the_board(
            games[upto - 1],
            event,
            clocks[upto - 1],
            games[upto],
            steps[upto - 1],
        );
    }
}

/// Moving up or left never takes a viewport axis past zero, and never moves
/// the other axis.
pub proof fn origin_never_negative(origin: Coord, key: char)
    requires
        command_for(key) == Command::MOVEUP || command_for(key) == Command::MOVELEFT,
    ensures
        0 <= origin_after_key(origin, key).x <= origin.x,
        0 <= origin_after_key(origin, key).y <= origin.y,
        origin.x + origin.y <= origin_after_key(origin, key).x + origin_after_key(origin, key).y
            + 1,
{
}

/// A key for moving up or left that goes down moves its own axis by one,
/// stops at zero, and never moves the other axis.
pub proof fn up_and_left_stop_at_zero(game: ConwaysGame, command: KeyEvent)
    requires
        command.is_down,
        command_for(command.command) == Command::MOVEUP || command_for(command.command)
            == Command::MOVELEFT,
    ensures
        command_for(command.command) == Command::MOVEUP ==> game.after_key_event(
            command,
        ).settings.origin == (Coord {
            x: game.settings.origin.x,
            y: if game.settings.origin.y > 0 {
                (game.settings.origin.y - 1) as u16
            } else {
                0
            },
        }),
        command_for(command.command) == Command::MOVELEFT ==> game.after_key_event(
            command,
        ).settings.origin == (Coord {
            x: if game.settings.origin.x > 0 {
                (game.settings.origin.x - 1) as u16
            } else {
                0
            },
            y: game.settings.origin.y,
        }),
        game.settings.origin == (Coord { x: 0, y: 0 }) ==> game.after_key_event(
            command,
        ).settings.origin == (Coord { x: 0, y: 0 }),
        game.after_key_event(command).current == game.current,
        game.after_key_event(command).previous == game.previous,
{
}

/// The game after a run of keyboard events, one after the other.
pub open spec fn after_key_events(game: ConwaysGame, commands: Seq<KeyEvent>) -> ConwaysGame
    decreases commands.len(),
{
    if commands.len() == 0 {
        game
    } else {
        after_key_events(game, commands.drop_last()).after_key_event(commands.last())
    }
}

/// Whatever run of keys for moving up or left goes down, and whatever keys
/// come up in between, a viewport that stands at the top left corner stays
/// there.
pub proof fn corner_is_kept(game: ConwaysGame, commands: Seq<KeyEvent>)
    requires
        game.settings.origin == (Coord { x: 0, y: 0 }),
        forall|i: int|
            0 <= i < commands.len() ==> !(#[trigger] commands[i]).is_down || command_for(
                commands[i].command,
            ) == Command::MOVEUP || command_for(commands[i].command) == Command::MOVELEFT,
    ensures
        after_key_events(game, commands).settings.origin == (Coord { x: 0, y: 0 }),
    decreases commands.len(),
{
    if commands.len() > 0 {
        corner_is_kept(game, commands.drop_last());
        assert(commands.last() == commands[commands.len() - 1]);
    }
}

/// Pressing the pause key twice leaves the game paused or running as it
/// was: each press flips the pause once, and neither touches the frame
/// limit, the print mode, the viewport or the generations.
pub proof fn pause_twice_restores(game: ConwaysGame, first: KeyEvent, second: KeyEvent)
    requires
        first.is_down,
        second.is_down,
        command_for(first.command) == Command::PAUSEPLAY,
        command_for(second.command) == Command::PAUSEPLAY,
    ensures
        game.after_key_event(first).state.is_paused == !game.state.is_paused,
        game.after_key_event(first).after_key_event(second).state.is_paused
            == game.state.is_paused,
        game.after_key_event(first).state.is_fps_limited == game.state.is_fps_limited,
        game.after_key_event(first).state.print_mode == game.state.print_mode,
        game.after_key_event(first).settings == game.settings,
        game.after_key_event(first).current == game.current,
        game.after_key_event(first).previous == game.previous,
        game.after_key_event(first).after_key_event(second).state.is_fps_limited
            == game.state.is_fps_limited,
        game.after_key_event(first).after_key_event(second).state.print_mode
            == game.state.print_mode,
        game.after_key_event(first).after_key_event(second).settings == game.settings,
        game.after_key_event(first).after_key_event(second).current == game.current,
        game.after_key_event(first).after_key_event(second).previous == game.previous,
{
}

/// A key that comes up changes nothing and asks nothing of the display.
pub proof fn key_up_is_ignored(game: ConwaysGame, command: KeyEvent)
    requires
        !command.is_down,
    ensures
        game.after_key_event(command) == game,
        game.signal_of(command) == DisplaySignal::Nothing,
{
}

/// A seeded board has exactly the dimensions that were asked for.
pub proof fn seeded_has_shape(seed: u64, width: int, height: int)
    requires
        width > 0,
        height > 0,
    ensures
        has_shape(seeded_generation(seed, width, height), width, height),
{
}

/// The generation that follows has the dimensions of the one before.
pub proof fn next_keeps_shape(grid: Generation, width: int, height: int)
    requires
        width > 0,
        height > 0,
        has_shape(grid, width, height),
    ensures
        has_shape(next_generation(grid), width, height),
{
    assert(grid[0].len() == width);
}

/// A cell never has fewer than zero or more than eight living neighbours,
/// wherever it lies.
pub proof fn neighbours_bounded(grid: Generation, x: int, y: int)
    ensures
        0 <= live_neighbours(grid, x, y) <= 8,
{
}

/// On a ring, every neighbouring index is a place of the ring, and the
/// neighbours of place zero are the last place and place one (or zero again
/// on a ring of one).
pub proof fn ring_neighbours(index: int, delta: int, len: int)
    requires
        len > 0,
        0 <= index,
        -1 <= delta <= 1,
    ensures
        0 <= wrapped(index, delta, len) < len,
        wrapped(0, -1, len) == len - 1,
        wrapped(0, 0, len) == 0,
        wrapped(0, 1, len) == if len == 1 { 0int } else { 1int },
        wrapped(len - 1, 1, len) == 0,
{
}

/// One if the cell at column `x` of row `y` is alive, else zero.
pub open spec fn alive_at(grid: Generation, x: int, y: int) -> int {
    if grid[y][x] {
        1
    } else {
        0
    }
}

/// At the top left corner the neighbours beyond the edges are the cells of
/// the last column and of the last row.
pub proof fn corner_wraps(grid: Generation, width: int, height: int)
    requires
        width > 0,
        height > 0,
        has_shape(grid, width, height),
    ensures
        live_neighbours(grid, 0, 0) == alive_at(grid, width - 1, height - 1) + alive_at(
            grid,
            width - 1,
            0,
        ) + alive_at(grid, width - 1, wrapped(0, 1, height)) + alive_at(grid, 0, height - 1)
            + alive_at(grid, 0, wrapped(0, 1, height)) + alive_at(
            grid,
            wrapped(0, 1, width),
            height - 1,
        ) + alive_at(grid, wrapped(0, 1, width), 0) + alive_at(
            grid,
            wrapped(0, 1, width),
            wrapped(0, 1, height),
        ),
        0 <= live_neighbours(grid, 0, 0) <= 8,
{
    assert(grid[0].len() == width);
}

impl ConwaysGame {
    /// The current generation as a matrix.
    pub open spec fn grid(&self) -> Generation {
        cells(self.current@)
    }

    /// The generation before the current one as a matrix.
    pub open spec fn previous_grid(&self) -> Generation {
        cells(self.previous@)
    }

    /// Whether the current generation equals the one before it.
    pub open spec fn is_at_rest(&self) -> bool {
        self.grid() == self.previous_grid()
    }

    /// Both generations have the dimensions that the settings declare, and
    /// the board is not empty.
    pub open spec fn well_formed(&self) -> bool {
        &&& self.settings.x_len > 0
        &&& self.settings.y_len > 0
        &&& has_shape(self.grid(), self.settings.x_len as int, self.settings.y_len as int)
        &&& has_shape(self.previous_grid(), self.settings.x_len as int, self.settings.y_len as int)
    }

    /// Creates a game on a board of `x_len` by `y_len` cells. The cells are
    /// drawn from a generator seeded with `seed`, one boolean per cell, row by
    /// row, so a seed always gives the same board. The previous generation
    /// starts out as a copy of the first one.
    pub fn init(x_len: usize, y_len: usize, seed: u64, mode: PrintMode, duration: u128) -> (game:
        Self)
        requires
            x_len > 0,
            y_len > 0,
        ensures
            game.well_formed(),
            game.grid() == seeded_generation(seed, x_len as int, y_len as int),
            game.previous_grid() == game.grid(),
            game.settings == ConwaysSettings::init_spec(x_len, y_len, duration),
            game.state.print_mode == mode,
            game.state.latest_command == Command::NONE,
            game.state.command_count == 0,
            game.state.latest_input == ' ',
            game.state.rounds == 0,
            game.state.fps_last == 0,
            game.state.fps_current == 0,
            !game.state.is_paused,
            !game.state.is_fps_limited,
            game.state.latest_err@.len() == 0,
            game.pacing == (Pacing { elapsed_prev_game: 0, elapsed_prev_fps_counter: 0 }),
            game.out.output() == Seq::<u8>::empty(),
    {
        let mut rng = rng_from_seed(seed);
        let ghost target = seeded_generation(seed, x_len as int, y_len as int);
        let mut new_state: Vec<Vec<bool>> = Vec::new();
        let mut new_prev: Vec<Vec<bool>> = Vec::new();
        let mut y: usize = 0;
        while y < y_len
            invariant
                x_len > 0,
                y <= y_len,
                target == seeded_generation(seed, x_len as int, y_len as int),
                new_state.len() == y,
                new_prev.len() == y,
                forall|j: int| 0 <= j < y ==> (#[trigger] new_state@[j])@ == target[j],
                forall|j: int| 0 <= j < y ==> (#[trigger] new_prev@[j])@ == target[j],
                forall|k: nat| #[trigger]
                    upcoming_bool(rng, k) == seeded_bool(seed, (y * x_len + k) as nat),
            decreases y_len - y,
        {
            let mut row: Vec<bool> = Vec::new();
            let mut prev_row: Vec<bool> = Vec::new();
            let mut x: usize = 0;
            while x < x_len
                invariant
                    x <= x_len,
                    y < y_len,
                    target == seeded_generation(seed, x_len as int, y_len as int),
                    row.len() == x,
                    prev_row.len() == x,
                    forall|i: int| 0 <= i < x ==> #[trigger] row@[i] == target[y as int][i],
                    forall|i: int| 0 <= i < x ==> #[trigger] prev_row@[i] == target[y as int][i],
                    forall|k: nat| #[trigger]
                        upcoming_bool(rng, k) == seeded_bool(seed, (y * x_len + x + k) as nat),
                decreases x_len - x,
            {
                let ghost before = rng;
                let drawn = draw_bool(&mut rng);
                proof {
                    assert(drawn == upcoming_bool(before, 0));
                    assert(drawn == target[y as int][x as int]);
                    assert forall|k: nat| #[trigger]
                        upcoming_bool(rng, k) == seeded_bool(
                            seed,
                            (y * x_len + (x + 1) + k) as nat,
                        ) by {
                        assert(upcoming_bool(rng, k) == upcoming_bool(before, k + 1));
                    }
                }
                row.push(drawn);
                prev_row.push(drawn);
                x = x + 1;
            }
            proof {
                assert(row@ =~= target[y as int]);
                assert(prev_row@ =~= target[y as int]);
                assert((y + 1) * x_len == y * x_len + x_len) by (nonlinear_arith);
            }
            new_state.push(row);
            new_prev.push(prev_row);
            y = y + 1;
        }
        let game = ConwaysGame {
            current: new_state,
            previous: new_prev,
            state: ConwaysState {
                print_mode: mode,
                latest_command: Command::NONE,
                command_count: 0,
                latest_input: ' ',
                rounds: 0,
                fps_last: 0,
                fps_current: 0,
                is_paused: false,
                is_fps_limited: false,
                latest_err: String::new(),
            },
            settings: ConwaysSettings::init(x_len, y_len, duration),
            pacing: Pacing { elapsed_prev_game: 0, elapsed_prev_fps_counter: 0 },
            out: Terminal::init(SharedWriter::init(Vec::new())),
        };
        proof {
            assert(game.grid() =~= target);
            assert(game.previous_grid() =~= target);
        }
        game
    }

    /// Creates a game on the board `board`, which becomes both the current
    /// and the previous generation. The board has at least one row, and all
    /// of its rows are of one length, which is at least one.
    pub fn with_board(board: Vec<Vec<bool>>, mode: PrintMode, duration: u128) -> (game: Self)
        requires
            board.len() > 0,
            board@[0].len() > 0,
            has_shape(cells(board@), board@[0].len() as int, board.len() as int),
        ensures
            game.well_formed(),
            game.grid() == cells(board@),
            game.previous_grid() == game.grid(),
            game.settings == ConwaysSettings::init_spec(board@[0].len(), board.len(), duration),
            game.state.print_mode == mode,
            game.state.latest_command == Command::NONE,
            game.state.command_count == 0,
            game.state.latest_input == ' ',
            game.state.rounds == 0,
            game.state.fps_last == 0,
            game.state.fps_current == 0,
            !game.state.is_paused,
            !game.state.is_fps_limited,
            game.state.latest_err@.len() == 0,
            game.pacing == (Pacing { elapsed_prev_game: 0, elapsed_prev_fps_counter: 0 }),
            game.out.output() == Seq::<u8>::empty(),
    {
        let y_len = board.len();
        let x_len = board[0].len();
        let mut new_prev: Vec<Vec<bool>> = Vec::new();
        let mut y: usize = 0;
        while y < y_len
            invariant
                y <= y_len == board.len(),
                has_shape(cells(board@), x_len as int, y_len as int),
                new_prev.len() == y,
                forall|j: int| 0 <= j < y ==> (#[trigger] new_prev@[j])@ == board@[j]@,
            decreases y_len - y,
        {
            assert(cells(board@)[y as int].len() == x_len);
            let mut row: Vec<bool> = Vec::new();
            let mut x: usize = 0;
            while x < x_len
                invariant
                    x <= x_len == board@[y as int].len(),
                    y < board.len(),
                    row@ == board@[y as int]@.subrange(0, x as int),
                decreases x_len - x,
            {
                row.push(board[y][x]);
                x = x + 1;
                assert(row@ =~= board@[y as int]@.subrange(0, x as int));
            }
            assert(row@ =~= board@[y as int]@);
            new_prev.push(row);
            y = y + 1;
        }
        assert(cells(new_prev@) =~= cells(board@));
        ConwaysGame {
            current: board,
            previous: new_prev,
            state: ConwaysState {
                print_mode: mode,
                latest_command: Command::NONE,
                command_count: 0,
                latest_input: ' ',
                rounds: 0,
                fps_last: 0,
                fps_current: 0,
                is_paused: false,
                is_fps_limited: false,
                latest_err: String::new(),
            },
            settings: ConwaysSettings::init(x_len, y_len, duration),
            pacing: Pacing { elapsed_prev_game: 0, elapsed_prev_fps_counter: 0 },
            out: Terminal::init(SharedWriter::init(Vec::new())),
        }
    }

    /// Whether the current generation equals the one before it.
    pub fn is_stable(&self) -> (stable: bool)
        requires
            self.well_formed(),
        ensures
            stable == (self.grid() == self.previous_grid()),
    {
        let x_len = self.settings.x_len;
        let y_len = self.settings.y_len;
        let mut y: usize = 0;
        while y < y_len
            invariant
                self.well_formed(),
                x_len == self.settings.x_len,
                y_len == self.settings.y_len,
                y <= y_len,
                forall|j: int| 0 <= j < y ==> #[trigger] self.grid()[j] == self.previous_grid()[j],
            decreases y_len - y,
        {
            let mut x: usize = 0;
            while x < x_len
                invariant
                    self.well_formed(),
                    x_len == self.settings.x_len,
                    y_len == self.settings.y_len,
                    y < y_len,
                    x <= x_len,
                    forall|i: int|
                        0 <= i < x ==> #[trigger] self.grid()[y as int][i]
                            == self.previous_grid()[y as int][i],
                decreases x_len - x,
            {
                assert(self.grid()[y as int].len() == x_len);
                assert(self.previous_grid()[y as int].len() == x_len);
                if self.current[y][x] != self.previous[y][x] {
                    assert(self.grid()[y as int][x as int] != self.previous_grid()[y as int][x as int]);
                    return false;
                }
                x = x + 1;
            }
            assert(self.grid()[y as int] =~= self.previous_grid()[y as int]);
            y = y + 1;
        }
        assert(self.grid() =~= self.previous_grid());
        true
    }

    /// Advances the board by one generation: every cell is judged against the
    /// generation that was current before the call, which then becomes the
    /// previous one.
    pub fn next(&mut self)
        requires
            old(self).well_formed(),
        ensures
            final(self).well_formed(),
            final(self).grid() == next_generation(old(self).grid()),
            final(self).previous_grid() == old(self).grid(),
            final(self).is_at_rest() <==> next_generation(old(self).grid()) == old(self).grid(),
            final(self).state == old(self).state,
            final(self).settings == old(self).settings,
            final(self).pacing == old(self).pacing,
            final(self).out == old(self).out,
    {
        let x_len = self.settings.x_len;
        let y_len = self.settings.y_len;
        let ghost before = self.grid();
        let ghost target = next_generation(before);
        assert(before[0].len() == x_len);
        let mut new_state: Vec<Vec<bool>> = Vec::new();
        let mut y: usize = 0;
        while y < y_len
            invariant
                self.well_formed(),
                *self == *old(self),
                x_len == self.settings.x_len,
                y_len == self.settings.y_len,
                before == self.grid(),
                target == next_generation(before),
                y <= y_len,
                new_state.len() == y,
                forall|j: int| 0 <= j < y ==> (#[trigger] new_state@[j])@ == target[j],
            decreases y_len - y,
        {
            let mut row: Vec<bool> = Vec::new();
            let mut x: usize = 0;
            while x < x_len
                invariant
                    self.well_formed(),
                    *self == *old(self),
                    x_len == self.settings.x_len,
                    y_len == self.settings.y_len,
                    before == self.grid(),
                    target == next_generation(before),
                    y < y_len,
                    x <= x_len,
                    row.len() == x,
                    forall|i: int| 0 <= i < x ==> #[trigger] row@[i] == target[y as int][i],
                decreases x_len - x,
            {
                let live_siblings = self.count_siblings(x, y);
                assert(before[y as int].len() == x_len);
                assert(before[0].len() == x_len);
                let cell = conways_law(self.current[y][x], live_siblings);
                row.push(cell);
                x = x + 1;
            }
            assert(before[0].len() == x_len);
            assert(row@ =~= target[y as int]);
            new_state.push(row);
            y = y + 1;
        }
        assert(before[0].len() == x_len);
        assert(cells(new_state@) =~= target);
        core::mem::swap(&mut self.current, &mut new_state);
        self.previous = new_state;
        assert(self.previous_grid() =~= before);
    }

    /// Whether processing `command` stays within the counters: a key that
    /// goes down is counted, and a move down or right needs room on its axis.
    pub open spec fn key_fits(&self, command: KeyEvent) -> bool {
        command.is_down ==> {
            &&& self.state.command_count < u64::MAX
            &&& command_for(command.command) == Command::MOVEDOWN ==> self.settings.origin.y
                < u16::MAX
            &&& command_for(command.command) == Command::MOVERIGHT ==> self.settings.origin.x
                < u16::MAX
        }
    }

    /// The game after `command` was processed: a key that comes up changes
    /// nothing; a key that goes down is counted, recorded, decoded and
    /// applied to the run state and the viewport.
    pub open spec fn after_key_event(self, command: KeyEvent) -> ConwaysGame {
        if !command.is_down {
            self
        } else {
            ConwaysGame {
                state: state_after_key(self.state, command.command),
                settings: ConwaysSettings {
                    origin: origin_after_key(self.settings.origin, command.command),
                    ..self.settings
                },
                ..self
            }
        }
    }

    /// What `command` asks of the display.
    pub open spec fn signal_of(self, command: KeyEvent) -> DisplaySignal {
        if !command.is_down {
            DisplaySignal::Nothing
        } else {
            signal_for_key(self.settings.origin, command.command)
        }
    }

    /// The game after the event of a loop pass, if there was one.
    pub open spec fn after_event(self, event: Option<KeyEvent>) -> ConwaysGame {
        match event {
            Some(command) => self.after_key_event(command),
            None => self,
        }
    }

    /// Whether a loop pass with `event` stays within the counters.
    pub open spec fn step_fits(&self, event: Option<KeyEvent>) -> bool {
        &&& self.state.fps_current < u64::MAX
        &&& self.state.rounds < u64::MAX
        &&& event matches Some(command) ==> self.key_fits(command)
    }

    /// Tests `key_fits`.
    pub fn can_process(&self, command: KeyEvent) -> (fits: bool)
        ensures
            fits == self.key_fits(command),
    {
        if !command.is_down {
            return true;
        }
        if self.state.command_count == u64::MAX {
            return false;
        }
        match Command::decode(command.command) {
            Command::MOVEDOWN => self.settings.origin.y < u16::MAX,
            Command::MOVERIGHT => self.settings.origin.x < u16::MAX,
            _ => true,
        }
    }

    /// Tests `step_fits`.
    pub fn can_step(&self, event: Option<KeyEvent>) -> (fits: bool)
        ensures
            fits == self.step_fits(event),
    {
        if self.state.fps_current == u64::MAX || self.state.rounds == u64::MAX {
            return false;
        }
        match event {
            Some(command) => self.can_process(command),
            None => true,
        }
    }

    /// Processes one keyboard event. A key that comes up is ignored entirely.
    /// A key that goes down is counted and remembered, decoded to a command,
    /// and the command is applied: pause, frame limit and print mode flip,
    /// the viewport moves by one (up and left stop at zero). The result says
    /// what the display has to clear.
    pub fn process_key_command(&mut self, command: KeyEvent) -> (signal: DisplaySignal)
        requires
            old(self).key_fits(command),
        ensures
            *final(self) == old(self).after_key_event(command),
            signal == old(self).signal_of(command),
            !command.is_down ==> *final(self) == *old(self) && signal == DisplaySignal::Nothing,
            final(self).current == old(self).current,
            final(self).previous == old(self).previous,
            final(self).settings.origin.x <= old(self).settings.origin.x + 1,
            final(self).settings.origin.y <= old(self).settings.origin.y + 1,
    {
        if !command.is_down {
            return DisplaySignal::Nothing;
        }
        self.state.command_count = self.state.command_count + 1;
        self.state.latest_input = command.command;
        let decoded = Command::decode(command.command);
        self.state.latest_command = decoded;
        let mut signal = DisplaySignal::Nothing;
        match decoded {
            Command::TOGGLEMODE => {
                self.state.print_mode = match self.state.print_mode {
                    PrintMode::DEBUG => PrintMode::PRETTY,
                    PrintMode::PRETTY => PrintMode::DEBUG,
                };
                signal = DisplaySignal::ClearScreen;
            },
            Command::PAUSEPLAY => {
                self.state.is_paused = !self.state.is_paused;
            },
            Command::TOGGLEFPS => {
                self.state.is_fps_limited = !self.state.is_fps_limited;
            },
            Command::MOVEUP => {
                if self.settings.origin.y > 0 {
                    self.settings.origin.y = self.settings.origin.y - 1;
                    signal = DisplaySignal::ClearCells;
                }
            },
            Command::MOVELEFT => {
                if self.settings.origin.x > 0 {
                    self.settings.origin.x = self.settings.origin.x - 1;
                    signal = DisplaySignal::ClearCells;
                }
            },
            Command::MOVEDOWN => {
                self.settings.origin.y = self.settings.origin.y + 1;
                signal = DisplaySignal::ClearCells;
            },
            Command::MOVERIGHT => {
                self.settings.origin.x = self.settings.origin.x + 1;
                signal = DisplaySignal::ClearCells;
            },
            _ => {},
        }
        signal
    }

    /// Runs one pass of the main loop on what the caller gathered for it: the
    /// key event that was waiting, if any, and a reading of the clock.
    ///
    /// The event is processed first. If the latest command is then to quit,
    /// the pass ends there. Otherwise a usable clock reading takes a
    /// frame-rate sample when one is due and counts the pass as a frame when
    /// none is, and computes the next generation when the game is not paused
    /// and the round duration has passed. An unusable reading only leaves its message in the run state.
    /// The pass then asks for a drawing, with the fixed pause if the frame
    /// limit is on, and reports the game done once a generation has been
    /// computed and the board equals the generation before it.
    pub fn run_step(&mut self, event: Option<KeyEvent>, clock: ClockReading) -> (step: LoopStep)
        requires
            old(self).well_formed(),
            old(self).step_fits(event),
        ensures
            final(self).well_formed(),
            passed(*old(self), event, clock, *final(self), step),
    {
        let signal = match event {
            Some(command) => self.process_key_command(command),
            None => DisplaySignal::Nothing,
        };
        if self.state.latest_command == Command::QUIT {
            return LoopStep { signal, outcome: LoopOutcome::Quit };
        }
        match clock {
            ClockReading::Elapsed(elapsed) => {
                if elapsed < self.pacing.elapsed_prev_fps_counter || elapsed
                    < self.pacing.elapsed_prev_game {
                    self.state.latest_err = String::from_str("the clock moved backward");
                } else {
                    let since_sample = elapsed - self.pacing.elapsed_prev_fps_counter;
                    if since_sample > FPS_SAMPLE_NANOS {
                        self.state.fps_last = frame_rate(self.state.fps_current, since_sample);
                        self.state.fps_current = 0;
                        self.pacing.elapsed_prev_fps_counter = elapsed;
                    } else {
                        self.state.fps_current = self.state.fps_current + 1;
                    }
                    if !self.state.is_paused && elapsed - self.pacing.elapsed_prev_game
                        > self.settings.round_duration {
                        self.next();
                        self.state.rounds = self.state.rounds + 1;
                        self.pacing.elapsed_prev_game = elapsed;
                    }
                }
            },
            ClockReading::Failed(reason) => {
                self.state.latest_err = reason;
            },
        }
        let throttle = self.state.is_fps_limited;
        let done = self.state.rounds > 0 && self.is_stable();
        LoopStep { signal, outcome: LoopOutcome::Render { throttle, done } }
    }

    /// One if the cell at column `x` of row `y` is alive, else zero.
    fn alive(&self, x: usize, y: usize) -> (count: u8)
        requires
            self.well_formed(),
            x < self.settings.x_len,
            y < self.settings.y_len,
        ensures
            count == (if self.grid()[y as int][x as int] { 1int } else { 0int }),
    {
        assert(self.grid()[y as int].len() == self.settings.x_len);
        if self.current[y][x] {
            1
        } else {
            0
        }
    }

    /// Counts the living neighbours of the cell at column `x_location` of row
    /// `y_location`. The board is a torus: the neighbour beyond an edge is the
    /// cell on the opposite edge.
    pub fn count_siblings(&self, x_location: usize, y_location: usize) -> (count: u8)
        requires
            self.well_formed(),
        ensures
            count == live_neighbours(self.grid(), x_location as int, y_location as int),
            count <= 8,
    {
        let x_len = self.settings.x_len;
        let y_len = self.settings.y_len;
        assert(self.grid()[0].len() == x_len);
        let left = wrap_index(x_location, -1, x_len);
        let centre = wrap_index(x_location, 0, x_len);
        let right = wrap_index(x_location, 1, x_len);
        let above = wrap_index(y_location, -1, y_len);
        let middle = wrap_index(y_location, 0, y_len);
        let below = wrap_index(y_location, 1, y_len);
        let mut sibling_count: u8 = 0;
        sibling_count = sibling_count + self.alive(left, above);
        sibling_count = sibling_count + self.alive(left, middle);
        sibling_count = sibling_count + self.alive(left, below);
        sibling_count = sibling_count + self.alive(centre, above);
        sibling_count = sibling_count + self.alive(centre, below);
        sibling_count = sibling_count + self.alive(right, above);
        sibling_count = sibling_count + self.alive(right, middle);
        sibling_count = sibling_count + self.alive(right, below);
        sibling_count
    }
}

} // verus!
