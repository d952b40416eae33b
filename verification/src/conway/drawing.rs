//! Drawing the board and the status panel as terminal output.

use vstd::prelude::*;
use vstd::arithmetic::mul::*;
use crate::conway::command::command_label;
use crate::conway::conways_game::{ConwaysGame, ConwaysState, DisplaySignal, Generation};
use crate::conway::print_mode::{mode_label, PrintMode};
use crate::conway::settings::ConwaysSettings;
use crate::rendering::colors::TerminalColors;
use crate::terminal::decimal::decimal;
use crate::terminal::formatter::{
    background_sequence, clear_line_output, clear_output, cursor_sequence, foreground_sequence,
    hide_cursor_sequence, line_output, reset_sequence, show_cursor_sequence, text_bytes, Terminal,
};

verus! {

/// The columns that the debug mode adds to every cell for its caption.
pub const DEBUG_WIDTH: u16 = 6;

/// The rows below the board that the status panel may cover.
pub const PANEL_ROWS: u16 = 7;

/// The colours of a cell: black on light green when alive, white on red
/// when dead.
pub open spec fn cell_colors(is_alive: bool) -> Seq<u8> {
    if is_alive {
        background_sequence(TerminalColors::LightGreen) + foreground_sequence(
            TerminalColors::Black,
        )
    } else {
        background_sequence(TerminalColors::Red) + foreground_sequence(TerminalColors::White)
    }
}

/// One blank of a cell in pretty mode, at column `x` of row `y`.
pub open spec fn pretty_pixel(x: int, y: int, is_alive: bool) -> Seq<u8> {
    cursor_sequence(x as u16, y as u16) + cell_colors(is_alive) + text_bytes(" "@)
}

/// The first `width` blanks of one row of a cell in pretty mode.
pub open spec fn pretty_span(left: int, y: int, width: int, is_alive: bool) -> Seq<u8>
    decreases width,
{
    if width <= 0 {
        Seq::empty()
    } else {
        pretty_span(left, y, width - 1, is_alive) + pretty_pixel(left + width - 1, y, is_alive)
    }
}

/// The first `height` rows of a cell in pretty mode.
pub open spec fn pretty_block(left: int, top: int, width: int, height: int, is_alive: bool) -> Seq<
    u8,
>
    decreases height,
{
    if height <= 0 {
        Seq::empty()
    } else {
        pretty_block(left, top, width, height - 1, is_alive) + pretty_span(
            left,
            top + height - 1,
            width,
            is_alive,
        )
    }
}

/// One position of a cell in debug mode. The colours are set at the start
/// of each row; the positions of the cell proper show a running number, the
/// positions of the caption a blank.
pub open spec fn debug_pixel(
    left: int,
    top: int,
    x_offset: int,
    y_offset: int,
    width: int,
    height: int,
    is_alive: bool,
) -> Seq<u8> {
    cursor_sequence((left + x_offset) as u16, (top + y_offset) as u16) + (if x_offset == 0 {
        cell_colors(is_alive)
    } else {
        Seq::empty()
    }) + (if x_offset < width {
        decimal((y_offset * height + x_offset + y_offset) as nat)
    } else {
        text_bytes(" "@)
    })
}

/// The first `count` positions of row `y_offset` of a cell in debug mode.
pub open spec fn debug_span(
    left: int,
    top: int,
    y_offset: int,
    count: int,
    width: int,
    height: int,
    is_alive: bool,
) -> Seq<u8>
    decreases count,
{
    if count <= 0 {
        Seq::empty()
    } else {
        debug_span(left, top, y_offset, count - 1, width, height, is_alive) + debug_pixel(
            left,
            top,
            count - 1,
            y_offset,
            width,
            height,
            is_alive,
        )
    }
}

/// The first `rows` rows of a cell in debug mode, caption columns included.
pub open spec fn debug_block(
    left: int,
    top: int,
    rows: int,
    width: int,
    height: int,
    is_alive: bool,
) -> Seq<u8>
    decreases rows,
{
    if rows <= 0 {
        Seq::empty()
    } else {
        debug_block(left, top, rows - 1, width, height, is_alive) + debug_span(
            left,
            top,
            rows - 1,
            width + DEBUG_WIDTH,
            width,
            height,
            is_alive,
        )
    }
}

/// The caption of a cell in debug mode: whether it is alive, and below that
/// its column and row.
pub open spec fn debug_caption(left: int, top: int, width: int, x: int, y: int, is_alive: bool) -> Seq<
    u8,
> {
    cursor_sequence((left + width) as u16, top as u16) + cell_colors(is_alive) + text_bytes(
        if is_alive {
            " true "@
        } else {
            " false"@
        },
    ) + cursor_sequence((left + width) as u16, (top + 1) as u16) + cell_colors(is_alive)
        + text_bytes(" "@) + decimal(x as nat) + text_bytes(":"@) + decimal(y as nat)
}

/// The terminal column at which the cell in column `x` begins.
pub open spec fn cell_left(settings: ConwaysSettings, x: int, mode: PrintMode) -> int {
    x * settings.cell_view_width + 1 + x + settings.origin.x + (if mode == PrintMode::DEBUG {
        x * DEBUG_WIDTH
    } else {
        0
    })
}

/// The terminal row at which the cell in row `y` begins.
pub open spec fn cell_top(settings: ConwaysSettings, y: int) -> int {
    y * settings.cell_view_height + 1 + y + settings.origin.y
}

/// Whether the cell at `(x, y)` can be drawn: every terminal coordinate and
/// every number that drawing it computes can be counted in sixteen bits.
pub open spec fn cell_fits(settings: ConwaysSettings, x: int, y: int, mode: PrintMode) -> bool {
    let left = cell_left(settings, x, mode);
    let top = cell_top(settings, y);
    let width = settings.cell_view_width as int;
    let height = settings.cell_view_height as int;
    &&& 0 <= x <= u16::MAX
    &&& 0 <= y <= u16::MAX
    &&& left <= u16::MAX
    &&& top <= u16::MAX
    &&& height > 0 ==> top + height - 1 <= u16::MAX
    &&& mode == PrintMode::PRETTY && height > 0 && width > 0 ==> left + width - 1 <= u16::MAX
    &&& mode == PrintMode::DEBUG ==> {
        &&& left + width + DEBUG_WIDTH - 1 <= u16::MAX
        &&& top + 1 <= u16::MAX
        &&& height > 0 && width > 0 ==> (height - 1) * height + (width - 1) + (height - 1)
            <= u16::MAX
    }
}

/// Whether the whole board can be drawn: its last cell can.
pub open spec fn board_fits(settings: ConwaysSettings, mode: PrintMode) -> bool {
    &&& settings.x_len > 0
    &&& settings.y_len > 0
    &&& cell_fits(settings, settings.x_len - 1, settings.y_len - 1, mode)
}

/// What drawing the cell at `(x, y)` writes.
pub open spec fn cell_output(
    settings: ConwaysSettings,
    x: int,
    y: int,
    is_alive: bool,
    mode: PrintMode,
) -> Seq<u8> {
    let left = cell_left(settings, x, mode);
    let top = cell_top(settings, y);
    let width = settings.cell_view_width as int;
    let height = settings.cell_view_height as int;
    match mode {
        PrintMode::PRETTY => pretty_block(left, top, width, height, is_alive),
        PrintMode::DEBUG => debug_block(left, top, height, width, height, is_alive)
            + debug_caption(left, top, width, x, y, is_alive),
    }
}

/// What drawing the first `count` cells of row `y` writes.
pub open spec fn row_output(
    grid: Generation,
    settings: ConwaysSettings,
    mode: PrintMode,
    y: int,
    count: int,
) -> Seq<u8>
    decreases count,
{
    if count <= 0 {
        Seq::empty()
    } else {
        row_output(grid, settings, mode, y, count - 1) + cell_output(
            settings,
            count - 1,
            y,
            grid[y][count - 1],
            mode,
        )
    }
}

/// What drawing the first `rows` rows of the board writes.
pub open spec fn board_output(
    grid: Generation,
    settings: ConwaysSettings,
    mode: PrintMode,
    rows: int,
) -> Seq<u8>
    decreases rows,
{
    if rows <= 0 {
        Seq::empty()
    } else {
        board_output(grid, settings, mode, rows - 1) + row_output(
            grid,
            settings,
            mode,
            rows - 1,
            settings.x_len as int,
        )
    }
}

/// The terminal row below the board, where the status panel begins. The
/// number of rows counts as a sixteen-bit number.
pub open spec fn panel_top(settings: ConwaysSettings) -> int {
    (settings.y_len % 0x10000) * settings.cell_view_height + 1 + (settings.y_len % 0x10000)
        + settings.origin.y
}

/// The head of the status panel: the cursor is placed at its first row and
/// the colours are set to red on white.
pub open spec fn panel_head(top: int) -> Seq<u8> {
    cursor_sequence(0, top as u16) + background_sequence(TerminalColors::White)
        + foreground_sequence(TerminalColors::Red)
}

/// The line of the status panel that tells the round.
pub open spec fn round_line(state: ConwaysState) -> Seq<u8> {
    line_output(text_bytes("Round "@) + decimal(state.rounds as nat) + text_bytes(". "@))
}

/// The line of the status panel that tells the latest command and key.
pub open spec fn command_line(state: ConwaysState) -> Seq<u8> {
    line_output(
        text_bytes("Latest Command: cmd - '"@) + text_bytes(command_label(state.latest_command))
            + text_bytes("', input - '"@) + text_bytes(seq![state.latest_input]) + text_bytes(
            "'"@,
        ),
    )
}

/// The lines of the status panel: the round, the latest command and key,
/// the number of commands, the mode, whether the game is paused, and the
/// frame rate.
pub open spec fn panel_lines(state: ConwaysState) -> Seq<u8> {
    round_line(state) + command_line(state) + line_output(
        text_bytes("Cmd count: "@) + decimal(state.command_count as nat),
    ) + line_output(text_bytes("Mode: "@) + text_bytes(mode_label(state.print_mode)))
        + line_output(
        text_bytes("Is Paused: "@) + text_bytes(
            if state.is_paused {
                "true"@
            } else {
                "false"@
            },
        ),
    ) + line_output(text_bytes("FPS Count: "@) + decimal(state.fps_last as nat))
}

/// The end of the status panel: in white on red, the latest error, if there
/// is one.
pub open spec fn panel_error(state: ConwaysState) -> Seq<u8> {
    if state.latest_err@.len() != 0 {
        background_sequence(TerminalColors::Red) + foreground_sequence(TerminalColors::White)
            + line_output(text_bytes("Error: "@) + text_bytes(state.latest_err@))
    } else {
        Seq::empty()
    }
}

/// The status panel, beginning at terminal row `top`.
pub open spec fn debug_panel(state: ConwaysState, top: int) -> Seq<u8> {
    panel_head(top) + panel_lines(state) + panel_error(state)
}

/// Clearing the terminal rows from `from` up to, not including, `to`.
pub open spec fn cleared_rows(from: int, to: int) -> Seq<u8>
    decreases to - from,
{
    if to <= from {
        Seq::empty()
    } else {
        cleared_rows(from, to - 1) + cursor_sequence(0, (to - 1) as u16) + clear_line_output()
    }
}

/// What clearing the board writes: every row above the status panel is
/// cleared, and in debug mode the rows of the panel below its first.
pub open spec fn clear_cells_output(settings: ConwaysSettings, mode: PrintMode) -> Seq<u8> {
    cleared_rows(0, panel_top(settings)) + (if mode == PrintMode::DEBUG {
        cleared_rows(panel_top(settings) + 1, panel_top(settings) + PANEL_ROWS)
    } else {
        Seq::empty()
    })
}

/// Whether the rows of the board can be cleared: the status panel's rows
/// can be counted in sixteen bits.
pub open spec fn clear_fits(settings: ConwaysSettings, mode: PrintMode) -> bool {
    &&& panel_top(settings) <= u16::MAX
    &&& mode == PrintMode::DEBUG ==> panel_top(settings) + PANEL_ROWS <= u16::MAX
}

/// What a display signal writes.
pub open spec fn signal_output(signal: DisplaySignal, settings: ConwaysSettings, mode: PrintMode) -> Seq<
    u8,
> {
    match signal {
        DisplaySignal::Nothing => Seq::empty(),
        DisplaySignal::ClearScreen => clear_output() + hide_cursor_sequence(),
        DisplaySignal::ClearCells => clear_cells_output(settings, mode),
    }
}

/// If the board can be drawn, each of its cells can.
pub proof fn cells_fit_within(settings: ConwaysSettings, x: int, y: int, mode: PrintMode)
    requires
        board_fits(settings, mode),
        0 <= x < settings.x_len,
        0 <= y < settings.y_len,
    ensures
        cell_fits(settings, x, y, mode),
{
    lemma_mul_inequality(x, settings.x_len - 1, settings.cell_view_width as int);
    lemma_mul_inequality(y, settings.y_len - 1, settings.cell_view_height as int);
    lemma_mul_nonnegative(x, settings.cell_view_width as int);
    lemma_mul_nonnegative(y, settings.cell_view_height as int);
}

/// Sets the colours of a cell.
fn set_cell_colors(out: &mut Terminal, is_alive: bool)
    ensures
        final(out).output() == old(out).output() + cell_colors(is_alive),
{
    if is_alive {
        out.set_background(TerminalColors::LightGreen);
        out.set_foreground(TerminalColors::Black);
    } else {
        out.set_background(TerminalColors::Red);
        out.set_foreground(TerminalColors::White);
    }
    assert(out.output() =~= old(out).output() + cell_colors(is_alive));
}

/// Draws one cell in pretty mode.
fn draw_pretty_cell(out: &mut Terminal, left: u16, top: u16, width: u16, height: u16, is_alive: bool)
    requires
        height > 0 ==> top + height - 1 <= u16::MAX,
        height > 0 && width > 0 ==> left + width - 1 <= u16::MAX,
    ensures
        final(out).output() == old(out).output() + pretty_block(
            left as int,
            top as int,
            width as int,
            height as int,
            is_alive,
        ),
{
    let ghost start = out.output();
    let mut y_offset: u16 = 0;
    while y_offset < height
        invariant
            y_offset <= height,
            height > 0 ==> top + height - 1 <= u16::MAX,
            height > 0 && width > 0 ==> left + width - 1 <= u16::MAX,
            out.output() == start + pretty_block(
                left as int,
                top as int,
                width as int,
                y_offset as int,
                is_alive,
            ),
        decreases height - y_offset,
    {
        let ghost row_begin = out.output();
        let mut x_offset: u16 = 0;
        while x_offset < width
            invariant
                x_offset <= width,
                y_offset < height,
                top + height - 1 <= u16::MAX,
                width > 0 ==> left + width - 1 <= u16::MAX,
                out.output() == row_begin + pretty_span(
                    left as int,
                    top + y_offset,
                    x_offset as int,
                    is_alive,
                ),
            decreases width - x_offset,
        {
            let ghost before = out.output();
            out.set_cursor_location(left + x_offset, top + y_offset);
            set_cell_colors(out, is_alive);
            out.write_str(" ");
            assert(out.output() =~= before + pretty_pixel(
                left + x_offset,
                top + y_offset,
                is_alive,
            ));
            x_offset = x_offset + 1;
            assert(out.output() =~= row_begin + pretty_span(
                left as int,
                top + y_offset,
                x_offset as int,
                is_alive,
            ));
        }
        y_offset = y_offset + 1;
        assert(out.output() =~= start + pretty_block(
            left as int,
            top as int,
            width as int,
            y_offset as int,
            is_alive,
        ));
    }
}

/// Draws the rows of one cell in debug mode.
fn draw_debug_block(out: &mut Terminal, left: u16, top: u16, width: u16, height: u16, is_alive: bool)
    requires
        width + DEBUG_WIDTH <= u16::MAX,
        left + width + DEBUG_WIDTH - 1 <= u16::MAX,
        height > 0 ==> top + height - 1 <= u16::MAX,
        height > 0 && width > 0 ==> (height - 1) * height + (width - 1) + (height - 1) <= u16::MAX,
    ensures
        final(out).output() == old(out).output() + debug_block(
            left as int,
            top as int,
            height as int,
            width as int,
            height as int,
            is_alive,
        ),
{
    let ghost start = out.output();
    let span: u16 = width + DEBUG_WIDTH;
    let mut y_offset: u16 = 0;
    while y_offset < height
        invariant
            y_offset <= height,
            span == width + DEBUG_WIDTH,
            left + width + DEBUG_WIDTH - 1 <= u16::MAX,
            height > 0 ==> top + height - 1 <= u16::MAX,
            height > 0 && width > 0 ==> (height - 1) * height + (width - 1) + (height - 1)
                <= u16::MAX,
            out.output() == start + debug_block(
                left as int,
                top as int,
                y_offset as int,
                width as int,
                height as int,
                is_alive,
            ),
        decreases height - y_offset,
    {
        let ghost row_begin = out.output();
        let mut x_offset: u16 = 0;
        while x_offset < span
            invariant
                x_offset <= span,
                span == width + DEBUG_WIDTH,
                y_offset < height,
                left + width + DEBUG_WIDTH - 1 <= u16::MAX,
                top + height - 1 <= u16::MAX,
                width > 0 ==> (height - 1) * height + (width - 1) + (height - 1) <= u16::MAX,
                out.output() == row_begin + debug_span(
                    left as int,
                    top as int,
                    y_offset as int,
                    x_offset as int,
                    width as int,
                    height as int,
                    is_alive,
                ),
            decreases span - x_offset,
        {
            let ghost before = out.output();
            out.set_cursor_location(left + x_offset, top + y_offset);
            if x_offset == 0 {
                set_cell_colors(out, is_alive);
            }
            if x_offset < width {
                proof {
                    lemma_mul_inequality(y_offset as int, height - 1, height as int);
                    lemma_mul_nonnegative(y_offset as int, height as int);
                }
                let mark: u16 = y_offset * height + x_offset + y_offset;
                out.write_number(mark as u64);
            } else {
                out.write_str(" ");
            }
            assert(out.output() =~= before + debug_pixel(
                left as int,
                top as int,
                x_offset as int,
                y_offset as int,
                width as int,
                height as int,
                is_alive,
            ));
            x_offset = x_offset + 1;
            assert(out.output() =~= row_begin + debug_span(
                left as int,
                top as int,
                y_offset as int,
                x_offset as int,
                width as int,
                height as int,
                is_alive,
            ));
        }
        y_offset = y_offset + 1;
        assert(out.output() =~= start + debug_block(
            left as int,
            top as int,
            y_offset as int,
            width as int,
            height as int,
            is_alive,
        ));
    }
}

/// Draws the caption of one cell in debug mode.
fn draw_debug_caption(
    out: &mut Terminal,
    left: u16,
    top: u16,
    width: u16,
    x: u16,
    y: u16,
    is_alive: bool,
)
    requires
        left + width <= u16::MAX,
        top + 1 <= u16::MAX,
    ensures
        final(out).output() == old(out).output() + debug_caption(
            left as int,
            top as int,
            width as int,
            x as int,
            y as int,
            is_alive,
        ),
{
    out.set_cursor_location(left + width, top);
    set_cell_colors(out, is_alive);
    if is_alive {
        out.write_str(" true ");
    } else {
        out.write_str(" false");
    }
    out.set_cursor_location(left + width, top + 1);
    set_cell_colors(out, is_alive);
    out.write_str(" ");
    out.write_number(x as u64);
    out.write_str(":");
    out.write_number(y as u64);
    assert(out.output() =~= old(out).output() + debug_caption(
        left as int,
        top as int,
        width as int,
        x as int,
        y as int,
        is_alive,
    ));
}

/// Writes a line that holds a label and a number.
fn write_number_line(out: &mut Terminal, label: &str, number: u64)
    ensures
        final(out).output() == old(out).output() + line_output(
            text_bytes(label@) + decimal(number as nat),
        ),
{
    out.start_line();
    out.write_str(label);
    out.write_number(number);
    out.end_line();
    assert(out.output() =~= old(out).output() + line_output(
        text_bytes(label@) + decimal(number as nat),
    ));
}

/// Writes a line that holds a label and a text.
fn write_text_line(out: &mut Terminal, label: &str, text: &str)
    ensures
        final(out).output() == old(out).output() + line_output(
            text_bytes(label@) + text_bytes(text@),
        ),
{
    out.start_line();
    out.write_str(label);
    out.write_str(text);
    out.end_line();
    assert(out.output() =~= old(out).output() + line_output(
        text_bytes(label@) + text_bytes(text@),
    ));
}

/// Places the cursor at the status panel and sets its colours.
fn write_panel_head(out: &mut Terminal, x_start: u16, y_start: u16)
    requires
        x_start == 0,
    ensures
        final(out).output() == old(out).output() + panel_head(y_start as int),
{
    out.set_cursor_location(x_start, y_start);
    out.set_background(TerminalColors::White);
    out.set_foreground(TerminalColors::Red);
    assert(out.output() =~= old(out).output() + panel_head(y_start as int));
}

/// Writes the line that tells the round.
fn write_round_line(out: &mut Terminal, state: &ConwaysState)
    ensures
        final(out).output() == old(out).output() + round_line(*state),
{
    out.start_line();
    out.write_str("Round ");
    out.write_number(state.rounds);
    out.write_str(". ");
    out.end_line();
    assert(out.output() =~= old(out).output() + round_line(*state));
}

/// Writes the line that tells the latest command and key.
fn write_command_line(out: &mut Terminal, state: &ConwaysState)
    ensures
        final(out).output() == old(out).output() + command_line(*state),
{
    out.start_line();
    out.write_str("Latest Command: cmd - '");
    out.write_str(state.latest_command.label());
    out.write_str("', input - '");
    out.write_char(state.latest_input);
    out.write_str("'");
    out.end_line();
    assert(out.output() =~= old(out).output() + command_line(*state));
}

/// Writes the lines of the status panel.
fn write_panel_lines(out: &mut Terminal, state: &ConwaysState)
    ensures
        final(out).output() == old(out).output() + panel_lines(*state),
{
    write_round_line(out, state);
    write_command_line(out, state);
    write_number_line(out, "Cmd count: ", state.command_count);
    write_text_line(out, "Mode: ", state.print_mode.label());
    if state.is_paused {
        write_text_line(out, "Is Paused: ", "true");
    } else {
        write_text_line(out, "Is Paused: ", "false");
    }
    write_number_line(out, "FPS Count: ", state.fps_last);
    assert(out.output() =~= old(out).output() + panel_lines(*state));
}

/// Writes the latest error, if there is one.
fn write_panel_error(out: &mut Terminal, state: &ConwaysState)
    ensures
        final(out).output() == old(out).output() + panel_error(*state),
{
    if !state.latest_err.as_str().is_empty() {
        out.set_background(TerminalColors::Red);
        out.set_foreground(TerminalColors::White);
        write_text_line(out, "Error: ", state.latest_err.as_str());
    }
    assert(out.output() =~= old(out).output() + panel_error(*state));
}

/// The terminal row at which the status panel begins, if it can be counted
/// in sixteen bits.
fn panel_row(settings: &ConwaysSettings) -> (top: Option<u16>)
    ensures
        panel_top(*settings) <= u16::MAX ==> top == Some(panel_top(*settings) as u16),
        panel_top(*settings) > u16::MAX ==> top is None,
{
    let rows: u64 = (settings.y_len % 0x10000) as u64;
    let height: u64 = settings.cell_view_height as u64;
    assert(rows * height <= 0xffff * 0xffff) by (nonlinear_arith)
        requires
            0 <= rows <= 0xffff,
            0 <= height <= 0xffff,
    ;
    let top: u64 = rows * height + 1 + rows + settings.origin.y as u64;
    if top <= 0xffff {
        Some(top as u16)
    } else {
        None
    }
}

/// Tests `board_fits`.
fn can_draw_board(settings: &ConwaysSettings, mode: PrintMode) -> (fits: bool)
    ensures
        fits == board_fits(*settings, mode),
{
    if settings.x_len == 0 || settings.y_len == 0 {
        return false;
    }
    if settings.x_len - 1 > 0xffff || settings.y_len - 1 > 0xffff {
        return false;
    }
    let x: u64 = (settings.x_len - 1) as u64;
    let y: u64 = (settings.y_len - 1) as u64;
    let width: u64 = settings.cell_view_width as u64;
    let height: u64 = settings.cell_view_height as u64;
    assert(x * width <= 0xffff * 0xffff) by (nonlinear_arith)
        requires
            0 <= x <= 0xffff,
            0 <= width <= 0xffff,
    ;
    assert(y * height <= 0xffff * 0xffff) by (nonlinear_arith)
        requires
            0 <= y <= 0xffff,
            0 <= height <= 0xffff,
    ;
    assert(height * height <= 0xffff * 0xffff) by (nonlinear_arith)
        requires
            0 <= height <= 0xffff,
    ;
    let limit: u64 = 0xffff;
    let top: u64 = y * height + 1 + y + settings.origin.y as u64;
    if top > limit {
        return false;
    }
    if height > 0 && top + height - 1 > limit {
        return false;
    }
    match mode {
        PrintMode::PRETTY => {
            let left: u64 = x * width + 1 + x + settings.origin.x as u64;
            if left > limit {
                return false;
            }
            if height > 0 && width > 0 && left + width - 1 > limit {
                return false;
            }
            true
        },
        PrintMode::DEBUG => {
            let left: u64 = x * width + 1 + x + settings.origin.x as u64 + x * 6;
            if left > limit {
                return false;
            }
            if left + width + 6 - 1 > limit {
                return false;
            }
            if top + 1 > limit {
                return false;
            }
            if height > 0 && width > 0 {
                assert((height - 1) * height <= height * height) by (nonlinear_arith)
                    requires
                        height > 0,
                ;
                if (height - 1) * height + (width - 1) + (height - 1) > limit {
                    return false;
                }
            }
            true
        },
    }
}

impl ConwaysGame {
    /// Whether what `print` draws in `mode` can be drawn: the board fits,
    /// and so does the status panel if the game shows it.
    pub open spec fn frame_fits(&self, mode: PrintMode) -> bool {
        &&& board_fits(self.settings, mode)
        &&& self.state.print_mode == PrintMode::DEBUG ==> panel_top(self.settings) <= u16::MAX
    }

    /// What `print` writes in `mode`: the board, cell by cell and row by
    /// row, and below it the status panel if the game is in debug mode.
    pub open spec fn frame_output(&self, mode: PrintMode) -> Seq<u8> {
        board_output(self.grid(), self.settings, mode, self.settings.y_len as int) + (
        if self.state.print_mode == PrintMode::DEBUG {
            debug_panel(self.state, panel_top(self.settings))
        } else {
            Seq::empty()
        })
    }

    /// Tests `frame_fits`.
    pub fn can_print(&self, mode: PrintMode) -> (fits: bool)
        ensures
            fits == self.frame_fits(mode),
    {
        if !can_draw_board(&self.settings, mode) {
            return false;
        }
        match self.state.print_mode {
            PrintMode::DEBUG => panel_row(&self.settings).is_some(),
            PrintMode::PRETTY => true,
        }
    }

    /// Tests whether `clear_cells` can run.
    pub fn can_clear(&self) -> (fits: bool)
        ensures
            fits == clear_fits(self.settings, self.state.print_mode),
    {
        match panel_row(&self.settings) {
            Some(top) => match self.state.print_mode {
                PrintMode::DEBUG => top <= u16::MAX - PANEL_ROWS,
                PrintMode::PRETTY => true,
            },
            None => false,
        }
    }

    /// Draws one cell. In pretty mode the cell is a block of blanks in the
    /// cell's colours. In debug mode every position of the cell shows a
    /// running number, and a caption beside it tells whether the cell is
    /// alive and where on the board it lies.
    pub fn print_cell(&mut self, x: u16, y: u16, is_alive: bool, print_mode: PrintMode)
        requires
            cell_fits(old(self).settings, x as int, y as int, print_mode),
        ensures
            final(self).out.output() == old(self).out.output() + cell_output(
                old(self).settings,
                x as int,
                y as int,
                is_alive,
                print_mode,
            ),
            final(self).current == old(self).current,
            final(self).previous == old(self).previous,
            final(self).state == old(self).state,
            final(self).settings == old(self).settings,
            final(self).pacing == old(self).pacing,
    {
        let debug_width: u16 = DEBUG_WIDTH;
        let width = self.settings.cell_view_width;
        let height = self.settings.cell_view_height;
        proof {
            lemma_mul_nonnegative(x as int, width as int);
            lemma_mul_nonnegative(y as int, height as int);
        }
        let mut x_start: u16 = x * width + 1 + x + self.settings.origin.x;
        let y_start: u16 = (y * height) + 1 + y + self.settings.origin.y;
        match print_mode {
            PrintMode::PRETTY => {
                draw_pretty_cell(&mut self.out, x_start, y_start, width, height, is_alive);
            },
            PrintMode::DEBUG => {
                x_start = x_start + x * debug_width;
                let ghost start = self.out.output();
                draw_debug_block(&mut self.out, x_start, y_start, width, height, is_alive);
                draw_debug_caption(&mut self.out, x_start, y_start, width, x, y, is_alive);
                assert(self.out.output() =~= start + cell_output(
                    old(self).settings,
                    x as int,
                    y as int,
                    is_alive,
                    print_mode,
                ));
            },
        }
        self.out.flush();
    }

    /// Draws the status panel below the board.
    pub fn debug(&mut self)
        requires
            panel_top(old(self).settings) <= u16::MAX,
        ensures
            final(self).out.output() == old(self).out.output() + debug_panel(
                old(self).state,
                panel_top(old(self).settings),
            ),
            final(self).current == old(self).current,
            final(self).previous == old(self).previous,
            final(self).state == old(self).state,
            final(self).settings == old(self).settings,
            final(self).pacing == old(self).pacing,
    {
        let rows: u16 = (self.settings.y_len % 0x10000) as u16;
        proof {
            lemma_mul_nonnegative(rows as int, self.settings.cell_view_height as int);
        }
        let x_start: u16 = 0;
        let y_start: u16 = (rows * self.settings.cell_view_height) + 1 + rows
            + self.settings.origin.y;
        let ghost start = self.out.output();
        write_panel_head(&mut self.out, x_start, y_start);
        write_panel_lines(&mut self.out, &self.state);
        write_panel_error(&mut self.out, &self.state);
        assert(self.out.output() =~= start + debug_panel(
            old(self).state,
            panel_top(old(self).settings),
        ));
    }

    /// Draws the whole board in `print_mode`, and below it the status panel
    /// if the game itself is in debug mode.
    pub fn print(&mut self, print_mode: PrintMode)
        requires
            old(self).well_formed(),
            old(self).frame_fits(print_mode),
        ensures
            final(self).out.output() == old(self).out.output() + old(self).frame_output(
                print_mode,
            ),
            final(self).current == old(self).current,
            final(self).previous == old(self).previous,
            final(self).state == old(self).state,
            final(self).settings == old(self).settings,
            final(self).pacing == old(self).pacing,
    {
        self.out.lock();
        let ghost start = self.out.output();
        let ghost grid = self.grid();
        let ghost settings = self.settings;
        let x_len = self.settings.x_len;
        let y_len = self.settings.y_len;
        let mut y: usize = 0;
        while y < y_len
            invariant
                y <= y_len,
                self.well_formed(),
                board_fits(settings, print_mode),
                self.current == old(self).current,
                self.previous == old(self).previous,
                self.state == old(self).state,
                self.settings == old(self).settings,
                self.pacing == old(self).pacing,
                settings == self.settings,
                grid == self.grid(),
                x_len == settings.x_len,
                y_len == settings.y_len,
                self.out.output() == start + board_output(grid, settings, print_mode, y as int),
            decreases y_len - y,
        {
            let ghost row_begin = self.out.output();
            let mut x: usize = 0;
            while x < x_len
                invariant
                    x <= x_len,
                    y < y_len,
                    self.well_formed(),
                    board_fits(settings, print_mode),
                    self.current == old(self).current,
                    self.previous == old(self).previous,
                    self.state == old(self).state,
                    self.settings == old(self).settings,
                    self.pacing == old(self).pacing,
                    settings == self.settings,
                    grid == self.grid(),
                    x_len == settings.x_len,
                    y_len == settings.y_len,
                    self.out.output() == row_begin + row_output(
                        grid,
                        settings,
                        print_mode,
                        y as int,
                        x as int,
                    ),
                decreases x_len - x,
            {
                proof {
                    cells_fit_within(settings, x as int, y as int, print_mode);
                    assert(grid[y as int].len() == x_len);
                }
                let is_alive = self.current[y][x];
                self.print_cell(x as u16, y as u16, is_alive, print_mode);
                x = x + 1;
                assert(self.out.output() =~= row_begin + row_output(
                    grid,
                    settings,
                    print_mode,
                    y as int,
                    x as int,
                ));
            }
            y = y + 1;
            assert(self.out.output() =~= start + board_output(grid, settings, print_mode, y as int));
        }
        if self.state.print_mode == PrintMode::DEBUG {
            self.debug();
        }
        assert(self.out.output() =~= start + old(self).frame_output(print_mode));
    }

    /// Clears the terminal rows that the board covers, and in debug mode
    /// the rows of the status panel as well.
    pub fn clear_cells(&mut self)
        requires
            clear_fits(old(self).settings, old(self).state.print_mode),
        ensures
            final(self).out.output() == old(self).out.output() + clear_cells_output(
                old(self).settings,
                old(self).state.print_mode,
            ),
            final(self).current == old(self).current,
            final(self).previous == old(self).previous,
            final(self).state == old(self).state,
            final(self).settings == old(self).settings,
            final(self).pacing == old(self).pacing,
    {
        let rows: u16 = (self.settings.y_len % 0x10000) as u16;
        proof {
            lemma_mul_nonnegative(rows as int, self.settings.cell_view_height as int);
        }
        let total_height: u16 = (rows * self.settings.cell_view_height) + 1 + rows
            + self.settings.origin.y;
        let ghost start = self.out.output();
        let mut y_loc: u16 = 0;
        while y_loc < total_height
            invariant
                y_loc <= total_height,
                self.current == old(self).current,
                self.previous == old(self).previous,
                self.state == old(self).state,
                self.settings == old(self).settings,
                self.pacing == old(self).pacing,
                self.out.output() == start + cleared_rows(0, y_loc as int),
            decreases total_height - y_loc,
        {
            self.out.set_cursor_location(0, y_loc);
            self.out.clear_line();
            y_loc = y_loc + 1;
            assert(self.out.output() =~= start + cleared_rows(0, y_loc as int));
        }
        if self.state.print_mode == PrintMode::DEBUG {
            let ghost middle = self.out.output();
            let first: u16 = total_height + 1;
            let last: u16 = total_height + PANEL_ROWS;
            let mut y_loc: u16 = first;
            while y_loc < last
                invariant
                    first <= y_loc <= last,
                    self.current == old(self).current,
                    self.previous == old(self).previous,
                    self.state == old(self).state,
                    self.settings == old(self).settings,
                    self.pacing == old(self).pacing,
                    self.out.output() == middle + cleared_rows(first as int, y_loc as int),
                decreases last - y_loc,
            {
                self.out.set_cursor_location(0, y_loc);
                self.out.clear_line();
                y_loc = y_loc + 1;
                assert(self.out.output() =~= middle + cleared_rows(first as int, y_loc as int));
            }
        }
        assert(self.out.output() =~= start + clear_cells_output(
            old(self).settings,
            old(self).state.print_mode,
        ));
    }

    /// Does on the display what a processed key asked for.
    pub fn signal_display(&mut self, signal: DisplaySignal)
        requires
            signal == DisplaySignal::ClearCells ==> clear_fits(
                old(self).settings,
                old(self).state.print_mode,
            ),
        ensures
            final(self).out.output() == old(self).out.output() + signal_output(
                signal,
                old(self).settings,
                old(self).state.print_mode,
            ),
            final(self).current == old(self).current,
            final(self).previous == old(self).previous,
            final(self).state == old(self).state,
            final(self).settings == old(self).settings,
            final(self).pacing == old(self).pacing,
    {
        match signal {
            DisplaySignal::Nothing => {
                assert(self.out.output() =~= old(self).out.output() + Seq::<u8>::empty());
            },
            DisplaySignal::ClearScreen => {
                self.out.clear();
                self.out.hide_cursor();
                assert(self.out.output() =~= old(self).out.output() + (clear_output()
                    + hide_cursor_sequence()));
            },
            DisplaySignal::ClearCells => {
                self.clear_cells();
            },
        }
    }

    /// Prepares the terminal for a run: clears the screen and hides the
    /// cursor.
    pub fn open_screen(&mut self)
        ensures
            final(self).out.output() == old(self).out.output() + clear_output()
                + hide_cursor_sequence(),
            final(self).current == old(self).current,
            final(self).previous == old(self).previous,
            final(self).state == old(self).state,
            final(self).settings == old(self).settings,
            final(self).pacing == old(self).pacing,
    {
        self.out.lock();
        self.out.clear();
        self.out.hide_cursor();
    }

    /// Leaves the terminal as a run found it: shows the cursor and resets
    /// the colours.
    pub fn close_screen(&mut self)
        ensures
            final(self).out.output() == old(self).out.output() + show_cursor_sequence()
                + reset_sequence(),
            final(self).current == old(self).current,
            final(self).previous == old(self).previous,
            final(self).state == old(self).state,
            final(self).settings == old(self).settings,
            final(self).pacing == old(self).pacing,
    {
        self.out.lock();
        self.out.show_cursor();
        self.out.reset_colors();
    }

    /// Hands out everything drawn since the last call, for the caller to
    /// carry to the screen.
    pub fn take_output(&mut self) -> (bytes: Vec<u8>)
        ensures
            bytes@ == old(self).out.output(),
            final(self).out.output() == Seq::<u8>::empty(),
            final(self).current == old(self).current,
            final(self).previous == old(self).previous,
            final(self).state == old(self).state,
            final(self).settings == old(self).settings,
            final(self).pacing == old(self).pacing,
    {
        self.out.writer.take()
    }
}

} // verus!
