//! The screen controller's decisions: which terminal commands a screen
//! initialization, a redraw and a shutdown issue, and where the
//! centered line starts.
use vstd::prelude::*;
use crate::colour::Colour;
use crate::glyphs::{segmentify, spec_glyph};
use crate::timefmt::{format_time, spec_format_time, Hms, TimeFormat};

verus! {

/// One terminal command. The binary translates each to the terminal
/// driver; the library only decides which commands are issued, and in
/// what order.
#[derive(PartialEq, Eq, Debug)]
pub enum Command {
    /// Clear the whole screen.
    ClearAll,
    /// Clear only the current line.
    ClearLine,
    /// Move the cursor to this row.
    MoveToRow(u16),
    /// Move the cursor to this column.
    MoveToColumn(u16),
    /// Hide the cursor.
    HideCursor,
    /// Show the cursor again.
    ShowCursor,
    /// Set the foreground colour for subsequent text.
    SetForeground(Colour),
    /// Reset the foreground colour to the terminal default.
    ResetForeground,
    /// Write this text at the cursor.
    Print(String),
}

/// The column a centered line of `count` glyphs starts at: half the
/// width minus half the line, saturating at zero when the line is
/// wider than the terminal.
pub open spec fn spec_start_column(columns: u16, count: nat) -> u16 {
    let half_width = columns as int / 2;
    let half_line = count as int / 2;
    if half_line >= half_width {
        0
    } else {
        (half_width - half_line) as u16
    }
}

/// The commands that initialize the screen: clear everything, move to
/// the vertical center row, hide the cursor, and apply the configured
/// colour if there is one.
pub open spec fn spec_init_commands(rows: u16, colour: Option<Colour>) -> Seq<Command> {
    let base = seq![
        Command::ClearAll,
        Command::MoveToRow((rows as int / 2) as u16),
        Command::HideCursor,
    ];
    match colour {
        Some(c) => base + seq![Command::SetForeground(c)],
        None => base,
    }
}

/// The commands that restore the terminal when the loop ends: show the
/// cursor and reset the foreground colour.
pub open spec fn spec_shutdown_commands() -> Seq<Command> {
    seq![Command::ShowCursor, Command::ResetForeground]
}

/// Compute the start column of a centered line.
pub fn start_column(columns: u16, glyph_count: usize) -> (c: u16)
    ensures
        c == spec_start_column(columns, glyph_count as nat),
{
    let half_width = columns / 2;
    let half_line = glyph_count / 2;
    if half_line >= half_width as usize {
        0
    } else {
        half_width - (half_line as u16)
    }
}

/// The screen initialization command sequence.
pub fn init_commands(rows: u16, colour: Option<Colour>) -> (cmds: Vec<Command>)
    ensures
        cmds@ == spec_init_commands(rows, colour),
{
    let mut cmds: Vec<Command> = Vec::new();
    cmds.push(Command::ClearAll);
    cmds.push(Command::MoveToRow(rows / 2));
    cmds.push(Command::HideCursor);
    if let Some(c) = colour {
        cmds.push(Command::SetForeground(c));
    }
    proof {
        assert(cmds@ =~= spec_init_commands(rows, colour));
    }
    cmds
}

/// The redraw command sequence for an already-rendered line: clear the
/// current line, move to the centered start column, write the text.
pub fn render_commands(text: String, glyph_count: usize, columns: u16) -> (cmds: Vec<Command>)
    ensures
        cmds@.len() == 3,
        cmds@[0] == Command::ClearLine,
        cmds@[1] == Command::MoveToColumn(spec_start_column(columns, glyph_count as nat)),
        cmds@[2] == Command::Print(text),
{
    let column = start_column(columns, glyph_count);
    let mut cmds: Vec<Command> = Vec::new();
    cmds.push(Command::ClearLine);
    cmds.push(Command::MoveToColumn(column));
    cmds.push(Command::Print(text));
    cmds
}

/// The shutdown command sequence.
pub fn shutdown_commands() -> (cmds: Vec<Command>)
    ensures
        cmds@ == spec_shutdown_commands(),
{
    let mut cmds: Vec<Command> = Vec::new();
    cmds.push(Command::ShowCursor);
    cmds.push(Command::ResetForeground);
    proof {
        assert(cmds@ =~= spec_shutdown_commands());
    }
    cmds
}

/// One whole redraw: render the time under the given layout, encode it
/// as glyphs, and emit the redraw commands. The centering uses the
/// glyph count, which equals the formatted text's character count.
pub fn render_time(t: &Hms, f: TimeFormat, columns: u16) -> (cmds: Vec<Command>)
    requires
        t.wf(),
    ensures
        cmds@.len() == 3,
        cmds@[0] == Command::ClearLine,
        cmds@[1] == Command::MoveToColumn(
            spec_start_column(columns, spec_format_time(*t, f).len()),
        ),
        (cmds@[2] matches Command::Print(p) && p@ == spec_format_time(*t, f).map_values(
            |c: char| spec_glyph(c),
        )),
{
    let text = format_time(t, f);
    let (glyphs, count) = segmentify(text.as_str());
    render_commands(glyphs, count, columns)
}

} // verus!
