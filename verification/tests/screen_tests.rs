use seven_clock::colour::Colour;
use seven_clock::screen::{
    init_commands, render_commands, render_time, shutdown_commands, start_column, Command,
};
use seven_clock::timefmt::{Hms, TimeFormat};

#[test]
fn ten_glyphs_on_eighty_columns_start_at_thirty_five() {
    assert_eq!(start_column(80, 10), 35);
}

#[test]
fn a_line_wider_than_the_terminal_starts_at_zero() {
    assert_eq!(start_column(80, 81), 0);
    assert_eq!(start_column(0, 1), 0);
    assert_eq!(start_column(10, 10), 0);
}

#[test]
fn odd_widths_round_toward_the_left() {
    assert_eq!(start_column(81, 10), 35);
    assert_eq!(start_column(80, 11), 35);
}

#[test]
fn init_clears_centers_and_hides() {
    let cmds = init_commands(24, None);
    assert_eq!(
        cmds,
        vec![Command::ClearAll, Command::MoveToRow(12), Command::HideCursor]
    );
}

#[test]
fn init_applies_a_configured_colour_last() {
    let cmds = init_commands(25, Some(Colour::Rgb(1, 2, 3)));
    assert_eq!(
        cmds,
        vec![
            Command::ClearAll,
            Command::MoveToRow(12),
            Command::HideCursor,
            Command::SetForeground(Colour::Rgb(1, 2, 3)),
        ]
    );
}

#[test]
fn shutdown_restores_cursor_and_colour() {
    assert_eq!(
        shutdown_commands(),
        vec![Command::ShowCursor, Command::ResetForeground]
    );
}

#[test]
fn render_clears_one_line_and_writes_centered() {
    let cmds = render_commands("hi".to_string(), 2, 10);
    assert_eq!(
        cmds,
        vec![
            Command::ClearLine,
            Command::MoveToColumn(4),
            Command::Print("hi".to_string()),
        ]
    );
}

#[test]
fn a_full_redraw_centers_the_glyph_text() {
    let t = Hms { hour: 15, minute: 5, second: 0 };
    let cmds = render_time(&t, TimeFormat::TwentyFourHms, 80);
    assert_eq!(
        cmds,
        vec![
            Command::ClearLine,
            Command::MoveToColumn(36),
            Command::Print(
                "\u{1FBC1}\u{1FBC5}:\u{1FBC0}\u{1FBC5}:\u{1FBC0}\u{1FBC0}".to_string()
            ),
        ]
    );
}
