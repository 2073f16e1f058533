use nyat::config::{ColorPallete, Rgba};
use nyat::display::display_ansi_text;
use nyat::layout::{AnsiChar, Row};
use nyat::terminal::Terminal;

fn rgba(red: u8, green: u8, blue: u8, alpha: u8) -> Rgba {
    Rgba { red, green, blue, alpha }
}

#[test]
fn mod_test_base() {
    let mut terminal = Terminal::new(5, 5);

    display_ansi_text(&mut terminal, "t".to_string());

    let pallete = ColorPallete::default();

    let expected_row = Row::new(vec![
        AnsiChar::new('t', pallete.white, rgba(0, 0, 0, 1)),
        AnsiChar::default(),
        AnsiChar::default(),
        AnsiChar::default(),
        AnsiChar::default(),
    ]);

    assert_eq!(*terminal.visible_grid.row(0), expected_row);
}

#[test]
fn mod_test_csi_red() {
    let mut terminal = Terminal::new(5, 5);

    let pallete = ColorPallete::default();

    display_ansi_text(&mut terminal, "\x1b[31mt".to_string());

    let expected_row = Row::new(vec![
        AnsiChar::new('t', pallete.red, rgba(0, 0, 0, 1)),
        AnsiChar::default(),
        AnsiChar::default(),
        AnsiChar::default(),
        AnsiChar::default(),
    ]);

    assert_eq!(*terminal.visible_grid.row(0), expected_row);
}

#[test]
fn mod_test_csi_reset() {
    let mut terminal = Terminal::new(5, 5);

    let pallete = ColorPallete::default();

    display_ansi_text(&mut terminal, "\x1b[31mt\x1b[0mt".to_string());

    let expected_row = Row::new(vec![
        AnsiChar::new('t', pallete.red, rgba(0, 0, 0, 1)),
        AnsiChar::new('t', pallete.white, rgba(0, 0, 0, 1)),
        AnsiChar::default(),
        AnsiChar::default(),
        AnsiChar::default(),
    ]);

    assert_eq!(*terminal.visible_grid.row(0), expected_row);
}

#[test]
fn test_red_t_end_to_end() {
    // A 10-by-5 grid fed one red 't': cell (0,0) holds it, everything else
    // stays untouched.
    let mut terminal = Terminal::new(10, 5);

    display_ansi_text(&mut terminal, "\u{1b}[31mt".to_string());

    let pallete = ColorPallete::default();
    for row in 0..5usize {
        for col in 0..10usize {
            let cell = terminal.visible_grid.get(row, col);
            if row == 0 && col == 0 {
                assert_eq!(*cell, AnsiChar::new('t', pallete.red, rgba(0, 0, 0, 1)));
                assert_eq!(cell.foreground, rgba(1, 0, 0, 1));
            } else {
                assert_eq!(*cell, AnsiChar::default());
            }
        }
    }
}

#[test]
fn test_cursor_motion_clamps() {
    let mut terminal = Terminal::new(10, 5);
    terminal.cursor = (0, 2);

    display_ansi_text(&mut terminal, "\u{1b}[100A".to_string());
    assert_eq!(terminal.cursor.1, 0);

    display_ansi_text(&mut terminal, "\u{1b}[100B".to_string());
    assert_eq!(terminal.cursor.1, 4);

    display_ansi_text(&mut terminal, "\u{1b}[100C".to_string());
    assert_eq!(terminal.cursor.0, 9);

    display_ansi_text(&mut terminal, "\u{1b}[100D".to_string());
    assert_eq!(terminal.cursor.0, 0);
}

#[test]
fn test_cursor_pos_applies_and_clamps() {
    let mut terminal = Terminal::new(10, 5);

    display_ansi_text(&mut terminal, "\u{1b}[3;2H".to_string());
    assert_eq!(terminal.cursor, (3, 2));

    display_ansi_text(&mut terminal, "\u{1b}[99;99H".to_string());
    assert_eq!(terminal.cursor, (9, 4));
}

#[test]
fn test_newline_and_carriage_return() {
    let mut terminal = Terminal::new(4, 3);

    display_ansi_text(&mut terminal, "ab\ncd\re".to_string());

    assert_eq!(terminal.visible_grid.get(0, 0).character, 'a');
    assert_eq!(terminal.visible_grid.get(0, 1).character, 'b');
    assert_eq!(terminal.visible_grid.get(1, 0).character, 'e');
    assert_eq!(terminal.visible_grid.get(1, 1).character, 'd');
    assert_eq!(terminal.cursor, (1, 1));
}

#[test]
fn test_newline_clamps_at_last_row() {
    let mut terminal = Terminal::new(3, 2);

    display_ansi_text(&mut terminal, "\n\n\n\nx".to_string());
    assert_eq!(terminal.cursor.1, 1);
    assert_eq!(terminal.visible_grid.get(1, 0).character, 'x');
}

#[test]
fn test_wrap_at_right_edge() {
    let mut terminal = Terminal::new(2, 2);

    display_ansi_text(&mut terminal, "abc".to_string());

    assert_eq!(terminal.visible_grid.get(0, 0).character, 'a');
    assert_eq!(terminal.visible_grid.get(0, 1).character, 'b');
    assert_eq!(terminal.visible_grid.get(1, 0).character, 'c');
    assert_eq!(terminal.cursor, (1, 1));
}

#[test]
fn test_write_below_last_row_is_dropped() {
    let mut terminal = Terminal::new(2, 2);

    display_ansi_text(&mut terminal, "abcde".to_string());

    assert_eq!(terminal.visible_grid.get(1, 0).character, 'c');
    assert_eq!(terminal.visible_grid.get(1, 1).character, 'd');
    // 'e' had nowhere to go: the cursor stays past the bottom-right corner
    assert_eq!(terminal.cursor, (2, 1));
}

#[test]
fn test_title_mode_gathers_characters() {
    let mut terminal = Terminal::new(5, 5);

    display_ansi_text(&mut terminal, "\u{1b}]0;hi\u{7}x".to_string());

    assert_eq!(terminal.title, vec!['h', 'i']);
    assert_eq!(terminal.visible_grid.get(0, 0).character, 'x');
    assert_eq!(terminal.visible_grid.get(0, 1).character, ' ');
}

#[test]
fn test_show_and_hide_cursor() {
    let mut terminal = Terminal::new(5, 5);
    assert!(terminal.visible_cursor);

    display_ansi_text(&mut terminal, "\u{1b}[?25l".to_string());
    assert!(!terminal.visible_cursor);

    display_ansi_text(&mut terminal, "\u{1b}[?25h".to_string());
    assert!(terminal.visible_cursor);
}

#[test]
fn test_background_color_code() {
    let mut terminal = Terminal::new(5, 5);

    display_ansi_text(&mut terminal, "\u{1b}[44mx".to_string());

    let pallete = ColorPallete::default();
    let cell = terminal.visible_grid.get(0, 0);
    assert_eq!(cell.character, 'x');
    assert_eq!(cell.foreground, pallete.white);
    assert_eq!(cell.background, pallete.blue);
}

#[test]
fn test_unknown_sgr_code_is_ignored() {
    let mut terminal = Terminal::new(5, 5);

    display_ansi_text(&mut terminal, "\u{1b}[31m\u{1b}[99mx".to_string());

    let pallete = ColorPallete::default();
    assert_eq!(terminal.visible_grid.get(0, 0).foreground, pallete.red);
}

#[test]
fn test_drawing_state_persists_across_chunks() {
    let mut terminal = Terminal::new(5, 5);

    display_ansi_text(&mut terminal, "\u{1b}[31m".to_string());
    display_ansi_text(&mut terminal, "t".to_string());

    let pallete = ColorPallete::default();
    assert_eq!(terminal.visible_grid.get(0, 0).foreground, pallete.red);
}

#[test]
fn test_recognized_but_inert_tokens() {
    let mut terminal = Terminal::new(5, 5);

    display_ansi_text(
        &mut terminal,
        "\u{1b}[?2004h\u{1b}[?7l\u{1b}[2K\u{1b}[2J\u{1b}(B\u{8}".to_string(),
    );

    // none of these touch the grid or the cursor
    assert_eq!(terminal.cursor, (0, 0));
    for col in 0..5usize {
        assert_eq!(*terminal.visible_grid.get(0, col), AnsiChar::default());
    }
}

#[test]
fn test_sgr_red_then_reset_row() {
    // SGR 31, 't', SGR 0, 't' on a 10-by-5 grid: red 't', white 't', and
    // the rest of row 0 untouched.
    let mut terminal = Terminal::new(10, 5);

    display_ansi_text(&mut terminal, "\u{1b}[31mt\u{1b}[0mt".to_string());

    assert_eq!(
        *terminal.visible_grid.get(0, 0),
        AnsiChar::new('t', rgba(1, 0, 0, 1), rgba(0, 0, 0, 1))
    );
    assert_eq!(
        *terminal.visible_grid.get(0, 1),
        AnsiChar::new('t', rgba(1, 1, 1, 1), rgba(0, 0, 0, 1))
    );
    for col in 2..10usize {
        assert_eq!(*terminal.visible_grid.get(0, col), AnsiChar::default());
    }
}
