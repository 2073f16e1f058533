use nyat::display::enums::{AnsiSequence, CharSet};
use nyat::display::parsers::{
    autowrap_off, autowrap_on, combined, cursor_backward, cursor_down, cursor_forward, cursor_pos,
    cursor_up, erase_in_display, erase_in_line, escape, graphics_mode, parse, parse_back,
    parse_bel, parse_char, parse_escape, parse_number_or_default, set_bracketed_paste_mode_off,
    set_bracketed_paste_mode_on, set_char_set, set_title_mode, show_cursor, hide_cursor,
};

fn cv(s: &str) -> Vec<char> {
    s.chars().collect()
}

#[test]
pub fn test_escape() {
    assert_eq!(escape(&cv("\u{1b}"), 0), Some((1, AnsiSequence::Escape)));
}

#[test]
pub fn test_cursor_pos() {
    assert_eq!(cursor_pos(&cv("[5;5H"), 0), Some((5, AnsiSequence::CursorPos(5, 5))));
    assert_eq!(cursor_pos(&cv("[;5f"), 0), Some((4, AnsiSequence::CursorPos(1, 5))));
    assert_eq!(cursor_pos(&cv("[5;H"), 0), Some((4, AnsiSequence::CursorPos(5, 1))));
}

#[test]
pub fn test_cursor_up() {
    assert_eq!(cursor_up(&cv("[2A"), 0), Some((3, AnsiSequence::CursorUp(2))));
}

#[test]
pub fn test_cursor_down() {
    assert_eq!(cursor_down(&cv("[2B"), 0), Some((3, AnsiSequence::CursorDown(2))));
}

#[test]
pub fn test_cursor_backward() {
    assert_eq!(cursor_backward(&cv("[2D"), 0), Some((3, AnsiSequence::CursorBackward(2))));
}

#[test]
pub fn test_cursor_forward() {
    assert_eq!(cursor_forward(&cv("[2C"), 0), Some((3, AnsiSequence::CursorForward(2))));
}

#[test]
pub fn test_graphics_mode() {
    assert_eq!(graphics_mode(&cv("[m"), 0), Some((2, AnsiSequence::SetGraphicsMode(vec![]))));
    assert_eq!(graphics_mode(&cv("[1m"), 0), Some((3, AnsiSequence::SetGraphicsMode(vec![1]))));
    assert_eq!(
        graphics_mode(&cv("[1;2m"), 0),
        Some((5, AnsiSequence::SetGraphicsMode(vec![1, 2])))
    );
    assert_eq!(
        graphics_mode(&cv("[1;2;3m"), 0),
        Some((7, AnsiSequence::SetGraphicsMode(vec![1, 2, 3])))
    );
    assert_eq!(
        graphics_mode(&cv("[1;2;3;4m"), 0),
        Some((9, AnsiSequence::SetGraphicsMode(vec![1, 2, 3, 4])))
    );
    assert_eq!(
        graphics_mode(&cv("[1;2;3;4;5m"), 0),
        Some((11, AnsiSequence::SetGraphicsMode(vec![1, 2, 3, 4, 5])))
    );
    assert_eq!(graphics_mode(&cv("[1;2;3;4;5;6m"), 0), None);
}

#[test]
fn test_title_mode() {
    assert_eq!(set_title_mode(&cv("]0;"), 0), Some((3, AnsiSequence::SetTitleMode)));
}

#[test]
fn test_bell() {
    assert_eq!(parse_bel(&cv("\u{7}"), 0), Some((1, AnsiSequence::Bell)));
}

#[test]
fn test_bracketed_paste_mode() {
    assert_eq!(
        set_bracketed_paste_mode_on(&cv("[?2004h"), 0),
        Some((7, AnsiSequence::SetBracketedPasteMode(true)))
    );

    assert_eq!(
        set_bracketed_paste_mode_off(&cv("[?2004l"), 0),
        Some((7, AnsiSequence::SetBracketedPasteMode(false)))
    );
}

#[test]
fn test_parse_escape() {
    assert_eq!(parse_escape(&cv("\u{1b}\u{1b}"), 0), Some((2, AnsiSequence::Escape)));
    assert_eq!(parse_escape(&cv("\u{1b}[C"), 0), Some((3, AnsiSequence::CursorForward(1))));
}

#[test]
fn test_char() {
    assert_eq!(parse_char(&cv("a"), 0), Some((1, AnsiSequence::Character('a'))));
}

#[test]
fn test_parse() {
    assert_eq!(
        parse("\u{1b}[1;1mt"),
        vec![AnsiSequence::SetGraphicsMode(vec![1, 1]), AnsiSequence::Character('t')]
    );
}

#[test]
fn test_parse_back() {
    assert_eq!(parse_back(&cv("\u{8}"), 0), Some((1, AnsiSequence::Back)));
}

#[test]
fn test_show_hide_cursor() {
    assert_eq!(show_cursor(&cv("[?25h"), 0), Some((5, AnsiSequence::ShowCursor)));
    assert_eq!(hide_cursor(&cv("[?25l"), 0), Some((5, AnsiSequence::HideCursor)));
}

#[test]
fn test_autowrap() {
    assert_eq!(autowrap_on(&cv("[?7h"), 0), Some((4, AnsiSequence::AutoWrap(true))));
    assert_eq!(autowrap_off(&cv("[?7l"), 0), Some((4, AnsiSequence::AutoWrap(false))));
}

#[test]
fn test_char_set() {
    assert_eq!(
        set_char_set(&cv("(B"), 0),
        Some((2, AnsiSequence::SetCharSet(CharSet::ASCII)))
    );
}

#[test]
fn test_erase_in_line_range() {
    assert_eq!(erase_in_line(&cv("[K"), 0), Some((2, AnsiSequence::EraseInLine(0))));
    assert_eq!(erase_in_line(&cv("[0K"), 0), Some((3, AnsiSequence::EraseInLine(0))));
    assert_eq!(erase_in_line(&cv("[1K"), 0), Some((3, AnsiSequence::EraseInLine(1))));
    assert_eq!(erase_in_line(&cv("[2K"), 0), Some((3, AnsiSequence::EraseInLine(2))));
    assert_eq!(erase_in_line(&cv("[3K"), 0), Some((3, AnsiSequence::EraseInLine(3))));
    assert_eq!(erase_in_line(&cv("[4K"), 0), None);
}

#[test]
fn test_erase_in_display_range() {
    assert_eq!(erase_in_display(&cv("[J"), 0), Some((2, AnsiSequence::EraseInDisplay(0))));
    assert_eq!(erase_in_display(&cv("[0J"), 0), Some((3, AnsiSequence::EraseInDisplay(0))));
    assert_eq!(erase_in_display(&cv("[1J"), 0), Some((3, AnsiSequence::EraseInDisplay(1))));
    assert_eq!(erase_in_display(&cv("[2J"), 0), Some((3, AnsiSequence::EraseInDisplay(2))));
    assert_eq!(erase_in_display(&cv("[3J"), 0), Some((3, AnsiSequence::EraseInDisplay(3))));
    assert_eq!(erase_in_display(&cv("[4J"), 0), None);
}

#[test]
fn test_plain_text_tokenizes_per_character() {
    let toks = parse("hello");
    assert_eq!(
        toks,
        vec![
            AnsiSequence::Character('h'),
            AnsiSequence::Character('e'),
            AnsiSequence::Character('l'),
            AnsiSequence::Character('l'),
            AnsiSequence::Character('o'),
        ]
    );
}

#[test]
fn test_sixth_parameter_degrades_to_characters() {
    // The whole sequence fails to parse as a graphics mode, so the escape
    // byte becomes a literal and the rest is scanned one byte at a time.
    let toks = parse("\u{1b}[1;2;3;4;5;6m");
    let mut expected = vec![AnsiSequence::Character('\u{1b}')];
    for c in "[1;2;3;4;5;6m".chars() {
        expected.push(AnsiSequence::Character(c));
    }
    assert_eq!(toks, expected);
}

#[test]
fn test_lone_trailing_escape_is_a_character() {
    assert_eq!(parse("\u{1b}"), vec![AnsiSequence::Character('\u{1b}')]);
}

#[test]
fn test_combined_priority() {
    // "[5H" is taken by the cursor-position alternative before anything else.
    assert_eq!(combined(&cv("[5H"), 0), Some((3, AnsiSequence::CursorPos(5, 1))));
    // an oversized graphics parameter consumes its digits and leaves the list
    assert_eq!(
        graphics_mode(&cv("[256m"), 0),
        Some((5, AnsiSequence::SetGraphicsMode(vec![])))
    );
}

#[test]
fn test_parse_number_or_default() {
    assert_eq!(parse_number_or_default("", 7), 7);
    assert_eq!(parse_number_or_default("42", 0), 42);
    assert_eq!(parse_number_or_default("+17", 0), 17);
    assert_eq!(parse_number_or_default("abc", 3), 3);
    assert_eq!(parse_number_or_default("12a", 3), 3);
    assert_eq!(parse_number_or_default("4294967295", 0), 4294967295);
    assert_eq!(parse_number_or_default("4294967296", 9), 9);
}

#[test]
fn test_oversized_cursor_parameter_defaults() {
    // a parameter too large for u32 falls back to the default of 1
    assert_eq!(
        cursor_up(&cv("[99999999999A"), 0),
        Some((13, AnsiSequence::CursorUp(1)))
    );
}
