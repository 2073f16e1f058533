//! The escape-sequence protocol: its tokens, its grammar, and the
//! interpreter that applies a token stream to a terminal.

pub mod enums;
pub mod parsers;

use vstd::prelude::*;

use crate::config::{ColorPallete, Rgba};
use crate::layout::AnsiChar;
use crate::terminal::{Terminal, TerminalView};
use enums::{AnsiSequence, AnsiToken};
use parsers::{spec_parse, toks_of};

verus! {

/// What the interpreter does with literal characters: print them to the
/// grid, or gather them into the window title.
#[derive(Clone, Copy, Debug, PartialEq, Eq, Structural)]
pub enum AnsiMode {
    Print,
    Title,
}

/// The drawing state: the colors the next cell is written with, the
/// print/title mode, and the palette that SGR codes select from.
#[derive(Clone, Copy, Debug, PartialEq, Eq, Structural)]
pub struct Setting {
    pub color: Rgba,
    pub bg_color: Rgba,
    pub mode: AnsiMode,
    pub pallete: ColorPallete,
}

impl Setting {
    /// The drawing state a terminal starts in: white on black, printing.
    pub open spec fn initial() -> Setting {
        Setting {
            color: ColorPallete::standard().white,
            bg_color: ColorPallete::standard().black,
            mode: AnsiMode::Print,
            pallete: ColorPallete::standard(),
        }
    }

    /// The SGR code table. 0 resets the foreground to white, 30 through 37
    /// select a foreground color, 40 through 47 the matching background
    /// color, and every other code changes nothing.
    pub open spec fn spec_sgr_code(self, code: u8) -> Setting {
        if code == 0 {
            Setting { color: self.pallete.white, ..self }
        } else if code == 30 {
            Setting { color: self.pallete.black, ..self }
        } else if code == 31 {
            Setting { color: self.pallete.red, ..self }
        } else if code == 32 {
            Setting { color: self.pallete.green, ..self }
        } else if code == 33 {
            Setting { color: self.pallete.yellow, ..self }
        } else if code == 34 {
            Setting { color: self.pallete.blue, ..self }
        } else if code == 35 {
            Setting { color: self.pallete.magenta, ..self }
        } else if code == 36 {
            Setting { color: self.pallete.cyan, ..self }
        } else if code == 37 {
            Setting { color: self.pallete.white, ..self }
        } else if code == 40 {
            Setting { bg_color: self.pallete.black, ..self }
        } else if code == 41 {
            Setting { bg_color: self.pallete.red, ..self }
        } else if code == 42 {
            Setting { bg_color: self.pallete.green, ..self }
        } else if code == 43 {
            Setting { bg_color: self.pallete.yellow, ..self }
        } else if code == 44 {
            Setting { bg_color: self.pallete.blue, ..self }
        } else if code == 45 {
            Setting { bg_color: self.pallete.magenta, ..self }
        } else if code == 46 {
            Setting { bg_color: self.pallete.cyan, ..self }
        } else if code == 47 {
            Setting { bg_color: self.pallete.white, ..self }
        } else {
            self
        }
    }

    /// The SGR code table applied to a whole parameter list, left to right.
    pub open spec fn spec_sgr_fold(self, codes: Seq<u8>) -> Setting
        decreases codes.len(),
    {
        if codes.len() == 0 {
            self
        } else {
            self.spec_sgr_code(codes[0]).spec_sgr_fold(codes.drop_first())
        }
    }

    /// One graphics-mode token: an empty parameter list resets the
    /// foreground to white, a non-empty one applies the code table to each
    /// parameter in turn.
    pub open spec fn spec_graphics(self, codes: Seq<u8>) -> Setting {
        if codes.len() == 0 {
            Setting { color: self.pallete.white, ..self }
        } else {
            self.spec_sgr_fold(codes)
        }
    }

    fn set_graphics_mode_code(&mut self, code: u8)
        ensures
            *final(self) == old(self).spec_sgr_code(code),
    {
        match code {
            0 => self.color = self.pallete.white,
            30 => self.color = self.pallete.black,
            31 => self.color = self.pallete.red,
            32 => self.color = self.pallete.green,
            33 => self.color = self.pallete.yellow,
            34 => self.color = self.pallete.blue,
            35 => self.color = self.pallete.magenta,
            36 => self.color = self.pallete.cyan,
            37 => self.color = self.pallete.white,
            40 => self.bg_color = self.pallete.black,
            41 => self.bg_color = self.pallete.red,
            42 => self.bg_color = self.pallete.green,
            43 => self.bg_color = self.pallete.yellow,
            44 => self.bg_color = self.pallete.blue,
            45 => self.bg_color = self.pallete.magenta,
            46 => self.bg_color = self.pallete.cyan,
            47 => self.bg_color = self.pallete.white,
            _ => {},
        }
    }

    /// Apply one graphics-mode parameter list.
    pub fn set_graphics_mode(&mut self, code: Vec<u8>)
        ensures
            *final(self) == old(self).spec_graphics(code@),
    {
        if code.len() == 0 {
            self.color = self.pallete.white;
        } else {
            proof {
                assert(code@.skip(0) =~= code@);
            }
            let mut i: usize = 0;
            while i < code.len()
                invariant
                    i <= code@.len(),
                    old(self).spec_sgr_fold(code@) == self.spec_sgr_fold(
                        code@.skip(i as int),
                    ),
                decreases code@.len() - i,
            {
                proof {
                    assert(code@.skip(i as int).drop_first() =~= code@.skip(i + 1));
                    assert(code@.skip(i as int)[0] == code@[i as int]);
                }
                self.set_graphics_mode_code(code[i]);
                i = i + 1;
            }
            proof {
                assert(code@.skip(code@.len() as int) =~= Seq::<u8>::empty());
            }
        }
    }
}

impl Default for Setting {
    fn default() -> (r: Self)
        ensures
            r == Setting::initial(),
    {
        Setting {
            color: Rgba { red: 1, green: 1, blue: 1, alpha: 1 },
            bg_color: Rgba { red: 0, green: 0, blue: 0, alpha: 1 },
            mode: AnsiMode::Print,
            pallete: ColorPallete::default(),
        }
    }
}

/// The grid with one cell replaced.
pub open spec fn spec_grid_put(
    g: Seq<Seq<AnsiChar>>,
    r: int,
    c: int,
    cell: AnsiChar,
) -> Seq<Seq<AnsiChar>> {
    g.update(r, g[r].update(c, cell))
}

/// Writing one printable character: write at the cursor and step right, or,
/// when the column has just passed the right edge, wrap to the start of the
/// next row and write there. A write that would fall below the last row is
/// dropped and the state is left unchanged.
pub open spec fn spec_put_char(v: TerminalView, c: char) -> TerminalView {
    let cell = AnsiChar {
        character: c,
        foreground: v.setting.color,
        background: v.setting.bg_color,
    };
    if v.cursor.1 < v.height && v.cursor.0 < v.width {
        TerminalView {
            grid: spec_grid_put(v.grid, v.cursor.1 as int, v.cursor.0 as int, cell),
            cursor: ((v.cursor.0 + 1) as u32, v.cursor.1),
            ..v
        }
    } else if v.cursor.0 >= v.width && v.cursor.1 + 1 < v.height {
        TerminalView {
            grid: spec_grid_put(v.grid, v.cursor.1 + 1, 0, cell),
            cursor: (1u32, (v.cursor.1 + 1) as u32),
            ..v
        }
    } else {
        v
    }
}

/// The effect of one protocol token on the terminal state.
///
/// Literal characters print (or, in title mode, accumulate into the title),
/// newline and carriage return move the cursor, graphics-mode tokens change
/// the drawing state, the cursor-motion tokens move the cursor and always
/// clamp it to the grid, and the visibility tokens flip the cursor flag.
/// The remaining tokens are accepted and change nothing.
pub open spec fn spec_apply_token(v: TerminalView, t: AnsiToken) -> TerminalView {
    match t {
        AnsiToken::Character(c) => {
            if v.setting.mode == AnsiMode::Title {
                TerminalView { title: v.title.push(c), ..v }
            } else if c == '\n' {
                TerminalView {
                    cursor: (
                        0u32,
                        if v.cursor.1 + 1 < v.height {
                            (v.cursor.1 + 1) as u32
                        } else {
                            (v.height - 1) as u32
                        },
                    ),
                    ..v
                }
            } else if c == '\r' {
                TerminalView { cursor: (0u32, v.cursor.1), ..v }
            } else {
                spec_put_char(v, c)
            }
        },
        AnsiToken::SetGraphicsMode(ps) => TerminalView {
            setting: v.setting.spec_graphics(ps),
            ..v
        },
        AnsiToken::SetTitleMode => TerminalView {
            setting: Setting { mode: AnsiMode::Title, ..v.setting },
            ..v
        },
        AnsiToken::Bell => TerminalView {
            setting: Setting { mode: AnsiMode::Print, ..v.setting },
            ..v
        },
        AnsiToken::CursorUp(n) => TerminalView {
            cursor: (
                v.cursor.0,
                if v.cursor.1 >= (n as u32) {
                    (v.cursor.1 - (n as u32)) as u32
                } else {
                    0u32
                },
            ),
            ..v
        },
        AnsiToken::CursorDown(n) => TerminalView {
            cursor: (
                v.cursor.0,
                if v.cursor.1 + (n as u32) < v.height {
                    (v.cursor.1 + (n as u32)) as u32
                } else {
                    (v.height - 1) as u32
                },
            ),
            ..v
        },
        AnsiToken::CursorForward(n) => TerminalView {
            cursor: (
                if v.cursor.0 + (n as u32) < v.width {
                    (v.cursor.0 + (n as u32)) as u32
                } else {
                    (v.width - 1) as u32
                },
                v.cursor.1,
            ),
            ..v
        },
        AnsiToken::CursorBackward(n) => TerminalView {
            cursor: (
                if v.cursor.0 >= (n as u32) {
                    (v.cursor.0 - (n as u32)) as u32
                } else {
                    0u32
                },
                v.cursor.1,
            ),
            ..v
        },
        AnsiToken::CursorPos(x, y) => TerminalView {
            cursor: (
                if (x as u32) < v.width {
                    x as u32
                } else {
                    (v.width - 1) as u32
                },
                if (y as u32) < v.height {
                    y as u32
                } else {
                    (v.height - 1) as u32
                },
            ),
            ..v
        },
        AnsiToken::ShowCursor => TerminalView { visible_cursor: true, ..v },
        AnsiToken::HideCursor => TerminalView { visible_cursor: false, ..v },
        AnsiToken::Escape => v,
        AnsiToken::SetBracketedPasteMode(_) => v,
        AnsiToken::AutoWrap(_) => v,
        AnsiToken::EraseInLine(_) => v,
        AnsiToken::EraseInDisplay(_) => v,
        AnsiToken::Back => v,
        AnsiToken::SetCharSet(_) => v,
    }
}

/// A whole token sequence applied in order.
pub open spec fn spec_interpret(v: TerminalView, toks: Seq<AnsiToken>) -> TerminalView
    decreases toks.len(),
{
    if toks.len() == 0 {
        v
    } else {
        spec_interpret(spec_apply_token(v, toks[0]), toks.drop_first())
    }
}

/// The terminal state after one input chunk: the chunk is tokenized in
/// full, then every token is applied in order.
pub open spec fn spec_display(v: TerminalView, text: Seq<char>) -> TerminalView {
    spec_interpret(v, spec_parse(text, 0))
}

/// No token moves the cursor off the grid or changes the grid's geometry:
/// every mutation clamps.
pub proof fn lemma_apply_token_wf(v: TerminalView, t: AnsiToken)
    requires
        v.wf(),
    ensures
        spec_apply_token(v, t).wf(),
        spec_apply_token(v, t).width == v.width,
        spec_apply_token(v, t).height == v.height,
{
    let v2 = spec_apply_token(v, t);
    match t {
        AnsiToken::Character(c) => {
            if v.setting.mode != AnsiMode::Title && c != '\n' && c != '\r' {
                if v.cursor.1 < v.height && v.cursor.0 < v.width {
                    assert(v2.grid.len() == v.grid.len());
                    assert(forall|r: int|
                        0 <= r < v2.grid.len() ==> (#[trigger] v2.grid[r]).len() == v.width);
                } else if v.cursor.0 >= v.width && v.cursor.1 + 1 < v.height {
                    assert(forall|r: int|
                        0 <= r < v2.grid.len() ==> (#[trigger] v2.grid[r]).len() == v.width);
                }
            }
        },
        _ => {},
    }
}

/// Interpreting preserves well-formedness for any token sequence.
pub proof fn lemma_interpret_wf(v: TerminalView, toks: Seq<AnsiToken>)
    requires
        v.wf(),
    ensures
        spec_interpret(v, toks).wf(),
        spec_interpret(v, toks).width == v.width,
        spec_interpret(v, toks).height == v.height,
    decreases toks.len(),
{
    if toks.len() > 0 {
        lemma_apply_token_wf(v, toks[0]);
        lemma_interpret_wf(spec_apply_token(v, toks[0]), toks.drop_first());
    }
}

/// Apply one token to the terminal.
fn apply_token(terminal: &mut Terminal, tok: AnsiSequence)
    requires
        old(terminal).wf(),
    ensures
        final(terminal).wf(),
        final(terminal)@ == spec_apply_token(old(terminal)@, tok@),
{
    match tok {
        AnsiSequence::Character(c) => {
            if terminal.setting.mode == AnsiMode::Title {
                terminal.title.push(c);
            } else if c == '\n' {
                terminal.cursor.0 = 0;
                if terminal.cursor.1 + 1 < terminal.height {
                    terminal.cursor.1 = terminal.cursor.1 + 1;
                } else {
                    terminal.cursor.1 = terminal.height - 1;
                }
            } else if c == '\r' {
                terminal.cursor.0 = 0;
            } else {
                let cell = AnsiChar::new(c, terminal.setting.color, terminal.setting.bg_color);
                if terminal.cursor.1 < terminal.height && terminal.cursor.0 < terminal.width {
                    terminal.visible_grid.set(
                        terminal.cursor.1 as usize,
                        terminal.cursor.0 as usize,
                        cell,
                    );
                    terminal.cursor.0 = terminal.cursor.0 + 1;
                } else if terminal.cursor.0 >= terminal.width && terminal.cursor.1 + 1
                    < terminal.height {
                    terminal.cursor.1 = terminal.cursor.1 + 1;
                    terminal.cursor.0 = 0;
                    terminal.visible_grid.set(terminal.cursor.1 as usize, 0, cell);
                    terminal.cursor.0 = 1;
                }
            }
        },
        AnsiSequence::SetGraphicsMode(codes) => {
            terminal.setting.set_graphics_mode(codes);
        },
        AnsiSequence::SetTitleMode => {
            terminal.setting.mode = AnsiMode::Title;
        },
        AnsiSequence::Bell => {
            terminal.setting.mode = AnsiMode::Print;
        },
        AnsiSequence::CursorUp(n) => {
            if terminal.cursor.1 >= (n as u32) {
                terminal.cursor.1 = terminal.cursor.1 - (n as u32);
            } else {
                terminal.cursor.1 = 0;
            }
        },
        AnsiSequence::CursorDown(n) => {
            if (terminal.cursor.1 as u64) + (n as u64) < (terminal.height as u64) {
                terminal.cursor.1 = terminal.cursor.1 + (n as u32);
            } else {
                terminal.cursor.1 = terminal.height - 1;
            }
        },
        AnsiSequence::CursorForward(n) => {
            if (terminal.cursor.0 as u64) + (n as u64) < (terminal.width as u64) {
                terminal.cursor.0 = terminal.cursor.0 + (n as u32);
            } else {
                terminal.cursor.0 = terminal.width - 1;
            }
        },
        AnsiSequence::CursorBackward(n) => {
            if terminal.cursor.0 >= (n as u32) {
                terminal.cursor.0 = terminal.cursor.0 - (n as u32);
            } else {
                terminal.cursor.0 = 0;
            }
        },
        AnsiSequence::CursorPos(x, y) => {
            if (x as u32) < terminal.width {
                terminal.cursor.0 = x as u32;
            } else {
                terminal.cursor.0 = terminal.width - 1;
            }
            if (y as u32) < terminal.height {
                terminal.cursor.1 = y as u32;
            } else {
                terminal.cursor.1 = terminal.height - 1;
            }
        },
        AnsiSequence::ShowCursor => {
            terminal.visible_cursor = true;
        },
        AnsiSequence::HideCursor => {
            terminal.visible_cursor = false;
        },
        AnsiSequence::Escape => {},
        AnsiSequence::SetBracketedPasteMode(_) => {},
        AnsiSequence::AutoWrap(_) => {},
        AnsiSequence::EraseInLine(_) => {},
        AnsiSequence::EraseInDisplay(_) => {},
        AnsiSequence::Back => {},
        AnsiSequence::SetCharSet(_) => {},
    }
    proof {
        assert(terminal@ =~~= spec_apply_token(old(terminal)@, tok@));
    }
}

/// Interpret one chunk of shell output: tokenize it completely, then apply
/// every token, in order, to the terminal's grid, cursor and drawing state.
pub fn display_ansi_text(terminal: &mut Terminal, text: String)
    requires
        old(terminal).wf(),
    ensures
        final(terminal).wf(),
        final(terminal)@ == spec_display(old(terminal)@, text@),
{
    let mut toks = parsers::parse(text.as_str());
    while toks.len() > 0
        invariant
            terminal.wf(),
            spec_display(old(terminal)@, text@) == spec_interpret(terminal@, toks_of(toks@)),
        decreases toks@.len(),
    {
        let ghost before = toks@;
        let tok = toks.remove(0);
        proof {
            assert(toks_of(before)[0] == tok@);
            assert(toks_of(before).drop_first() =~~= toks_of(toks@));
        }
        apply_token(terminal, tok);
    }
    proof {
        assert(toks_of(toks@).len() == 0);
    }
}

} // verus!
