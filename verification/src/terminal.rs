use vstd::prelude::*;

use crate::display::Setting;
use crate::layout::{spec_grid_new, spec_grid_resize, AnsiChar, Grid};

verus! {

/// A key the windowing layer has already resolved, reduced to what the
/// terminal reacts to: letters, digits, space, backspace and return.
/// Everything else arrives as `Other` and produces no bytes.
#[derive(Clone, Copy, Debug, PartialEq, Eq, Structural)]
pub enum Key {
    A,
    B,
    C,
    D,
    E,
    F,
    G,
    H,
    I,
    J,
    K,
    L,
    M,
    N,
    O,
    P,
    Q,
    R,
    S,
    T,
    U,
    V,
    W,
    X,
    Y,
    Z,
    Key1,
    Key2,
    Key3,
    Key4,
    Key5,
    Key6,
    Key7,
    Key8,
    Key9,
    Key0,
    Space,
    Back,
    Return,
    Other,
}

/// Modifier state of the keyboard. Only shift changes what is sent.
#[derive(Clone, Copy, Debug, PartialEq, Eq, Structural)]
pub struct Modifiers {
    pub shift: bool,
    pub ctrl: bool,
    pub alt: bool,
    pub logo: bool,
}

impl Default for Modifiers {
    fn default() -> (r: Self)
        ensures
            r == (Modifiers { shift: false, ctrl: false, alt: false, logo: false }),
    {
        Modifiers { shift: false, ctrl: false, alt: false, logo: false }
    }
}

/// The character a key sends without shift, if it sends one.
pub open spec fn spec_key_char(key: Key) -> Option<char> {
    match key {
        Key::A => Some('a'),
        Key::B => Some('b'),
        Key::C => Some('c'),
        Key::D => Some('d'),
        Key::E => Some('e'),
        Key::F => Some('f'),
        Key::G => Some('g'),
        Key::H => Some('h'),
        Key::I => Some('i'),
        Key::J => Some('j'),
        Key::K => Some('k'),
        Key::L => Some('l'),
        Key::M => Some('m'),
        Key::N => Some('n'),
        Key::O => Some('o'),
        Key::P => Some('p'),
        Key::Q => Some('q'),
        Key::R => Some('r'),
        Key::S => Some('s'),
        Key::T => Some('t'),
        Key::U => Some('u'),
        Key::V => Some('v'),
        Key::W => Some('w'),
        Key::X => Some('x'),
        Key::Y => Some('y'),
        Key::Z => Some('z'),
        Key::Key1 => Some('1'),
        Key::Key2 => Some('2'),
        Key::Key3 => Some('3'),
        Key::Key4 => Some('4'),
        Key::Key5 => Some('5'),
        Key::Key6 => Some('6'),
        Key::Key7 => Some('7'),
        Key::Key8 => Some('8'),
        Key::Key9 => Some('9'),
        Key::Key0 => Some('0'),
        Key::Space => Some(' '),
        Key::Back => Some('\u{8}'),
        Key::Return => Some('\n'),
        Key::Other => None,
    }
}

/// Shift uppercases letters and leaves every other key character alone.
pub open spec fn spec_uppercase(c: char) -> char {
    if 'a' <= c && c <= 'z' {
        ((c as u8) - 32) as char
    } else {
        c
    }
}

/// The byte sequence a key press sends to the shell.
pub open spec fn spec_key_string(key: Key, shift: bool) -> Seq<char> {
    match spec_key_char(key) {
        Some(c) => seq![
            if shift {
                spec_uppercase(c)
            } else {
                c
            },
        ],
        None => Seq::<char>::empty(),
    }
}

/// The full state of the terminal, mathematically: the screen contents, the
/// cursor, the drawing state, the gathered window title and the keyboard
/// modifiers.
#[verifier::ext_equal]
pub ghost struct TerminalView {
    pub grid: Seq<Seq<AnsiChar>>,
    pub width: u32,
    pub height: u32,
    pub cursor: (u32, u32),
    pub visible_cursor: bool,
    pub setting: Setting,
    pub title: Seq<char>,
    pub modifiers: Modifiers,
}

impl TerminalView {
    /// The state a fresh terminal starts in: a blank grid, the cursor at
    /// the origin and visible, default colors, print mode, no title.
    pub open spec fn initial(width: u32, height: u32) -> TerminalView {
        TerminalView {
            grid: spec_grid_new(width, height),
            width,
            height,
            cursor: (0u32, 0u32),
            visible_cursor: true,
            setting: Setting::initial(),
            title: Seq::<char>::empty(),
            modifiers: Modifiers { shift: false, ctrl: false, alt: false, logo: false },
        }
    }

    /// The grid matches the recorded dimensions, the cursor row is on the
    /// grid, and the cursor column is at most one step past the right edge
    /// (the pending-wrap position).
    pub open spec fn wf(self) -> bool {
        &&& 1 <= self.width
        &&& 1 <= self.height
        &&& self.grid.len() == self.height
        &&& forall|r: int| 0 <= r < self.grid.len() ==> (#[trigger] self.grid[r]).len() == self.width
        &&& self.cursor.1 < self.height
        &&& self.cursor.0 <= self.width
    }

    /// State after the presentation surface reports a new cell geometry:
    /// the grid is cut or grown and the cursor clamped back inside.
    pub open spec fn resized(self, width: u32, height: u32) -> TerminalView {
        TerminalView {
            grid: spec_grid_resize(self.grid, width, height),
            width,
            height,
            cursor: (
                if self.cursor.0 <= width {
                    self.cursor.0
                } else {
                    width
                },
                if self.cursor.1 < height {
                    self.cursor.1
                } else {
                    (height - 1) as u32
                },
            ),
            ..self
        }
    }
}

/// The terminal core: the visible grid, the cursor, and the drawing state
/// that the interpreter applies protocol tokens to.
#[derive(Debug)]
pub struct Terminal {
    pub visible_grid: Grid,
    pub width: u32,
    pub height: u32,
    pub cursor: (u32, u32),
    pub visible_cursor: bool,
    pub setting: Setting,
    pub title: Vec<char>,
    pub modifiers: Modifiers,
}

impl View for Terminal {
    type V = TerminalView;

    open spec fn view(&self) -> TerminalView {
        TerminalView {
            grid: self.visible_grid@,
            width: self.width,
            height: self.height,
            cursor: self.cursor,
            visible_cursor: self.visible_cursor,
            setting: self.setting,
            title: self.title@,
            modifiers: self.modifiers,
        }
    }
}

impl Terminal {
    /// The state is well-formed and the grid's own bookkeeping agrees with
    /// the recorded dimensions.
    pub open spec fn wf(&self) -> bool {
        &&& self@.wf()
        &&& self.visible_grid.wf()
        &&& self.visible_grid.size == (self.width, self.height)
    }

    /// A fresh terminal with a blank `width`-by-`height` grid. A terminal
    /// is never empty: the cursor needs a cell to stand on.
    pub fn new(width: u32, height: u32) -> (t: Terminal)
        requires
            1 <= width,
            1 <= height,
        ensures
            t.wf(),
            t@ == TerminalView::initial(width, height),
    {
        let t = Terminal {
            visible_grid: Grid::new(width, height),
            width,
            height,
            cursor: (0, 0),
            visible_cursor: true,
            setting: Setting::default(),
            title: Vec::new(),
            modifiers: Modifiers::default(),
        };
        proof {
            assert(t@ =~~= TerminalView::initial(width, height));
        }
        t
    }

    /// Adopt a new cell geometry: resize the grid, keeping the surviving
    /// top-left rectangle, and clamp the cursor back inside.
    pub fn resize(&mut self, width: u32, height: u32)
        requires
            old(self).wf(),
            1 <= width,
            1 <= height,
        ensures
            final(self).wf(),
            final(self)@ == old(self)@.resized(width, height),
    {
        self.visible_grid.resize(width, height);
        self.width = width;
        self.height = height;
        if self.cursor.0 > width {
            self.cursor.0 = width;
        }
        if self.cursor.1 >= height {
            self.cursor.1 = height - 1;
        }
        proof {
            assert(self@ =~~= old(self)@.resized(width, height));
        }
    }

    /// The byte sequence a key press sends to the shell: letters, digits
    /// and space as themselves, backspace and return as their control
    /// bytes, letters uppercased while shift is held, and nothing for any
    /// other key.
    pub fn key_to_string(&self, key: Key) -> (s: String)
        ensures
            s@ == spec_key_string(key, self.modifiers.shift),
    {
        proof {
            reveal_strlit("a");
            reveal_strlit("A");
            reveal_strlit("b");
            reveal_strlit("B");
            reveal_strlit("c");
            reveal_strlit("C");
            reveal_strlit("d");
            reveal_strlit("D");
            reveal_strlit("e");
            reveal_strlit("E");
            reveal_strlit("f");
            reveal_strlit("F");
            reveal_strlit("g");
            reveal_strlit("G");
            reveal_strlit("h");
            reveal_strlit("H");
            reveal_strlit("i");
            reveal_strlit("I");
            reveal_strlit("j");
            reveal_strlit("J");
            reveal_strlit("k");
            reveal_strlit("K");
            reveal_strlit("l");
            reveal_strlit("L");
            reveal_strlit("m");
            reveal_strlit("M");
            reveal_strlit("n");
            reveal_strlit("N");
            reveal_strlit("o");
            reveal_strlit("O");
            reveal_strlit("p");
            reveal_strlit("P");
            reveal_strlit("q");
            reveal_strlit("Q");
            reveal_strlit("r");
            reveal_strlit("R");
            reveal_strlit("s");
            reveal_strlit("S");
            reveal_strlit("t");
            reveal_strlit("T");
            reveal_strlit("u");
            reveal_strlit("U");
            reveal_strlit("v");
            reveal_strlit("V");
            reveal_strlit("w");
            reveal_strlit("W");
            reveal_strlit("x");
            reveal_strlit("X");
            reveal_strlit("y");
            reveal_strlit("Y");
            reveal_strlit("z");
            reveal_strlit("Z");
            reveal_strlit("1");
            reveal_strlit("2");
            reveal_strlit("3");
            reveal_strlit("4");
            reveal_strlit("5");
            reveal_strlit("6");
            reveal_strlit("7");
            reveal_strlit("8");
            reveal_strlit("9");
            reveal_strlit("0");
            reveal_strlit(" ");
            reveal_strlit("\u{8}");
            reveal_strlit("\n");
            reveal_strlit("");
        }
        let lit: &str = if self.modifiers.shift {
            match key {
            Key::A => "A",
            Key::B => "B",
            Key::C => "C",
            Key::D => "D",
            Key::E => "E",
            Key::F => "F",
            Key::G => "G",
            Key::H => "H",
            Key::I => "I",
            Key::J => "J",
            Key::K => "K",
            Key::L => "L",
            Key::M => "M",
            Key::N => "N",
            Key::O => "O",
            Key::P => "P",
            Key::Q => "Q",
            Key::R => "R",
            Key::S => "S",
            Key::T => "T",
            Key::U => "U",
            Key::V => "V",
            Key::W => "W",
            Key::X => "X",
            Key::Y => "Y",
            Key::Z => "Z",
            Key::Key1 => "1",
            Key::Key2 => "2",
            Key::Key3 => "3",
            Key::Key4 => "4",
            Key::Key5 => "5",
            Key::Key6 => "6",
            Key::Key7 => "7",
            Key::Key8 => "8",
            Key::Key9 => "9",
            Key::Key0 => "0",
            Key::Space => " ",
            Key::Back => "\u{8}",
            Key::Return => "\n",
            Key::Other => "",
            }
        } else {
            match key {
            Key::A => "a",
            Key::B => "b",
            Key::C => "c",
            Key::D => "d",
            Key::E => "e",
            Key::F => "f",
            Key::G => "g",
            Key::H => "h",
            Key::I => "i",
            Key::J => "j",
            Key::K => "k",
            Key::L => "l",
            Key::M => "m",
            Key::N => "n",
            Key::O => "o",
            Key::P => "p",
            Key::Q => "q",
            Key::R => "r",
            Key::S => "s",
            Key::T => "t",
            Key::U => "u",
            Key::V => "v",
            Key::W => "w",
            Key::X => "x",
            Key::Y => "y",
            Key::Z => "z",
            Key::Key1 => "1",
            Key::Key2 => "2",
            Key::Key3 => "3",
            Key::Key4 => "4",
            Key::Key5 => "5",
            Key::Key6 => "6",
            Key::Key7 => "7",
            Key::Key8 => "8",
            Key::Key9 => "9",
            Key::Key0 => "0",
            Key::Space => " ",
            Key::Back => "\u{8}",
            Key::Return => "\n",
            Key::Other => "",
            }
        };
        lit.to_owned()
    }
}

} // verus!
