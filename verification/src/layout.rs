use vstd::prelude::*;

use crate::config::{ColorPallete, Rgba};

verus! {

/// One character cell of the screen: a glyph together with the colors it
/// is drawn in.
#[derive(Clone, Copy, Debug, PartialEq, Eq, Structural)]
pub struct AnsiChar {
    pub character: char,
    pub foreground: Rgba,
    pub background: Rgba,
}

impl AnsiChar {
    /// The cell an untouched grid position holds: a space, drawn with the
    /// palette's white-on-black pairing.
    pub open spec fn blank() -> AnsiChar {
        AnsiChar {
            character: ' ',
            foreground: ColorPallete::standard().white,
            background: ColorPallete::standard().black,
        }
    }

    pub fn new(character: char, foreground: Rgba, background: Rgba) -> (r: AnsiChar)
        ensures
            r == (AnsiChar { character, foreground, background }),
    {
        AnsiChar { character, foreground, background }
    }

    pub fn with_fg_color(&mut self, color: Rgba) -> (r: AnsiChar)
        ensures
            *final(self) == (AnsiChar { foreground: color, ..*old(self) }),
            r == *final(self),
    {
        self.foreground = color;
        *self
    }

    pub fn with_bg_color(&mut self, color: Rgba) -> (r: AnsiChar)
        ensures
            *final(self) == (AnsiChar { background: color, ..*old(self) }),
            r == *final(self),
    {
        self.background = color;
        *self
    }

    pub fn with_char(&mut self, c: char) -> (r: AnsiChar)
        ensures
            *final(self) == (AnsiChar { character: c, ..*old(self) }),
            r == *final(self),
    {
        self.character = c;
        *self
    }
}

impl Default for AnsiChar {
    fn default() -> (r: Self)
        ensures
            r == AnsiChar::blank(),
    {
        AnsiChar {
            character: ' ',
            foreground: Rgba { red: 1, green: 1, blue: 1, alpha: 1 },
            background: Rgba { red: 0, green: 0, blue: 0, alpha: 1 },
        }
    }
}

/// One screen row: a run of cells together with its recorded length.
#[derive(Debug)]
pub struct Row<T> {
    pub length: u32,
    pub row: Vec<T>,
}

impl<T> View for Row<T> {
    type V = Seq<T>;

    open spec fn view(&self) -> Seq<T> {
        self.row@
    }
}

impl<T> Row<T> {
    /// The recorded length always mirrors the cell vector.
    pub open spec fn wf(&self) -> bool {
        self.length == self@.len()
    }

    pub fn new(v: Vec<T>) -> (r: Row<T>)
        requires
            v@.len() <= u32::MAX,
        ensures
            r@ == v@,
            r.wf(),
    {
        let length = v.len() as u32;
        Row { length, row: v }
    }

    /// Read-only access to the cells, in order.
    pub fn iter(&self) -> (r: &Vec<T>)
        ensures
            r@ == self@,
    {
        &self.row
    }

    pub fn get(&self, i: usize) -> (r: &T)
        requires
            i < self@.len(),
        ensures
            *r == self@[i as int],
    {
        &self.row[i]
    }

    pub fn set(&mut self, i: usize, v: T)
        requires
            i < old(self)@.len(),
        ensures
            final(self)@ == old(self)@.update(i as int, v),
            final(self).length == old(self).length,
    {
        self.row.set(i, v);
    }

    pub fn len(&self) -> (n: usize)
        ensures
            n == self@.len(),
    {
        self.row.len()
    }
}

impl PartialEq for Row<AnsiChar> {
    fn eq(&self, other: &Self) -> (r: bool) {
        if self.length != other.length || self.row.len() != other.row.len() {
            return false;
        }
        let n = self.row.len();
        let mut i: usize = 0;
        while i < n
            invariant
                n == self@.len(),
                n == other@.len(),
                i <= n,
                forall|j: int| 0 <= j < i ==> self@[j] == other@[j],
            decreases n - i,
        {
            if self.row[i] != other.row[i] {
                return false;
            }
            i = i + 1;
        }
        proof {
            assert(self@ =~= other@);
        }
        true
    }
}

impl vstd::std_specs::cmp::PartialEqSpecImpl for Row<AnsiChar> {
    open spec fn obeys_eq_spec() -> bool {
        true
    }

    open spec fn eq_spec(&self, other: &Self) -> bool {
        self.length == other.length && self@ == other@
    }
}

/// The blank `height`-by-`width` screen contents.
pub open spec fn spec_grid_new(width: u32, height: u32) -> Seq<Seq<AnsiChar>> {
    Seq::new(height as nat, |r: int| Seq::new(width as nat, |c: int| AnsiChar::blank()))
}

/// Screen contents after a resize: the top-left rectangle that survives
/// keeps its cells, everything newly exposed is blank.
pub open spec fn spec_grid_resize(
    g: Seq<Seq<AnsiChar>>,
    width: u32,
    height: u32,
) -> Seq<Seq<AnsiChar>> {
    Seq::new(
        height as nat,
        |r: int|
            Seq::new(
                width as nat,
                |c: int|
                    if r < g.len() && c < g[r].len() {
                        g[r][c]
                    } else {
                        AnsiChar::blank()
                    },
            ),
    )
}

/// The screen contents: rows of cells, each row as wide as the grid.
#[derive(Debug)]
pub struct Grid {
    pub rows: Vec<Row<AnsiChar>>,
    pub size: (u32, u32),
}

impl View for Grid {
    type V = Seq<Seq<AnsiChar>>;

    open spec fn view(&self) -> Seq<Seq<AnsiChar>> {
        Seq::new(self.rows@.len(), |r: int| self.rows@[r]@)
    }
}

impl Grid {
    /// Every row is present, every row is exactly `size.0` cells wide, and
    /// each row's recorded length agrees with its cells.
    pub open spec fn wf(&self) -> bool {
        &&& self@.len() == self.size.1
        &&& forall|r: int| 0 <= r < self@.len() ==> (#[trigger] self@[r]).len() == self.size.0
        &&& self.rows_ok()
    }

    /// Each stored row's recorded length agrees with its cells.
    pub open spec fn rows_ok(&self) -> bool {
        forall|r: int| 0 <= r < self.rows@.len() ==> (#[trigger] self.rows@[r]).wf()
    }

    pub fn new(width: u32, height: u32) -> (g: Grid)
        ensures
            g.wf(),
            g.size == (width, height),
            g@ == spec_grid_new(width, height),
    {
        let mut rows: Vec<Row<AnsiChar>> = Vec::new();
        while rows.len() < height as usize
            invariant
                rows@.len() <= height as nat,
                forall|r: int|
                    0 <= r < rows@.len() ==> (#[trigger] rows@[r])@ == Seq::new(
                        width as nat,
                        |c: int| AnsiChar::blank(),
                    ),
                forall|r: int| 0 <= r < rows@.len() ==> (#[trigger] rows@[r]).wf(),
            decreases height as int - rows@.len(),
        {
            let mut cells: Vec<AnsiChar> = Vec::new();
            while cells.len() < width as usize
                invariant
                    cells@.len() <= width as nat,
                    forall|c: int| 0 <= c < cells@.len() ==> cells@[c] == AnsiChar::blank(),
                decreases width as int - cells@.len(),
            {
                cells.push(AnsiChar::default());
            }
            proof {
                assert(cells@ =~= Seq::new(width as nat, |c: int| AnsiChar::blank()));
            }
            rows.push(Row::new(cells));
        }
        let g = Grid { rows, size: (width, height) };
        proof {
            assert(g@ =~= spec_grid_new(width, height));
        }
        g
    }

    /// Grow or shrink to `height` rows of `width` cells. Content in the
    /// surviving top-left rectangle is preserved; everything newly exposed
    /// is blank.
    pub fn resize(&mut self, width: u32, height: u32)
        ensures
            final(self).wf(),
            final(self).size == (width, height),
            final(self)@ == spec_grid_resize(old(self)@, width, height),
    {
        let mut rows: Vec<Row<AnsiChar>> = Vec::new();
        while rows.len() < height as usize
            invariant
                self == old(self),
                rows@.len() <= height as nat,
                forall|r: int|
                    0 <= r < rows@.len() ==> (#[trigger] rows@[r])@ == spec_grid_resize(
                        old(self)@,
                        width,
                        height,
                    )[r],
                forall|r: int| 0 <= r < rows@.len() ==> (#[trigger] rows@[r]).wf(),
            decreases height as int - rows@.len(),
        {
            let r = rows.len();
            let mut cells: Vec<AnsiChar> = Vec::new();
            while cells.len() < width as usize
                invariant
                    self == old(self),
                    r < height as usize,
                    cells@.len() <= width as nat,
                    forall|c: int|
                        0 <= c < cells@.len() ==> cells@[c] == spec_grid_resize(
                            old(self)@,
                            width,
                            height,
                        )[r as int][c],
                decreases width as int - cells@.len(),
            {
                let c = cells.len();
                if r < self.rows.len() && c < self.rows[r].len() {
                    cells.push(*self.rows[r].get(c));
                } else {
                    cells.push(AnsiChar::default());
                }
            }
            proof {
                assert(cells@ =~= spec_grid_resize(old(self)@, width, height)[r as int]);
            }
            rows.push(Row::new(cells));
        }
        self.rows = rows;
        self.size = (width, height);
        proof {
            assert(self@ =~= spec_grid_resize(old(self)@, width, height));
        }
    }

    /// Read-only access to one row.
    pub fn row(&self, r: usize) -> (row: &Row<AnsiChar>)
        requires
            r < self@.len(),
        ensures
            row@ == self@[r as int],
            self.wf() ==> row.wf(),
    {
        &self.rows[r]
    }

    pub fn get(&self, r: usize, c: usize) -> (cell: &AnsiChar)
        requires
            r < self@.len(),
            c < self@[r as int].len(),
        ensures
            *cell == self@[r as int][c as int],
    {
        self.rows[r].get(c)
    }

    pub fn set(&mut self, r: usize, c: usize, cell: AnsiChar)
        requires
            r < old(self)@.len(),
            c < old(self)@[r as int].len(),
        ensures
            final(self)@ == old(self)@.update(
                r as int,
                old(self)@[r as int].update(c as int, cell),
            ),
            final(self).size == old(self).size,
            old(self).wf() ==> final(self).wf(),
    {
        let row = &mut self.rows[r];
        row.set(c, cell);
        proof {
            assert(self@ =~= old(self)@.update(
                r as int,
                old(self)@[r as int].update(c as int, cell),
            ));
        }
    }
}

/// Shrinking twice keeps the surviving rectangle: after a resize to
/// `(w2, h2)` and then to a strictly smaller `(w1, h1)`, every cell of the
/// top-left `w1`-by-`h1` rectangle that the original contents already
/// covered is exactly the original cell.
pub proof fn lemma_resize_round_trip(
    g: Seq<Seq<AnsiChar>>,
    w1: u32,
    h1: u32,
    w2: u32,
    h2: u32,
)
    requires
        w1 < w2,
        h1 < h2,
    ensures
        forall|r: int, c: int|
            0 <= r < h1 && 0 <= c < w1 && r < g.len() && c < g[r].len()
                ==> spec_grid_resize(spec_grid_resize(g, w2, h2), w1, h1)[r][c] == g[r][c],
{
}

} // verus!
