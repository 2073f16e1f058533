use nyat::config::{ColorPallete, Rgba};
use nyat::layout::{AnsiChar, Grid, Row};

fn cell(c: char) -> AnsiChar {
    let pallete = ColorPallete::default();
    AnsiChar::new(c, pallete.white, pallete.black)
}

#[test]
fn test_grid_new_is_blank() {
    let g = Grid::new(3, 2);
    assert_eq!(g.size, (3, 2));
    for r in 0..2usize {
        assert_eq!(g.row(r).len(), 3);
        for c in 0..3usize {
            assert_eq!(*g.get(r, c), AnsiChar::default());
        }
    }
}

#[test]
fn test_grid_set_and_get() {
    let mut g = Grid::new(3, 2);
    g.set(1, 2, cell('x'));
    assert_eq!(g.get(1, 2).character, 'x');
    assert_eq!(*g.get(0, 2), AnsiChar::default());
}

#[test]
fn test_resize_preserves_top_left() {
    // Grow, then shrink: the rectangle that survives both keeps its cells.
    let mut g = Grid::new(4, 3);
    g.set(0, 0, cell('a'));
    g.set(0, 1, cell('b'));
    g.set(1, 0, cell('c'));
    g.set(2, 3, cell('z'));

    g.resize(6, 5);
    assert_eq!(g.size, (6, 5));
    assert_eq!(g.get(0, 0).character, 'a');
    assert_eq!(g.get(2, 3).character, 'z');
    assert_eq!(*g.get(4, 5), AnsiChar::default());

    g.resize(2, 2);
    assert_eq!(g.size, (2, 2));
    assert_eq!(g.get(0, 0).character, 'a');
    assert_eq!(g.get(0, 1).character, 'b');
    assert_eq!(g.get(1, 0).character, 'c');
    assert_eq!(g.get(1, 1).character, ' ');
}

#[test]
fn test_resize_fills_new_cells_blank() {
    let mut g = Grid::new(1, 1);
    g.set(0, 0, cell('q'));
    g.resize(3, 3);
    assert_eq!(g.get(0, 0).character, 'q');
    for r in 0..3usize {
        for c in 0..3usize {
            if !(r == 0 && c == 0) {
                assert_eq!(*g.get(r, c), AnsiChar::default());
            }
        }
    }
}

#[test]
fn test_row_new_and_iter() {
    let row = Row::new(vec![cell('a'), cell('b')]);
    assert_eq!(row.length, 2);
    assert_eq!(row.len(), 2);
    let cells = row.iter();
    assert_eq!(cells.len(), 2);
    assert_eq!(cells[0].character, 'a');
    assert_eq!(cells[1].character, 'b');
}

#[test]
fn test_row_equality() {
    let a = Row::new(vec![cell('a'), cell('b')]);
    let b = Row::new(vec![cell('a'), cell('b')]);
    let c = Row::new(vec![cell('a'), cell('c')]);
    assert_eq!(a, b);
    assert_ne!(a, c);
}

#[test]
fn test_ansi_char_builders() {
    let pallete = ColorPallete::default();
    let mut ch = AnsiChar::default();
    assert_eq!(ch.character, ' ');
    assert_eq!(ch.foreground, pallete.white);
    assert_eq!(ch.background, pallete.black);

    let red = ch.with_fg_color(pallete.red);
    assert_eq!(red.foreground, pallete.red);
    let blue_bg = ch.with_bg_color(pallete.blue);
    assert_eq!(blue_bg.background, pallete.blue);
    let lettered = ch.with_char('k');
    assert_eq!(lettered.character, 'k');
}

#[test]
fn test_standard_palette_values() {
    let pallete = ColorPallete::default();
    assert_eq!(pallete.white, Rgba { red: 1, green: 1, blue: 1, alpha: 1 });
    assert_eq!(pallete.red, Rgba { red: 1, green: 0, blue: 0, alpha: 1 });
    assert_eq!(pallete.black, Rgba { red: 0, green: 0, blue: 0, alpha: 1 });
    assert_eq!(pallete.green, Rgba { red: 0, green: 1, blue: 0, alpha: 1 });
    assert_eq!(pallete.yellow, Rgba { red: 1, green: 1, blue: 0, alpha: 1 });
    assert_eq!(pallete.blue, Rgba { red: 0, green: 0, blue: 1, alpha: 1 });
    assert_eq!(pallete.magenta, Rgba { red: 1, green: 0, blue: 1, alpha: 1 });
    assert_eq!(pallete.cyan, Rgba { red: 0, green: 1, blue: 1, alpha: 1 });
}
