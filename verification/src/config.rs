use vstd::prelude::*;

verus! {

/// An RGBA color. Each channel is an integer intensity on a 0..=1 scale:
/// the terminal core only ever draws from the fixed eight-entry palette
/// below, whose channels are all either fully off (0) or fully on (1).
/// A renderer maps a channel to whatever intensity scale it needs.
#[derive(Clone, Copy, Debug, PartialEq, Eq, Structural)]
pub struct Rgba {
    pub red: u8,
    pub green: u8,
    pub blue: u8,
    pub alpha: u8,
}

/// The classic eight ANSI colors, the lookup targets for SGR color codes.
#[derive(Clone, Copy, Debug, PartialEq, Eq, Structural)]
pub struct ColorPallete {
    pub black: Rgba,
    pub red: Rgba,
    pub green: Rgba,
    pub yellow: Rgba,
    pub blue: Rgba,
    pub magenta: Rgba,
    pub cyan: Rgba,
    pub white: Rgba,
}

impl ColorPallete {
    /// The standard palette: each of the eight entries with its channels
    /// fully off or fully on, all opaque.
    pub open spec fn standard() -> ColorPallete {
        ColorPallete {
            black: Rgba { red: 0, green: 0, blue: 0, alpha: 1 },
            red: Rgba { red: 1, green: 0, blue: 0, alpha: 1 },
            green: Rgba { red: 0, green: 1, blue: 0, alpha: 1 },
            yellow: Rgba { red: 1, green: 1, blue: 0, alpha: 1 },
            blue: Rgba { red: 0, green: 0, blue: 1, alpha: 1 },
            magenta: Rgba { red: 1, green: 0, blue: 1, alpha: 1 },
            cyan: Rgba { red: 0, green: 1, blue: 1, alpha: 1 },
            white: Rgba { red: 1, green: 1, blue: 1, alpha: 1 },
        }
    }
}

impl Default for ColorPallete {
    fn default() -> (r: Self)
        ensures
            r == ColorPallete::standard(),
    {
        ColorPallete {
            black: Rgba { red: 0, green: 0, blue: 0, alpha: 1 },
            red: Rgba { red: 1, green: 0, blue: 0, alpha: 1 },
            green: Rgba { red: 0, green: 1, blue: 0, alpha: 1 },
            yellow: Rgba { red: 1, green: 1, blue: 0, alpha: 1 },
            blue: Rgba { red: 0, green: 0, blue: 1, alpha: 1 },
            magenta: Rgba { red: 1, green: 0, blue: 1, alpha: 1 },
            cyan: Rgba { red: 0, green: 1, blue: 1, alpha: 1 },
            white: Rgba { red: 1, green: 1, blue: 1, alpha: 1 },
        }
    }
}

} // verus!
