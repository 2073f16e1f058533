use vstd::prelude::*;

verus! {

/// Character sets the protocol can select. Only ASCII is recognized.
#[derive(Clone, Copy, Debug, PartialEq, Eq, Structural)]
pub enum CharSet {
    ASCII,
}

/// A discrete protocol token: one literal character, or one complete
/// control operation.
#[derive(Debug)]
pub enum AnsiSequence {
    Character(char),
    Escape,
    CursorPos(u16, u16),
    CursorUp(u16),
    CursorDown(u16),
    CursorForward(u16),
    CursorBackward(u16),
    SetGraphicsMode(Vec<u8>),
    SetTitleMode,
    SetBracketedPasteMode(bool),
    Bell,
    Back,
    ShowCursor,
    HideCursor,
    AutoWrap(bool),
    EraseInLine(u8),
    EraseInDisplay(u8),
    SetCharSet(CharSet),
}

/// The mathematical shape of a protocol token: `AnsiSequence` with the
/// graphics-parameter vector abstracted to a sequence.
#[verifier::ext_equal]
pub ghost enum AnsiToken {
    Character(char),
    Escape,
    CursorPos(u16, u16),
    CursorUp(u16),
    CursorDown(u16),
    CursorForward(u16),
    CursorBackward(u16),
    SetGraphicsMode(Seq<u8>),
    SetTitleMode,
    SetBracketedPasteMode(bool),
    Bell,
    Back,
    ShowCursor,
    HideCursor,
    AutoWrap(bool),
    EraseInLine(u8),
    EraseInDisplay(u8),
    SetCharSet(CharSet),
}

impl View for AnsiSequence {
    type V = AnsiToken;

    open spec fn view(&self) -> AnsiToken {
        match *self {
            AnsiSequence::Character(c) => AnsiToken::Character(c),
            AnsiSequence::Escape => AnsiToken::Escape,
            AnsiSequence::CursorPos(x, y) => AnsiToken::CursorPos(x, y),
            AnsiSequence::CursorUp(n) => AnsiToken::CursorUp(n),
            AnsiSequence::CursorDown(n) => AnsiToken::CursorDown(n),
            AnsiSequence::CursorForward(n) => AnsiToken::CursorForward(n),
            AnsiSequence::CursorBackward(n) => AnsiToken::CursorBackward(n),
            AnsiSequence::SetGraphicsMode(v) => AnsiToken::SetGraphicsMode(v@),
            AnsiSequence::SetTitleMode => AnsiToken::SetTitleMode,
            AnsiSequence::SetBracketedPasteMode(b) => AnsiToken::SetBracketedPasteMode(b),
            AnsiSequence::Bell => AnsiToken::Bell,
            AnsiSequence::Back => AnsiToken::Back,
            AnsiSequence::ShowCursor => AnsiToken::ShowCursor,
            AnsiSequence::HideCursor => AnsiToken::HideCursor,
            AnsiSequence::AutoWrap(b) => AnsiToken::AutoWrap(b),
            AnsiSequence::EraseInLine(n) => AnsiToken::EraseInLine(n),
            AnsiSequence::EraseInDisplay(n) => AnsiToken::EraseInDisplay(n),
            AnsiSequence::SetCharSet(c) => AnsiToken::SetCharSet(c),
        }
    }
}

impl PartialEq for AnsiSequence {
    fn eq(&self, other: &Self) -> (r: bool) {
        match (self, other) {
            (AnsiSequence::Character(a), AnsiSequence::Character(b)) => a == b,
            (AnsiSequence::Escape, AnsiSequence::Escape) => true,
            (AnsiSequence::CursorPos(ax, ay), AnsiSequence::CursorPos(bx, by)) => ax == bx && ay
                == by,
            (AnsiSequence::CursorUp(a), AnsiSequence::CursorUp(b)) => a == b,
            (AnsiSequence::CursorDown(a), AnsiSequence::CursorDown(b)) => a == b,
            (AnsiSequence::CursorForward(a), AnsiSequence::CursorForward(b)) => a == b,
            (AnsiSequence::CursorBackward(a), AnsiSequence::CursorBackward(b)) => a == b,
            (AnsiSequence::SetGraphicsMode(a), AnsiSequence::SetGraphicsMode(b)) => {
                let r = a == b;
                proof {
                    // elementwise equality of the parameter vectors is
                    // equality of their sequences
                    if r {
                        assert(a@ =~= b@);
                    }
                }
                r
            },
            (AnsiSequence::SetTitleMode, AnsiSequence::SetTitleMode) => true,
            (
                AnsiSequence::SetBracketedPasteMode(a),
                AnsiSequence::SetBracketedPasteMode(b),
            ) => a == b,
            (AnsiSequence::Bell, AnsiSequence::Bell) => true,
            (AnsiSequence::Back, AnsiSequence::Back) => true,
            (AnsiSequence::ShowCursor, AnsiSequence::ShowCursor) => true,
            (AnsiSequence::HideCursor, AnsiSequence::HideCursor) => true,
            (AnsiSequence::AutoWrap(a), AnsiSequence::AutoWrap(b)) => a == b,
            (AnsiSequence::EraseInLine(a), AnsiSequence::EraseInLine(b)) => a == b,
            (AnsiSequence::EraseInDisplay(a), AnsiSequence::EraseInDisplay(b)) => a == b,
            (AnsiSequence::SetCharSet(a), AnsiSequence::SetCharSet(b)) => a == b,
            _ => false,
        }
    }
}

impl vstd::std_specs::cmp::PartialEqSpecImpl for AnsiSequence {
    open spec fn obeys_eq_spec() -> bool {
        true
    }

    open spec fn eq_spec(&self, other: &Self) -> bool {
        self@ == other@
    }
}

} // verus!
