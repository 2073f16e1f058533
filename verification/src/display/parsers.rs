use vstd::prelude::*;
use vstd::string::StrSliceExecFns;

use super::enums::{AnsiSequence, AnsiToken, CharSet};

verus! {

// ===== Decimal digit runs and their numeric value =====

pub open spec fn is_digit(c: char) -> bool {
    '0' <= c && c <= '9'
}

/// Position just past the run of decimal digits that starts at `from`.
pub open spec fn spec_digits_end(s: Seq<char>, from: int) -> int
    decreases s.len() - from when 0 <= from <= s.len()
{
    if from < s.len() && is_digit(s[from]) {
        spec_digits_end(s, from + 1)
    } else {
        from
    }
}

pub proof fn lemma_digits_end(s: Seq<char>, from: int)
    requires
        0 <= from <= s.len(),
    ensures
        from <= spec_digits_end(s, from) <= s.len(),
        forall|j: int| from <= j < spec_digits_end(s, from) ==> is_digit(#[trigger] s[j]),
        spec_digits_end(s, from) < s.len() ==> !is_digit(s[spec_digits_end(s, from)]),
    decreases s.len() - from,
{
    if from < s.len() && is_digit(s[from]) {
        lemma_digits_end(s, from + 1);
    }
}

/// Value of the decimal digit run `s[from..to)`, most significant digit
/// first.
pub open spec fn spec_digits_val(s: Seq<char>, from: int, to: int) -> int
    decreases to - from when from <= to
{
    if from >= to {
        0
    } else {
        spec_digits_val(s, from, to - 1) * 10 + (s[to - 1] as int - '0' as int)
    }
}

proof fn lemma_digits_val_nonneg(s: Seq<char>, from: int, to: int)
    requires
        from <= to,
        forall|j: int| from <= j < to ==> is_digit(#[trigger] s[j]),
    ensures
        spec_digits_val(s, from, to) >= 0,
    decreases to - from,
{
    if from < to {
        lemma_digits_val_nonneg(s, from, to - 1);
    }
}

/// Extending a digit run to the right never shrinks its value.
proof fn lemma_digits_val_grows(s: Seq<char>, from: int, mid: int, to: int)
    requires
        from <= mid <= to,
        forall|j: int| from <= j < to ==> is_digit(#[trigger] s[j]),
    ensures
        spec_digits_val(s, from, to) >= spec_digits_val(s, from, mid),
    decreases to - mid,
{
    if mid < to {
        lemma_digits_val_grows(s, from, mid, to - 1);
        lemma_digits_val_nonneg(s, from, to - 1);
    }
}

/// Scan the digit run that starts at `from`.
pub fn scan_digits(input: &[char], from: usize) -> (end: usize)
    requires
        from <= input@.len(),
    ensures
        end == spec_digits_end(input@, from as int),
        from <= end <= input@.len(),
{
    let mut i: usize = from;
    while i < input.len() && input[i] >= '0' && input[i] <= '9'
        invariant
            from <= i <= input@.len(),
            spec_digits_end(input@, from as int) == spec_digits_end(input@, i as int),
        decreases input@.len() - i,
    {
        proof {
            assert(spec_digits_end(input@, i as int) == spec_digits_end(input@, i + 1));
        }
        i = i + 1;
    }
    proof {
        assert(spec_digits_end(input@, i as int) == i as int);
    }
    i
}

/// Value of the digit run `input[from..to)`, unless the run is empty or its
/// value exceeds `max`.
pub fn digits_value_up_to(input: &[char], from: usize, to: usize, max: u32) -> (r: Option<u32>)
    requires
        from <= to <= input@.len(),
        forall|j: int| from <= j < to ==> is_digit(#[trigger] input@[j]),
    ensures
        match r {
            Some(v) => from < to && v <= max && spec_digits_val(
                input@,
                from as int,
                to as int,
            ) == v,
            None => from == to || spec_digits_val(input@, from as int, to as int) > max,
        },
{
    if from == to {
        return None;
    }
    let mut acc: u64 = 0;
    let mut i: usize = from;
    while i < to
        invariant
            from <= i <= to <= input@.len(),
            forall|j: int| from <= j < to ==> is_digit(#[trigger] input@[j]),
            acc == spec_digits_val(input@, from as int, i as int),
            acc <= max,
            max <= u32::MAX,
        decreases to - i,
    {
        let c = input[i];
        proof {
            assert(is_digit(input@[i as int]));
        }
        let d: u32 = (c as u32) - 48;
        let next: u64 = acc * 10 + (d as u64);
        proof {
            assert(spec_digits_val(input@, from as int, i + 1) == spec_digits_val(
                input@,
                from as int,
                i as int,
            ) * 10 + (input@[i as int] as int - '0' as int));
        }
        if next > max as u64 {
            proof {
                lemma_digits_val_grows(input@, from as int, i + 1, to as int);
            }
            return None;
        }
        acc = next;
        i = i + 1;
    }
    Some(acc as u32)
}

/// The numeric value of the digit run `s[from..to)` when it is non-empty
/// and fits a `u32`; the fallback value otherwise.
pub open spec fn spec_number_or_default(s: Seq<char>, from: int, to: int, default: u32) -> u32 {
    if from < to && spec_digits_val(s, from, to) <= u32::MAX {
        spec_digits_val(s, from, to) as u32
    } else {
        default
    }
}

fn number_or_default(input: &[char], from: usize, to: usize, default: u32) -> (v: u32)
    requires
        from <= to <= input@.len(),
        forall|j: int| from <= j < to ==> is_digit(#[trigger] input@[j]),
    ensures
        v == spec_number_or_default(input@, from as int, to as int, default),
{
    match digits_value_up_to(input, from, to, u32::MAX) {
        Some(v) => v,
        None => default,
    }
}

/// The characters of a string, in order.
pub fn chars_of(input: &str) -> (r: Vec<char>)
    ensures
        r@ == input@,
{
    let n = input.unicode_len();
    let mut v: Vec<char> = Vec::new();
    let mut i: usize = 0;
    while i < n
        invariant
            i <= n,
            n == input@.len(),
            v@ == input@.take(i as int),
        decreases n - i,
    {
        v.push(input.get_char(i));
        proof {
            assert(v@ =~= input@.take(i + 1));
        }
        i = i + 1;
    }
    proof {
        assert(input@.take(n as int) =~= input@);
    }
    v
}

/// What `u32` text parsing accepts: an optional `+` sign, then one or more
/// decimal digits whose value fits.
pub open spec fn spec_parse_u32(s: Seq<char>) -> Option<u32> {
    let start: int = if s.len() > 0 && s[0] == '+' {
        1
    } else {
        0
    };
    if start < s.len() && (forall|j: int| start <= j < s.len() ==> is_digit(#[trigger] s[j]))
        && spec_digits_val(s, start, s.len() as int) <= u32::MAX {
        Some(spec_digits_val(s, start, s.len() as int) as u32)
    } else {
        None
    }
}

/// The number the whole input spells, or the fallback when it spells none.
pub fn parse_number_or_default(input: &str, default: u32) -> (r: u32)
    ensures
        r == match spec_parse_u32(input@) {
            Some(v) => v,
            None => default,
        },
{
    let chars = chars_of(input);
    let start: usize = if chars.len() > 0 && chars[0] == '+' {
        1
    } else {
        0
    };
    let end: usize = scan_digits(&chars, start);
    proof {
        lemma_digits_end(chars@, start as int);
    }
    if end < chars.len() {
        // a character that is no digit follows the run, so the whole input
        // spells no number
        return default;
    }
    match digits_value_up_to(&chars, start, end, u32::MAX) {
        Some(v) => v,
        None => default,
    }
}

// ===== Relating executable parser results to their specifications =====

/// The executable result mirrors the specified one: same consumed length,
/// same token.
pub open spec fn tok_eq(r: Option<(usize, AnsiSequence)>, m: Option<(int, AnsiToken)>) -> bool {
    match (r, m) {
        (Some((e, t)), Some((se, st))) => e == se && t@ == st,
        (None, None) => true,
        _ => false,
    }
}

/// Same, for the numeric core of a CSI sequence.
pub open spec fn num_eq(r: Option<(usize, u32)>, m: Option<(int, u32)>) -> bool {
    match (r, m) {
        (Some((e, v)), Some((se, sv))) => e == se && v == sv,
        (None, None) => true,
        _ => false,
    }
}

// ===== The escape-sequence grammar =====

/// A bare escape introducer.
pub open spec fn spec_escape(s: Seq<char>, from: int) -> Option<(int, AnsiToken)> {
    if from < s.len() && s[from] == '\u{1b}' {
        Some((from + 1, AnsiToken::Escape))
    } else {
        None
    }
}

pub fn escape(input: &[char], from: usize) -> (r: Option<(usize, AnsiSequence)>)
    requires
        from <= input@.len(),
    ensures
        tok_eq(r, spec_escape(input@, from as int)),
{
    if from < input.len() && input[from] == '\u{1b}' {
        Some((from + 1, AnsiSequence::Escape))
    } else {
        None
    }
}

/// `[`, an optional digit run, then the given terminator letter. The digit
/// run's value, or the default for an empty or oversized run.
pub open spec fn spec_csi_number(s: Seq<char>, from: int, term: char, default: u32) -> Option<
    (int, u32),
> {
    if from < s.len() && s[from] == '[' {
        let de = spec_digits_end(s, from + 1);
        if de < s.len() && s[de] == term {
            Some((de + 1, spec_number_or_default(s, from + 1, de, default)))
        } else {
            None
        }
    } else {
        None
    }
}

fn csi_number(input: &[char], from: usize, term: char, default: u32) -> (r: Option<(usize, u32)>)
    requires
        from <= input@.len(),
    ensures
        num_eq(r, spec_csi_number(input@, from as int, term, default)),
        r matches Some((e, v)) ==> from < e <= input@.len(),
{
    if from < input.len() && input[from] == '[' {
        let de: usize = scan_digits(input, from + 1);
        proof {
            lemma_digits_end(input@, from + 1);
        }
        if de < input.len() && input[de] == term {
            let v: u32 = number_or_default(input, from + 1, de, default);
            Some((de + 1, v))
        } else {
            None
        }
    } else {
        None
    }
}

/// `ESC [ x ; y H`, or `f` for the terminator; both coordinates default
/// to 1 when their digits are missing or oversized.
pub open spec fn spec_cursor_pos(s: Seq<char>, from: int) -> Option<(int, AnsiToken)> {
    if from < s.len() && s[from] == '[' {
        let xe = spec_digits_end(s, from + 1);
        let x = spec_number_or_default(s, from + 1, xe, 1);
        let ys = if xe < s.len() && s[xe] == ';' {
            xe + 1
        } else {
            xe
        };
        let ye = spec_digits_end(s, ys);
        let y = spec_number_or_default(s, ys, ye, 1);
        if ye < s.len() && (s[ye] == 'H' || s[ye] == 'f') {
            Some((ye + 1, AnsiToken::CursorPos(x as u16, y as u16)))
        } else {
            None
        }
    } else {
        None
    }
}

pub fn cursor_pos(input: &[char], from: usize) -> (r: Option<(usize, AnsiSequence)>)
    requires
        from <= input@.len(),
    ensures
        tok_eq(r, spec_cursor_pos(input@, from as int)),
{
    if from < input.len() && input[from] == '[' {
        let xe: usize = scan_digits(input, from + 1);
        proof {
            lemma_digits_end(input@, from + 1);
        }
        let x: u32 = number_or_default(input, from + 1, xe, 1);
        let ys: usize = if xe < input.len() && input[xe] == ';' {
            xe + 1
        } else {
            xe
        };
        let ye: usize = scan_digits(input, ys);
        proof {
            lemma_digits_end(input@, ys as int);
        }
        let y: u32 = number_or_default(input, ys, ye, 1);
        if ye < input.len() && (input[ye] == 'H' || input[ye] == 'f') {
            Some((
                ye + 1,
                AnsiSequence::CursorPos(
                    #[verifier::truncate] (x as u16),
                    #[verifier::truncate] (y as u16),
                ),
            ))
        } else {
            None
        }
    } else {
        None
    }
}

/// `ESC [ n A`: move the cursor up, default 1.
pub open spec fn spec_cursor_up(s: Seq<char>, from: int) -> Option<(int, AnsiToken)> {
    match spec_csi_number(s, from, 'A', 1) {
        Some((e, v)) => Some((e, AnsiToken::CursorUp(v as u16))),
        None => None,
    }
}

pub fn cursor_up(input: &[char], from: usize) -> (r: Option<(usize, AnsiSequence)>)
    requires
        from <= input@.len(),
    ensures
        tok_eq(r, spec_cursor_up(input@, from as int)),
{
    match csi_number(input, from, 'A', 1) {
        Some((e, v)) => Some((e, AnsiSequence::CursorUp(#[verifier::truncate] (v as u16)))),
        None => None,
    }
}

/// `ESC [ n B`: move the cursor down, default 1.
pub open spec fn spec_cursor_down(s: Seq<char>, from: int) -> Option<(int, AnsiToken)> {
    match spec_csi_number(s, from, 'B', 1) {
        Some((e, v)) => Some((e, AnsiToken::CursorDown(v as u16))),
        None => None,
    }
}

pub fn cursor_down(input: &[char], from: usize) -> (r: Option<(usize, AnsiSequence)>)
    requires
        from <= input@.len(),
    ensures
        tok_eq(r, spec_cursor_down(input@, from as int)),
{
    match csi_number(input, from, 'B', 1) {
        Some((e, v)) => Some((e, AnsiSequence::CursorDown(#[verifier::truncate] (v as u16)))),
        None => None,
    }
}

/// `ESC [ n C`: move the cursor forward, default 1.
pub open spec fn spec_cursor_forward(s: Seq<char>, from: int) -> Option<(int, AnsiToken)> {
    match spec_csi_number(s, from, 'C', 1) {
        Some((e, v)) => Some((e, AnsiToken::CursorForward(v as u16))),
        None => None,
    }
}

pub fn cursor_forward(input: &[char], from: usize) -> (r: Option<(usize, AnsiSequence)>)
    requires
        from <= input@.len(),
    ensures
        tok_eq(r, spec_cursor_forward(input@, from as int)),
{
    match csi_number(input, from, 'C', 1) {
        Some((e, v)) => Some((e, AnsiSequence::CursorForward(#[verifier::truncate] (v as u16)))),
        None => None,
    }
}

/// `ESC [ n D`: move the cursor backward, default 1.
pub open spec fn spec_cursor_backward(s: Seq<char>, from: int) -> Option<(int, AnsiToken)> {
    match spec_csi_number(s, from, 'D', 1) {
        Some((e, v)) => Some((e, AnsiToken::CursorBackward(v as u16))),
        None => None,
    }
}

pub fn cursor_backward(input: &[char], from: usize) -> (r: Option<(usize, AnsiSequence)>)
    requires
        from <= input@.len(),
    ensures
        tok_eq(r, spec_cursor_backward(input@, from as int)),
{
    match csi_number(input, from, 'D', 1) {
        Some((e, v)) => Some((e, AnsiSequence::CursorBackward(#[verifier::truncate] (v as u16)))),
        None => None,
    }
}

/// `ESC [ n K`: erase in line; only parameters 0 through 3 parse.
pub open spec fn spec_erase_in_line(s: Seq<char>, from: int) -> Option<(int, AnsiToken)> {
    match spec_csi_number(s, from, 'K', 0) {
        Some((e, v)) => if v > 3 {
            None
        } else {
            Some((e, AnsiToken::EraseInLine(v as u8)))
        },
        None => None,
    }
}

pub fn erase_in_line(input: &[char], from: usize) -> (r: Option<(usize, AnsiSequence)>)
    requires
        from <= input@.len(),
    ensures
        tok_eq(r, spec_erase_in_line(input@, from as int)),
{
    match csi_number(input, from, 'K', 0) {
        Some((e, v)) => if v > 3 {
            None
        } else {
            Some((e, AnsiSequence::EraseInLine(v as u8)))
        },
        None => None,
    }
}

/// `ESC [ n J`: erase in display; only parameters 0 through 3 parse.
pub open spec fn spec_erase_in_display(s: Seq<char>, from: int) -> Option<(int, AnsiToken)> {
    match spec_csi_number(s, from, 'J', 0) {
        Some((e, v)) => if v > 3 {
            None
        } else {
            Some((e, AnsiToken::EraseInDisplay(v as u8)))
        },
        None => None,
    }
}

pub fn erase_in_display(input: &[char], from: usize) -> (r: Option<(usize, AnsiSequence)>)
    requires
        from <= input@.len(),
    ensures
        tok_eq(r, spec_erase_in_display(input@, from as int)),
{
    match csi_number(input, from, 'J', 0) {
        Some((e, v)) => if v > 3 {
            None
        } else {
            Some((e, AnsiSequence::EraseInDisplay(v as u8)))
        },
        None => None,
    }
}

// ===== The graphics-mode (SGR) parameter list =====

/// One round of the graphics-parameter loop: an optional `;`, then a digit
/// run. The round yields the parameter when the run is non-empty and its
/// value fits an `u8`; the position just past what it consumed is returned
/// either way.
pub open spec fn spec_gm_round(s: Seq<char>, from: int) -> (int, Option<u8>) {
    let start = if from < s.len() && s[from] == ';' {
        from + 1
    } else {
        from
    };
    let de = spec_digits_end(s, start);
    if start < de && spec_digits_val(s, start, de) <= u8::MAX {
        (de, Some(spec_digits_val(s, start, de) as u8))
    } else {
        (de, None)
    }
}

/// Up to `rounds` further parameter rounds; the list ends early at the
/// first round that yields no parameter.
pub open spec fn spec_gm_params(s: Seq<char>, from: int, rounds: int) -> (int, Seq<u8>)
    decreases rounds when rounds >= 0
{
    if rounds <= 0 {
        (from, Seq::empty())
    } else {
        let (e, p) = spec_gm_round(s, from);
        match p {
            Some(v) => {
                let (e2, ps) = spec_gm_params(s, e, rounds - 1);
                (e2, seq![v] + ps)
            },
            None => (e, Seq::empty()),
        }
    }
}

proof fn lemma_gm_round_bounds(s: Seq<char>, from: int)
    requires
        0 <= from <= s.len(),
    ensures
        from <= spec_gm_round(s, from).0 <= s.len(),
{
    let start = if from < s.len() && s[from] == ';' {
        from + 1
    } else {
        from
    };
    lemma_digits_end(s, start);
}

proof fn lemma_gm_params_bounds(s: Seq<char>, from: int, rounds: int)
    requires
        0 <= from <= s.len(),
        0 <= rounds,
    ensures
        from <= spec_gm_params(s, from, rounds).0 <= s.len(),
    decreases rounds,
{
    if rounds > 0 {
        lemma_gm_round_bounds(s, from);
        let (e, p) = spec_gm_round(s, from);
        if p is Some {
            lemma_gm_params_bounds(s, e, rounds - 1);
        }
    }
}

fn gm_round(input: &[char], from: usize) -> (r: (usize, Option<u8>))
    requires
        from <= input@.len(),
    ensures
        r.0 == spec_gm_round(input@, from as int).0,
        r.1 == spec_gm_round(input@, from as int).1,
        from <= r.0 <= input@.len(),
{
    let start: usize = if from < input.len() && input[from] == ';' {
        from + 1
    } else {
        from
    };
    let de: usize = scan_digits(input, start);
    proof {
        lemma_digits_end(input@, start as int);
    }
    match digits_value_up_to(input, start, de, 255) {
        Some(v) => (de, Some(v as u8)),
        None => (de, None),
    }
}

/// `ESC [`, up to five parameter rounds, then `m`.
pub open spec fn spec_graphics_mode(s: Seq<char>, from: int) -> Option<(int, AnsiToken)> {
    if from < s.len() && s[from] == '[' {
        let (e, ps) = spec_gm_params(s, from + 1, 5);
        if e < s.len() && s[e] == 'm' {
            Some((e + 1, AnsiToken::SetGraphicsMode(ps)))
        } else {
            None
        }
    } else {
        None
    }
}

pub fn graphics_mode(input: &[char], from: usize) -> (r: Option<(usize, AnsiSequence)>)
    requires
        from <= input@.len(),
    ensures
        tok_eq(r, spec_graphics_mode(input@, from as int)),
{
    if !(from < input.len() && input[from] == '[') {
        return None;
    }
    let ghost total: (int, Seq<u8>) = spec_gm_params(input@, from + 1, 5);
    let mut pos: usize = from + 1;
    let mut params: Vec<u8> = Vec::new();
    let mut k: usize = 0;
    let mut broke: bool = false;
    while k < 5 && !broke
        invariant
            from + 1 <= pos <= input@.len(),
            k <= 5,
            total == spec_gm_params(input@, from + 1, 5),
            !broke ==> {
                let rest = spec_gm_params(input@, pos as int, 5 - k as int);
                total.0 == rest.0 && total.1 == params@ + rest.1
            },
            broke ==> total.0 == pos as int && total.1 == params@,
        decreases 5 - k + (if broke { 0int } else { 1int }),
    {
        let (e, p) = gm_round(input, pos);
        match p {
            Some(v) => {
                proof {
                    let rest = spec_gm_params(input@, pos as int, 5 - k as int);
                    let rest2 = spec_gm_params(input@, e as int, 5 - (k + 1) as int);
                    assert(rest.0 == rest2.0 && rest.1 == seq![v] + rest2.1);
                    assert(params@ + rest.1 =~= (params@ + seq![v]) + rest2.1);
                    assert(params@.push(v) =~= params@ + seq![v]);
                }
                params.push(v);
                pos = e;
                k = k + 1;
            },
            None => {
                proof {
                    let rest = spec_gm_params(input@, pos as int, 5 - k as int);
                    assert(rest.0 == e as int && rest.1 =~= Seq::<u8>::empty());
                    assert(params@ + Seq::<u8>::empty() =~= params@);
                }
                pos = e;
                broke = true;
            },
        }
    }
    proof {
        if !broke {
            assert(spec_gm_params(input@, pos as int, 0) == (pos as int, Seq::<u8>::empty()));
            assert(params@ + Seq::<u8>::empty() =~= params@);
        }
    }
    if pos < input.len() && input[pos] == 'm' {
        Some((pos + 1, AnsiSequence::SetGraphicsMode(params)))
    } else {
        None
    }
}

// ===== Fixed-text escape sequences =====

/// `ESC ] 0 ;`: the title-set introducer.
pub open spec fn spec_set_title_mode(s: Seq<char>, from: int) -> Option<(int, AnsiToken)> {
    if from + 3 <= s.len() && s[from] == ']' && s[from + 1] == '0' && s[from + 2] == ';' {
        Some((from + 3, AnsiToken::SetTitleMode))
    } else {
        None
    }
}

pub fn set_title_mode(input: &[char], from: usize) -> (r: Option<(usize, AnsiSequence)>)
    requires
        from <= input@.len(),
    ensures
        tok_eq(r, spec_set_title_mode(input@, from as int)),
{
    if input.len() - from >= 3 && input[from] == ']' && input[from + 1] == '0' && input[from + 2]
        == ';' {
        Some((from + 3, AnsiSequence::SetTitleMode))
    } else {
        None
    }
}

/// `ESC [ ? 2 0 0 4 h`: turn bracketed paste on.
pub open spec fn spec_set_bracketed_paste_mode_on(s: Seq<char>, from: int) -> Option<
    (int, AnsiToken),
> {
    if from + 7 <= s.len() && s[from] == '[' && s[from + 1] == '?' && s[from + 2] == '2' && s[from
        + 3] == '0' && s[from + 4] == '0' && s[from + 5] == '4' && s[from + 6] == 'h' {
        Some((from + 7, AnsiToken::SetBracketedPasteMode(true)))
    } else {
        None
    }
}

pub fn set_bracketed_paste_mode_on(input: &[char], from: usize) -> (r: Option<
    (usize, AnsiSequence),
>)
    requires
        from <= input@.len(),
    ensures
        tok_eq(r, spec_set_bracketed_paste_mode_on(input@, from as int)),
{
    if input.len() - from >= 7 && input[from] == '[' && input[from + 1] == '?' && input[from + 2]
        == '2' && input[from + 3] == '0' && input[from + 4] == '0' && input[from + 5] == '4'
        && input[from + 6] == 'h' {
        Some((from + 7, AnsiSequence::SetBracketedPasteMode(true)))
    } else {
        None
    }
}

/// `ESC [ ? 2 0 0 4 l`: turn bracketed paste off.
pub open spec fn spec_set_bracketed_paste_mode_off(s: Seq<char>, from: int) -> Option<
    (int, AnsiToken),
> {
    if from + 7 <= s.len() && s[from] == '[' && s[from + 1] == '?' && s[from + 2] == '2' && s[from
        + 3] == '0' && s[from + 4] == '0' && s[from + 5] == '4' && s[from + 6] == 'l' {
        Some((from + 7, AnsiToken::SetBracketedPasteMode(false)))
    } else {
        None
    }
}

pub fn set_bracketed_paste_mode_off(input: &[char], from: usize) -> (r: Option<
    (usize, AnsiSequence),
>)
    requires
        from <= input@.len(),
    ensures
        tok_eq(r, spec_set_bracketed_paste_mode_off(input@, from as int)),
{
    if input.len() - from >= 7 && input[from] == '[' && input[from + 1] == '?' && input[from + 2]
        == '2' && input[from + 3] == '0' && input[from + 4] == '0' && input[from + 5] == '4'
        && input[from + 6] == 'l' {
        Some((from + 7, AnsiSequence::SetBracketedPasteMode(false)))
    } else {
        None
    }
}

/// `ESC [ ? 2 5 h`: show the cursor.
pub open spec fn spec_show_cursor(s: Seq<char>, from: int) -> Option<(int, AnsiToken)> {
    if from + 5 <= s.len() && s[from] == '[' && s[from + 1] == '?' && s[from + 2] == '2' && s[from
        + 3] == '5' && s[from + 4] == 'h' {
        Some((from + 5, AnsiToken::ShowCursor))
    } else {
        None
    }
}

pub fn show_cursor(input: &[char], from: usize) -> (r: Option<(usize, AnsiSequence)>)
    requires
        from <= input@.len(),
    ensures
        tok_eq(r, spec_show_cursor(input@, from as int)),
{
    if input.len() - from >= 5 && input[from] == '[' && input[from + 1] == '?' && input[from + 2]
        == '2' && input[from + 3] == '5' && input[from + 4] == 'h' {
        Some((from + 5, AnsiSequence::ShowCursor))
    } else {
        None
    }
}

/// `ESC [ ? 2 5 l`: hide the cursor.
pub open spec fn spec_hide_cursor(s: Seq<char>, from: int) -> Option<(int, AnsiToken)> {
    if from + 5 <= s.len() && s[from] == '[' && s[from + 1] == '?' && s[from + 2] == '2' && s[from
        + 3] == '5' && s[from + 4] == 'l' {
        Some((from + 5, AnsiToken::HideCursor))
    } else {
        None
    }
}

pub fn hide_cursor(input: &[char], from: usize) -> (r: Option<(usize, AnsiSequence)>)
    requires
        from <= input@.len(),
    ensures
        tok_eq(r, spec_hide_cursor(input@, from as int)),
{
    if input.len() - from >= 5 && input[from] == '[' && input[from + 1] == '?' && input[from + 2]
        == '2' && input[from + 3] == '5' && input[from + 4] == 'l' {
        Some((from + 5, AnsiSequence::HideCursor))
    } else {
        None
    }
}

/// `ESC [ ? 7 h`: turn automatic wrapping on.
pub open spec fn spec_autowrap_on(s: Seq<char>, from: int) -> Option<(int, AnsiToken)> {
    if from + 4 <= s.len() && s[from] == '[' && s[from + 1] == '?' && s[from + 2] == '7' && s[from
        + 3] == 'h' {
        Some((from + 4, AnsiToken::AutoWrap(true)))
    } else {
        None
    }
}

pub fn autowrap_on(input: &[char], from: usize) -> (r: Option<(usize, AnsiSequence)>)
    requires
        from <= input@.len(),
    ensures
        tok_eq(r, spec_autowrap_on(input@, from as int)),
{
    if input.len() - from >= 4 && input[from] == '[' && input[from + 1] == '?' && input[from + 2]
        == '7' && input[from + 3] == 'h' {
        Some((from + 4, AnsiSequence::AutoWrap(true)))
    } else {
        None
    }
}

/// `ESC [ ? 7 l`: turn automatic wrapping off.
pub open spec fn spec_autowrap_off(s: Seq<char>, from: int) -> Option<(int, AnsiToken)> {
    if from + 4 <= s.len() && s[from] == '[' && s[from + 1] == '?' && s[from + 2] == '7' && s[from
        + 3] == 'l' {
        Some((from + 4, AnsiToken::AutoWrap(false)))
    } else {
        None
    }
}

pub fn autowrap_off(input: &[char], from: usize) -> (r: Option<(usize, AnsiSequence)>)
    requires
        from <= input@.len(),
    ensures
        tok_eq(r, spec_autowrap_off(input@, from as int)),
{
    if input.len() - from >= 4 && input[from] == '[' && input[from + 1] == '?' && input[from + 2]
        == '7' && input[from + 3] == 'l' {
        Some((from + 4, AnsiSequence::AutoWrap(false)))
    } else {
        None
    }
}

/// `ESC ( B`: select the ASCII character set.
pub open spec fn spec_set_char_set(s: Seq<char>, from: int) -> Option<(int, AnsiToken)> {
    if from + 2 <= s.len() && s[from] == '(' && s[from + 1] == 'B' {
        Some((from + 2, AnsiToken::SetCharSet(CharSet::ASCII)))
    } else {
        None
    }
}

pub fn set_char_set(input: &[char], from: usize) -> (r: Option<(usize, AnsiSequence)>)
    requires
        from <= input@.len(),
    ensures
        tok_eq(r, spec_set_char_set(input@, from as int)),
{
    if input.len() - from >= 2 && input[from] == '(' && input[from + 1] == 'B' {
        Some((from + 2, AnsiSequence::SetCharSet(CharSet::ASCII)))
    } else {
        None
    }
}

/// The bell control byte.
pub open spec fn spec_parse_bel(s: Seq<char>, from: int) -> Option<(int, AnsiToken)> {
    if from < s.len() && s[from] == '\u{7}' {
        Some((from + 1, AnsiToken::Bell))
    } else {
        None
    }
}

pub fn parse_bel(input: &[char], from: usize) -> (r: Option<(usize, AnsiSequence)>)
    requires
        from <= input@.len(),
    ensures
        tok_eq(r, spec_parse_bel(input@, from as int)),
{
    if from < input.len() && input[from] == '\u{7}' {
        Some((from + 1, AnsiSequence::Bell))
    } else {
        None
    }
}

/// The backspace control byte.
pub open spec fn spec_parse_back(s: Seq<char>, from: int) -> Option<(int, AnsiToken)> {
    if from < s.len() && s[from] == '\u{8}' {
        Some((from + 1, AnsiToken::Back))
    } else {
        None
    }
}

pub fn parse_back(input: &[char], from: usize) -> (r: Option<(usize, AnsiSequence)>)
    requires
        from <= input@.len(),
    ensures
        tok_eq(r, spec_parse_back(input@, from as int)),
{
    if from < input.len() && input[from] == '\u{8}' {
        Some((from + 1, AnsiSequence::Back))
    } else {
        None
    }
}

/// Any single character, as a literal.
pub open spec fn spec_parse_char(s: Seq<char>, from: int) -> Option<(int, AnsiToken)> {
    if from < s.len() {
        Some((from + 1, AnsiToken::Character(s[from])))
    } else {
        None
    }
}

pub fn parse_char(input: &[char], from: usize) -> (r: Option<(usize, AnsiSequence)>)
    requires
        from <= input@.len(),
    ensures
        tok_eq(r, spec_parse_char(input@, from as int)),
{
    if from < input.len() {
        Some((from + 1, AnsiSequence::Character(input[from])))
    } else {
        None
    }
}

// ===== The escape-sequence alternatives, in priority order =====

/// Every recognized continuation of an escape introducer, tried in a fixed
/// priority order.
pub open spec fn spec_combined(s: Seq<char>, from: int) -> Option<(int, AnsiToken)> {
    if spec_escape(s, from) is Some {
        spec_escape(s, from)
    } else if spec_cursor_pos(s, from) is Some {
        spec_cursor_pos(s, from)
    } else if spec_cursor_up(s, from) is Some {
        spec_cursor_up(s, from)
    } else if spec_cursor_down(s, from) is Some {
        spec_cursor_down(s, from)
    } else if spec_cursor_forward(s, from) is Some {
        spec_cursor_forward(s, from)
    } else if spec_cursor_backward(s, from) is Some {
        spec_cursor_backward(s, from)
    } else if spec_graphics_mode(s, from) is Some {
        spec_graphics_mode(s, from)
    } else if spec_set_title_mode(s, from) is Some {
        spec_set_title_mode(s, from)
    } else if spec_set_bracketed_paste_mode_on(s, from) is Some {
        spec_set_bracketed_paste_mode_on(s, from)
    } else if spec_set_bracketed_paste_mode_off(s, from) is Some {
        spec_set_bracketed_paste_mode_off(s, from)
    } else if spec_show_cursor(s, from) is Some {
        spec_show_cursor(s, from)
    } else if spec_hide_cursor(s, from) is Some {
        spec_hide_cursor(s, from)
    } else if spec_autowrap_on(s, from) is Some {
        spec_autowrap_on(s, from)
    } else if spec_autowrap_off(s, from) is Some {
        spec_autowrap_off(s, from)
    } else if spec_erase_in_line(s, from) is Some {
        spec_erase_in_line(s, from)
    } else if spec_erase_in_display(s, from) is Some {
        spec_erase_in_display(s, from)
    } else {
        spec_set_char_set(s, from)
    }
}

pub fn combined(input: &[char], from: usize) -> (r: Option<(usize, AnsiSequence)>)
    requires
        from <= input@.len(),
    ensures
        tok_eq(r, spec_combined(input@, from as int)),
{
    if let Some(r) = escape(input, from) {
        return Some(r);
    }
    if let Some(r) = cursor_pos(input, from) {
        return Some(r);
    }
    if let Some(r) = cursor_up(input, from) {
        return Some(r);
    }
    if let Some(r) = cursor_down(input, from) {
        return Some(r);
    }
    if let Some(r) = cursor_forward(input, from) {
        return Some(r);
    }
    if let Some(r) = cursor_backward(input, from) {
        return Some(r);
    }
    if let Some(r) = graphics_mode(input, from) {
        return Some(r);
    }
    if let Some(r) = set_title_mode(input, from) {
        return Some(r);
    }
    if let Some(r) = set_bracketed_paste_mode_on(input, from) {
        return Some(r);
    }
    if let Some(r) = set_bracketed_paste_mode_off(input, from) {
        return Some(r);
    }
    if let Some(r) = show_cursor(input, from) {
        return Some(r);
    }
    if let Some(r) = hide_cursor(input, from) {
        return Some(r);
    }
    if let Some(r) = autowrap_on(input, from) {
        return Some(r);
    }
    if let Some(r) = autowrap_off(input, from) {
        return Some(r);
    }
    if let Some(r) = erase_in_line(input, from) {
        return Some(r);
    }
    if let Some(r) = erase_in_display(input, from) {
        return Some(r);
    }
    set_char_set(input, from)
}

/// An escape introducer followed by a recognized continuation.
pub open spec fn spec_parse_escape(s: Seq<char>, from: int) -> Option<(int, AnsiToken)> {
    if from < s.len() && s[from] == '\u{1b}' {
        spec_combined(s, from + 1)
    } else {
        None
    }
}

pub fn parse_escape(input: &[char], from: usize) -> (r: Option<(usize, AnsiSequence)>)
    requires
        from <= input@.len(),
    ensures
        tok_eq(r, spec_parse_escape(input@, from as int)),
{
    if from < input.len() && input[from] == '\u{1b}' {
        combined(input, from + 1)
    } else {
        None
    }
}

// ===== The tokenizer =====

/// One tokenizer step at `from`: a complete escape sequence, a bell, a
/// backspace, or one literal character. A malformed escape sequence is not
/// consumed as a unit: only the introducer becomes a literal, and scanning
/// resumes at the following character.
pub open spec fn spec_step(s: Seq<char>, from: int) -> (int, AnsiToken)
    recommends
        0 <= from < s.len(),
{
    match spec_parse_escape(s, from) {
        Some(r) => r,
        None => match spec_parse_bel(s, from) {
            Some(r) => r,
            None => match spec_parse_back(s, from) {
                Some(r) => r,
                None => (from + 1, AnsiToken::Character(s[from])),
            },
        },
    }
}

pub proof fn lemma_combined_bounds(s: Seq<char>, from: int)
    requires
        0 <= from <= s.len(),
    ensures
        spec_combined(s, from) matches Some((e, t)) ==> from < e <= s.len(),
{
    if from < s.len() && s[from] == '[' {
        lemma_digits_end(s, from + 1);
        let xe = spec_digits_end(s, from + 1);
        let ys = if xe < s.len() && s[xe] == ';' {
            xe + 1
        } else {
            xe
        };
        lemma_digits_end(s, ys);
        lemma_gm_params_bounds(s, from + 1, 5);
    }
}

pub proof fn lemma_step_bounds(s: Seq<char>, from: int)
    requires
        0 <= from < s.len(),
    ensures
        from < spec_step(s, from).0 <= s.len(),
{
    lemma_combined_bounds(s, from + 1);
}

/// The whole token sequence of `s` from position `from` on.
pub open spec fn spec_parse(s: Seq<char>, from: int) -> Seq<AnsiToken>
    decreases s.len() - from when 0 <= from <= s.len()
{
    if from >= s.len() {
        Seq::empty()
    } else {
        let (e, t) = spec_step(s, from);
        let next = if from < e <= s.len() {
            e
        } else {
            from + 1
        };
        seq![t] + spec_parse(s, next)
    }
}

/// The token views of a token vector, in order.
pub open spec fn toks_of(v: Seq<AnsiSequence>) -> Seq<AnsiToken> {
    Seq::new(v.len(), |i: int| v[i]@)
}

proof fn lemma_toks_push(v: Seq<AnsiSequence>, t: AnsiSequence)
    ensures
        toks_of(v.push(t)) == toks_of(v) + seq![t@],
{
    assert(toks_of(v.push(t)) =~~= toks_of(v) + seq![t@]);
}

proof fn lemma_concat_assoc(a: Seq<AnsiToken>, b: Seq<AnsiToken>, c: Seq<AnsiToken>)
    ensures
        (a + b) + c == a + (b + c),
{
    assert((a + b) + c =~~= a + (b + c));
}

/// Tokenize a character slice completely.
pub fn parse_chars(input: &[char]) -> (r: Vec<AnsiSequence>)
    ensures
        toks_of(r@) == spec_parse(input@, 0),
{
    let mut toks: Vec<AnsiSequence> = Vec::new();
    let mut i: usize = 0;
    while i < input.len()
        invariant
            i <= input@.len(),
            spec_parse(input@, 0) == toks_of(toks@) + spec_parse(input@, i as int),
        decreases input@.len() - i,
    {
        proof {
            lemma_step_bounds(input@, i as int);
        }
        let ghost step = spec_step(input@, i as int);
        let mut tok: AnsiSequence;
        let mut next: usize;
        if let Some((e, t)) = parse_escape(input, i) {
            tok = t;
            next = e;
        } else if let Some((e, t)) = parse_bel(input, i) {
            tok = t;
            next = e;
        } else if let Some((e, t)) = parse_back(input, i) {
            tok = t;
            next = e;
        } else {
            tok = AnsiSequence::Character(input[i]);
            next = i + 1;
        }
        proof {
            assert(tok@ == step.1 && next as int == step.0);
            assert(spec_parse(input@, i as int) == seq![step.1] + spec_parse(input@, step.0));
            lemma_toks_push(toks@, tok);
            lemma_concat_assoc(toks_of(toks@), seq![tok@], spec_parse(input@, next as int));
        }
        toks.push(tok);
        i = next;
    }
    proof {
        assert(spec_parse(input@, i as int) =~= Seq::<AnsiToken>::empty());
        assert(toks_of(toks@) + Seq::<AnsiToken>::empty() =~~= toks_of(toks@));
    }
    toks
}

/// Tokenize a whole input string. Every input tokenizes: what no escape
/// sequence matches degrades into literal characters.
pub fn parse(input: &str) -> (r: Vec<AnsiSequence>)
    ensures
        toks_of(r@) == spec_parse(input@, 0),
{
    let chars = chars_of(input);
    parse_chars(chars.as_slice())
}

// ===== What holds of every tokenized input =====

proof fn lemma_plain_text_at(s: Seq<char>, from: int)
    requires
        0 <= from <= s.len(),
        forall|j: int| 0 <= j < s.len() ==> #[trigger] s[j] != '\u{1b}' && s[j] != '\u{7}' && s[j]
            != '\u{8}',
    ensures
        spec_parse(s, from).len() == s.len() - from,
        forall|j: int| from <= j < s.len() ==> spec_parse(s, from)[j - from]
            == AnsiToken::Character(s[j]),
    decreases s.len() - from,
{
    if from < s.len() {
        lemma_plain_text_at(s, from + 1);
    }
}

/// On input without escape, bell or backspace bytes the tokenizer yields
/// exactly one literal `Character` token per input character, in order.
pub proof fn lemma_parse_plain_text(s: Seq<char>)
    requires
        forall|j: int| 0 <= j < s.len() ==> #[trigger] s[j] != '\u{1b}' && s[j] != '\u{7}' && s[j]
            != '\u{8}',
    ensures
        spec_parse(s, 0).len() == s.len(),
        forall|j: int| 0 <= j < s.len() ==> spec_parse(s, 0)[j] == AnsiToken::Character(s[j]),
{
    lemma_plain_text_at(s, 0);
}

} // verus!
