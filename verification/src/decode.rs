use vstd::prelude::*;

verus! {

/// A UTF-8 continuation byte.
pub open spec fn is_cont_byte(b: u8) -> bool {
    0x80 <= b && b <= 0xBF
}

/// One decoding step at position `i`: the scalar value encoded there and
/// how many bytes it takes. A byte that starts no well-formed sequence
/// (including overlong forms and surrogate encodings) decodes to the
/// replacement character and consumes exactly one byte, so decoding can
/// always continue.
pub open spec fn spec_utf8_step(s: Seq<u8>, i: int) -> (int, char)
    recommends
        0 <= i < s.len(),
{
    let b0 = s[i];
    if b0 < 0x80 {
        (1, b0 as char)
    } else if 0xC2 <= b0 && b0 <= 0xDF && i + 1 < s.len() && is_cont_byte(s[i + 1]) {
        (2, (((b0 - 0xC0) as int) * 0x40 + ((s[i + 1] - 0x80) as int)) as char)
    } else if 0xE0 <= b0 && b0 <= 0xEF && i + 2 < s.len() && (if b0 == 0xE0 {
        0xA0 <= s[i + 1] && s[i + 1] <= 0xBF
    } else if b0 == 0xED {
        0x80 <= s[i + 1] && s[i + 1] <= 0x9F
    } else {
        is_cont_byte(s[i + 1])
    }) && is_cont_byte(s[i + 2]) {
        (
            3,
            (((b0 - 0xE0) as int) * 0x1000 + ((s[i + 1] - 0x80) as int) * 0x40 + ((s[i + 2]
                - 0x80) as int)) as char,
        )
    } else if 0xF0 <= b0 && b0 <= 0xF4 && i + 3 < s.len() && (if b0 == 0xF0 {
        0x90 <= s[i + 1] && s[i + 1] <= 0xBF
    } else if b0 == 0xF4 {
        0x80 <= s[i + 1] && s[i + 1] <= 0x8F
    } else {
        is_cont_byte(s[i + 1])
    }) && is_cont_byte(s[i + 2]) && is_cont_byte(s[i + 3]) {
        (
            4,
            (((b0 - 0xF0) as int) * 0x40000 + ((s[i + 1] - 0x80) as int) * 0x1000 + ((s[i + 2]
                - 0x80) as int) * 0x40 + ((s[i + 3] - 0x80) as int)) as char,
        )
    } else {
        (1, '\u{fffd}')
    }
}

/// The characters that the byte stream decodes to, from position `i` on.
pub open spec fn spec_decode_utf8(s: Seq<u8>, i: int) -> Seq<char>
    decreases s.len() - i when 0 <= i <= s.len()
{
    if i >= s.len() {
        Seq::empty()
    } else {
        let (n, c) = spec_utf8_step(s, i);
        let next = if i < i + n <= s.len() {
            i + n
        } else {
            i + 1
        };
        seq![c] + spec_decode_utf8(s, next)
    }
}

/// Relies on `char::from_u32` of std: it returns the character for exactly
/// the Unicode scalar values, that is all code points except the surrogate
/// range.
#[verifier::external_body]
fn char_from_u32(v: u32) -> (r: Option<char>)
    ensures
        r is Some <==> (v < 0xD800 || (0xE000 <= v && v <= 0x10FFFF)),
        r matches Some(c) ==> c as u32 == v && c == (v as char),
{
    char::from_u32(v)
}

/// Decode a chunk of shell output, replacing every malformed byte with the
/// replacement character instead of failing: a multi-byte character split
/// across two reads must not bring the session down.
pub fn decode_utf8_lossy(bytes: &[u8]) -> (r: Vec<char>)
    ensures
        r@ == spec_decode_utf8(bytes@, 0),
{
    let mut out: Vec<char> = Vec::new();
    let mut i: usize = 0;
    while i < bytes.len()
        invariant
            i <= bytes@.len(),
            spec_decode_utf8(bytes@, 0) == out@ + spec_decode_utf8(bytes@, i as int),
        decreases bytes@.len() - i,
    {
        let ghost step = spec_utf8_step(bytes@, i as int);
        let b0 = bytes[i];
        let c: char;
        let n: usize;
        if b0 < 0x80 {
            c = b0 as char;
            n = 1;
        } else if 0xC2 <= b0 && b0 <= 0xDF && bytes.len() - i > 1 && 0x80 <= bytes[i + 1]
            && bytes[i + 1] <= 0xBF {
            let v: u32 = ((b0 - 0xC0) as u32) * 0x40 + ((bytes[i + 1] - 0x80) as u32);
            match char_from_u32(v) {
                Some(ch) => {
                    c = ch;
                },
                None => {
                    proof {
                        assert(false);
                    }
                    c = '\u{fffd}';
                },
            }
            n = 2;
        } else if 0xE0 <= b0 && b0 <= 0xEF && bytes.len() - i > 2 && (if b0 == 0xE0 {
            0xA0 <= bytes[i + 1] && bytes[i + 1] <= 0xBF
        } else if b0 == 0xED {
            0x80 <= bytes[i + 1] && bytes[i + 1] <= 0x9F
        } else {
            0x80 <= bytes[i + 1] && bytes[i + 1] <= 0xBF
        }) && 0x80 <= bytes[i + 2] && bytes[i + 2] <= 0xBF {
            let v: u32 = ((b0 - 0xE0) as u32) * 0x1000 + ((bytes[i + 1] - 0x80) as u32) * 0x40 + ((
            bytes[i + 2] - 0x80) as u32);
            match char_from_u32(v) {
                Some(ch) => {
                    c = ch;
                },
                None => {
                    proof {
                        assert(false);
                    }
                    c = '\u{fffd}';
                },
            }
            n = 3;
        } else if 0xF0 <= b0 && b0 <= 0xF4 && bytes.len() - i > 3 && (if b0 == 0xF0 {
            0x90 <= bytes[i + 1] && bytes[i + 1] <= 0xBF
        } else if b0 == 0xF4 {
            0x80 <= bytes[i + 1] && bytes[i + 1] <= 0x8F
        } else {
            0x80 <= bytes[i + 1] && bytes[i + 1] <= 0xBF
        }) && 0x80 <= bytes[i + 2] && bytes[i + 2] <= 0xBF && 0x80 <= bytes[i + 3] && bytes[i + 3]
            <= 0xBF {
            let v: u32 = ((b0 - 0xF0) as u32) * 0x40000 + ((bytes[i + 1] - 0x80) as u32) * 0x1000
                + ((bytes[i + 2] - 0x80) as u32) * 0x40 + ((bytes[i + 3] - 0x80) as u32);
            match char_from_u32(v) {
                Some(ch) => {
                    c = ch;
                },
                None => {
                    proof {
                        assert(false);
                    }
                    c = '\u{fffd}';
                },
            }
            n = 4;
        } else {
            c = '\u{fffd}';
            n = 1;
        }
        proof {
            assert(c == step.1 && n as int == step.0);
            assert(spec_decode_utf8(bytes@, i as int) == seq![step.1] + spec_decode_utf8(
                bytes@,
                i + step.0,
            ));
            assert(out@.push(c) =~= out@ + seq![c]);
            assert((out@ + seq![c]) + spec_decode_utf8(bytes@, i + step.0) =~= out@ + (seq![c]
                + spec_decode_utf8(bytes@, i + step.0)));
        }
        out.push(c);
        i = i + n;
    }
    proof {
        assert(spec_decode_utf8(bytes@, i as int) =~= Seq::<char>::empty());
        assert(out@ + Seq::<char>::empty() =~= out@);
    }
    out
}

/// Decoding well-formed ASCII is the identity.
pub proof fn lemma_decode_ascii(s: Seq<u8>)
    requires
        forall|j: int| 0 <= j < s.len() ==> s[j] < 0x80,
    ensures
        spec_decode_utf8(s, 0).len() == s.len(),
        forall|j: int| 0 <= j < s.len() ==> spec_decode_utf8(s, 0)[j] == s[j] as char,
{
    lemma_decode_ascii_at(s, 0);
}

proof fn lemma_decode_ascii_at(s: Seq<u8>, from: int)
    requires
        0 <= from <= s.len(),
        forall|j: int| 0 <= j < s.len() ==> s[j] < 0x80,
    ensures
        spec_decode_utf8(s, from).len() == s.len() - from,
        forall|j: int| from <= j < s.len() ==> spec_decode_utf8(s, from)[j - from] == s[j] as char,
    decreases s.len() - from,
{
    if from < s.len() {
        lemma_decode_ascii_at(s, from + 1);
    }
}

} // verus!
