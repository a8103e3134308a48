//! The byte-level and sequence-level ROT13 transform.
use vstd::prelude::*;

verus! {

/// Direction of the shift.
#[derive(Clone, Copy, Debug, PartialEq, Eq, Structural)]
pub enum Mode {
    /// Shift each letter 13 places forward, wrapping around the alphabet.
    Encrypt,
    /// Shift each letter 13 places back, wrapping around the alphabet.
    Decrypt,
}

/// `b` is one of `A`..=`Z`.
pub open spec fn is_upper(b: u8) -> bool {
    65 <= b <= 90
}

/// `b` is one of `a`..=`z`.
pub open spec fn is_lower(b: u8) -> bool {
    97 <= b <= 122
}

/// `b` is an ASCII letter.
pub open spec fn is_alpha(b: u8) -> bool {
    is_upper(b) || is_lower(b)
}

/// The code of the first letter of `b`'s alphabet.
pub open spec fn base_of(b: u8) -> int {
    if is_upper(b) { 65 } else { 97 }
}

/// The letter `b` shifted 13 places in the direction given by `mode`.
pub open spec fn shifted(mode: Mode, b: u8) -> u8 {
    let p = b - base_of(b);
    match mode {
        Mode::Encrypt => (base_of(b) + (p + 13) % 26) as u8,
        Mode::Decrypt => (base_of(b) + (p - 13) % 26) as u8,
    }
}

/// `b` after one step of the sequence transform: letters are shifted,
/// every other byte is kept.
pub open spec fn rot13_of(mode: Mode, b: u8) -> u8 {
    if is_alpha(b) { shifted(mode, b) } else { b }
}

/// The sequence transform, byte by byte.
pub open spec fn rot13_seq(mode: Mode, s: Seq<u8>) -> Seq<u8> {
    Seq::new(s.len(), |i: int| rot13_of(mode, s[i]))
}

/// Code of `A`.
pub const UPPER_A: u8 = 65;
/// Code of `Z`.
pub const UPPER_Z: u8 = 90;
/// Code of `a`.
pub const LOWER_A: u8 = 97;
/// Code of `z`.
pub const LOWER_Z: u8 = 122;

/// Whether `byte` is an ASCII letter.
pub fn is_ascii_letter(byte: u8) -> (r: bool)
    ensures
        r == is_alpha(byte),
{
    (UPPER_A <= byte && byte <= UPPER_Z) || (LOWER_A <= byte && byte <= LOWER_Z)
}

/// ROT13 on a single letter.
pub fn rot13_byte(mode: Mode, byte: u8) -> (r: u8)
    requires
        is_alpha(byte),
    ensures
        r == shifted(mode, byte),
        is_upper(r) == is_upper(byte),
        is_lower(r) == is_lower(byte),
{
    // keep the case: pick the start of the letter's own alphabet
    let a: u8 = if UPPER_A <= byte && byte <= UPPER_Z { UPPER_A } else { LOWER_A };
    // position in the alphabet, 0..26
    let alphabet_pos: u8 = byte - a;
    let shifted_pos: u8 = match mode {
        Mode::Encrypt => (alphabet_pos + 13) % 26,
        Mode::Decrypt => {
            if alphabet_pos < 13 {
                26 - (13 - alphabet_pos)
            } else {
                alphabet_pos - 13
            }
        },
    };
    a + shifted_pos
}

/// ROT13 on a byte sequence: letters are shifted, every other byte is
/// copied unchanged. The input is left as it is.
pub fn rot13_slice(mode: Mode, input: &[u8]) -> (r: Vec<u8>)
    ensures
        r@ == rot13_seq(mode, input@),
        r@.len() == input@.len(),
{
    let mut out: Vec<u8> = Vec::with_capacity(input.len());
    let mut i: usize = 0;
    while i < input.len()
        invariant
            i <= input@.len(),
            out@ == rot13_seq(mode, input@.subrange(0, i as int)),
        decreases input@.len() - i,
    {
        let byte: u8 = input[i];
        // only letters are shifted
        let next: u8 = if is_ascii_letter(byte) {
            rot13_byte(mode, byte)
        } else {
            byte
        };
        out.push(next);
        i = i + 1;
        assert(out@ =~= rot13_seq(mode, input@.subrange(0, i as int)));
    }
    assert(input@.subrange(0, i as int) =~= input@);
    out
}

} // verus!
