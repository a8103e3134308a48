//! Properties of the transform, proved over its spec functions.
use vstd::prelude::*;

use crate::cipher::{is_alpha, is_lower, is_upper, rot13_of, rot13_seq, shifted, Mode};

verus! {

/// Shifting a letter forward and then back (or back and then forward)
/// gives the letter again.
pub proof fn lemma_involution(b: u8)
    requires
        is_alpha(b),
    ensures
        shifted(Mode::Decrypt, shifted(Mode::Encrypt, b)) == b,
        shifted(Mode::Encrypt, shifted(Mode::Decrypt, b)) == b,
{
}

/// A shifted letter keeps its case, in both directions.
pub proof fn lemma_case_preserved(mode: Mode, b: u8)
    requires
        is_alpha(b),
    ensures
        is_upper(shifted(mode, b)) == is_upper(b),
        is_lower(shifted(mode, b)) == is_lower(b),
{
}

/// A byte that is not a letter passes through the sequence transform
/// unchanged, in both directions.
pub proof fn lemma_fixed_point(mode: Mode, b: u8)
    requires
        !is_alpha(b),
    ensures
        rot13_seq(mode, seq![b]) == seq![b],
{
    assert(rot13_seq(mode, seq![b]) =~= seq![b]);
}

/// The sequence transform keeps the length of its input.
pub proof fn lemma_length_preserved(mode: Mode, s: Seq<u8>)
    ensures
        rot13_seq(mode, s).len() == s.len(),
{
}

/// Every byte, letter or not, comes back after a transform one way and
/// then the other.
pub proof fn lemma_byte_round_trip(b: u8)
    ensures
        rot13_of(Mode::Decrypt, rot13_of(Mode::Encrypt, b)) == b,
        rot13_of(Mode::Encrypt, rot13_of(Mode::Decrypt, b)) == b,
{
    if is_alpha(b) {
        lemma_involution(b);
        lemma_case_preserved(Mode::Encrypt, b);
        lemma_case_preserved(Mode::Decrypt, b);
    }
}

/// Transforming a sequence one way and then the other gives it back.
pub proof fn lemma_seq_round_trip(s: Seq<u8>)
    ensures
        rot13_seq(Mode::Decrypt, rot13_seq(Mode::Encrypt, s)) == s,
        rot13_seq(Mode::Encrypt, rot13_seq(Mode::Decrypt, s)) == s,
{
    assert forall|i: int| 0 <= i < s.len() implies
        rot13_seq(Mode::Decrypt, rot13_seq(Mode::Encrypt, s))[i] == s[i]
        && rot13_seq(Mode::Encrypt, rot13_seq(Mode::Decrypt, s))[i] == s[i] by {
        lemma_byte_round_trip(s[i]);
    }
    assert(rot13_seq(Mode::Decrypt, rot13_seq(Mode::Encrypt, s)) =~= s);
    assert(rot13_seq(Mode::Encrypt, rot13_seq(Mode::Decrypt, s)) =~= s);
}

/// The sequence transform of a concatenation is the concatenation of the
/// transforms: chunking the input does not change the output.
pub proof fn lemma_concat(mode: Mode, a: Seq<u8>, b: Seq<u8>)
    ensures
        rot13_seq(mode, a + b) == rot13_seq(mode, a) + rot13_seq(mode, b),
{
    assert(rot13_seq(mode, a + b) =~= rot13_seq(mode, a) + rot13_seq(mode, b));
}

} // verus!
