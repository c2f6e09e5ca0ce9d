//! Small string builders with exact contracts.

use vstd::prelude::*;

verus! {

/// `n` copies of the character `c`.
pub open spec fn run_of(c: char, n: nat) -> Seq<char> {
    Seq::new(n, |i: int| c)
}

/// Relies on `char::to_string`: a string holding that one character.
#[verifier::external_body]
pub(crate) fn char_text(c: char) -> (r: String)
    ensures
        r@ == seq![c],
{
    c.to_string()
}

/// A string of `n` copies of the one-character string `piece`.
pub(crate) fn repeat_char(piece: &str, n: usize) -> (r: String)
    requires
        piece@.len() == 1,
    ensures
        r@ == run_of(piece@[0], n as nat),
{
    let mut r = String::new();
    let mut i: usize = 0;
    while i < n
        invariant
            i <= n,
            piece@.len() == 1,
            r@ == run_of(piece@[0], i as nat),
        decreases n - i,
    {
        r.append(piece);
        i = i + 1;
        assert(r@ =~= run_of(piece@[0], i as nat));
    }
    r
}

} // verus!
