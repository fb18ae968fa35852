//! Building strings character by character.
use vstd::prelude::*;

verus! {

/// Relies on `String::push`: appends one character.
#[verifier::external_body]
pub(crate) fn push_char(s: &mut String, c: char)
    ensures
        final(s)@ == old(s)@.push(c),
{
    s.push(c)
}

/// The characters of `s`, in order.
pub(crate) fn chars_of(s: &str) -> (r: Vec<char>)
    ensures
        r@ == s@,
{
    broadcast use vstd::string::axiom_spec_iter;
    let mut out: Vec<char> = Vec::new();
    for c in it: s.chars()
        invariant
            it.seq() == s@,
            out@ == s@.take(it.index() as int),
    {
        out.push(c);
    }
    assert(out@ =~= s@);
    out
}

/// The string of the two characters `c0` and `c1`.
pub(crate) fn text_of(c0: char, c1: char) -> (r: String)
    ensures
        r@ == seq![c0, c1],
{
    let mut r = String::new();
    push_char(&mut r, c0);
    push_char(&mut r, c1);
    assert(r@ =~= seq![c0, c1]);
    r
}

} // verus!
