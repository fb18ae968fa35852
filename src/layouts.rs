//! The keyboard layout names, from what the keyboard extension reports.
use vstd::prelude::*;
use vstd::utf8::{valid_utf8, decode_utf8};
use crate::text::text_of;

verus! {

/// The name used when the keyboard reports no layout names at all.
pub open spec fn fallback_layout() -> Seq<char> {
    seq!['U', 'S']
}

/// `prefix` is `atoms` up to, and without, the first zero.
pub open spec fn leading_nonzero(atoms: Seq<u32>, prefix: Seq<u32>) -> bool {
    &&& prefix.len() <= atoms.len()
    &&& prefix == atoms.take(prefix.len() as int)
    &&& forall|i: int| 0 <= i < prefix.len() ==> prefix[i] != 0
    &&& prefix.len() < atoms.len() ==> atoms[prefix.len() as int] == 0
}

/// The group name atoms in use: those before the first zero.
pub fn group_atoms(atoms: &Vec<u32>) -> (r: Vec<u32>)
    ensures
        leading_nonzero(atoms@, r@),
{
    let mut r: Vec<u32> = Vec::new();
    let mut i: usize = 0;
    while i < atoms.len() && atoms[i] != 0
        invariant
            i <= atoms@.len(),
            r@ == atoms@.take(i as int),
            forall|k: int| 0 <= k < i ==> atoms@[k] != 0,
        decreases atoms@.len() - i,
    {
        r.push(atoms[i]);
        i = i + 1;
        assert(r@ =~= atoms@.take(i as int));
    }
    r
}

/// Relies on `String::from_utf8`: it succeeds exactly on valid UTF-8, and then
/// holds the characters that the bytes encode.
#[verifier::external_body]
fn decode_name(bytes: Vec<u8>) -> (r: Option<String>)
    ensures
        r is Some <==> valid_utf8(bytes@),
        r matches Some(s) ==> s@ == decode_utf8(bytes@),
{
    String::from_utf8(bytes).ok()
}

/// Why the layout names could not be read.
#[derive(Clone, Copy, PartialEq, Eq, Structural, Debug)]
pub enum LayoutError {
    /// The name at this position is not valid UTF-8.
    NotUtf8 { index: usize },
}

/// The layout names, decoded from the bytes of each group name in order; a single
/// "US" when there are none.
pub open spec fn names_of(raw: Seq<Seq<u8>>) -> Seq<Seq<char>> {
    if raw.len() == 0 {
        seq![fallback_layout()]
    } else {
        raw.map_values(|b: Seq<u8>| decode_utf8(b))
    }
}

/// Decodes the group names, in order. Fails on the first one that is not valid
/// UTF-8; gives the single name "US" when there are no names.
pub fn layout_names(raw: Vec<Vec<u8>>) -> (r: Result<Vec<String>, LayoutError>)
    ensures
        match r {
            Ok(names) => (forall|i: int| 0 <= i < raw@.len() ==> valid_utf8(#[trigger] raw@[i]@))
                && names@.map_values(|s: String| s@) == names_of(
                raw@.map_values(|b: Vec<u8>| b@),
            ),
            Err(LayoutError::NotUtf8 { index }) => index < raw@.len() && !valid_utf8(
                raw@[index as int]@,
            ) && forall|i: int| 0 <= i < index ==> valid_utf8(#[trigger] raw@[i]@),
        },
{
    let ghost bytes = raw@.map_values(|b: Vec<u8>| b@);
    let n = raw.len();
    let mut names: Vec<String> = Vec::new();
    let mut i: usize = 0;
    for b in it: raw
        invariant
            n == raw@.len(),
            it.seq() == raw@,
            i == it.index(),
            bytes == raw@.map_values(|b: Vec<u8>| b@),
            forall|k: int| 0 <= k < i ==> valid_utf8(#[trigger] raw@[k]@),
            names@.len() == i,
            forall|k: int| 0 <= k < i ==> #[trigger] names@[k]@ == decode_utf8(bytes[k]),
    {
        assert(b == raw@[i as int]);
        assert(bytes[i as int] == b@);
        match decode_name(b) {
            Some(s) => {
                names.push(s);
                i = i + 1;
            },
            None => {
                return Err(LayoutError::NotUtf8 { index: i });
            },
        }
    }
    if n == 0 {
        let v = vec![text_of('U', 'S')];
        assert(v@.map_values(|s: String| s@) =~= names_of(bytes));
        return Ok(v);
    }
    assert(names@.map_values(|s: String| s@) =~= names_of(bytes));
    Ok(names)
}

} // verus!
