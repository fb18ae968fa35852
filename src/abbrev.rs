//! Two-letter abbreviations shown on the icon for a keyboard layout name.
use vstd::prelude::*;
use crate::text::{chars_of, push_char, text_of};

verus! {

/// What `str::to_lowercase` makes of a sequence of characters.
pub uninterp spec fn lower_of(s: Seq<char>) -> Seq<char>;

/// What `str::to_uppercase` makes of a sequence of characters.
pub uninterp spec fn upper_of(s: Seq<char>) -> Seq<char>;

/// Relies on `str::to_lowercase`: its result depends on the characters alone.
#[verifier::external_body]
fn lowercase(s: &str) -> (r: String)
    ensures
        r@ == lower_of(s@),
{
    s.to_lowercase()
}

/// Relies on `str::to_uppercase`: its result depends on the characters alone.
#[verifier::external_body]
fn uppercase(s: &str) -> (r: String)
    ensures
        r@ == upper_of(s@),
{
    s.to_uppercase()
}

/// `p` occurs in `s` starting at position `i`.
pub open spec fn occurs_at(s: Seq<char>, p: Seq<char>, i: int) -> bool {
    0 <= i && i + p.len() <= s.len() && s.subrange(i, i + p.len()) == p
}

/// `p` occurs somewhere in `s` as a contiguous run.
pub open spec fn has_substring(s: Seq<char>, p: Seq<char>) -> bool {
    exists|i: int| occurs_at(s, p, i)
}

/// The abbreviation chosen by keyword, looked up in an already lower-cased name.
pub open spec fn keyword_abbreviation(lower: Seq<char>) -> Option<Seq<char>> {
    if has_substring(lower, seq!['r', 'u']) || has_substring(lower, seq!['r', 'u', 's', 's', 'i', 'a', 'n']) {
        Some(seq!['R', 'U'])
    } else if has_substring(lower, seq!['u', 's']) || has_substring(lower, seq!['e', 'n', 'g', 'l', 'i', 's', 'h']) {
        Some(seq!['E', 'N'])
    } else if has_substring(lower, seq!['u', 'a']) {
        Some(seq!['U', 'A'])
    } else {
        None
    }
}

/// The first two characters of `s`, or all of it when it is shorter.
pub open spec fn leading_two(s: Seq<char>) -> Seq<char> {
    if s.len() < 2 { s } else { s.take(2) }
}

/// The abbreviation of a layout name.
pub open spec fn abbreviation(name: Seq<char>) -> Seq<char> {
    match keyword_abbreviation(lower_of(name)) {
        Some(a) => a,
        None => upper_of(leading_two(name)),
    }
}

fn occurs_at_exec(s: &Vec<char>, p: &Vec<char>, i: usize) -> (r: bool)
    requires
        i + p.len() <= s.len(),
    ensures
        r == occurs_at(s@, p@, i as int),
{
    let mut j: usize = 0;
    while j < p.len()
        invariant
            j <= p.len(),
            i + p.len() <= s.len(),
            forall|k: int| 0 <= k < j ==> s@[i + k] == p@[k],
        decreases p.len() - j,
    {
        if s[i + j] != p[j] {
            assert(s@.subrange(i as int, i + p.len())[j as int] != p@[j as int]);
            return false;
        }
        j = j + 1;
    }
    assert(s@.subrange(i as int, i + p.len()) =~= p@);
    true
}

/// Whether `pattern` occurs in `text`.
pub fn contains_chars(text: &Vec<char>, pattern: &Vec<char>) -> (r: bool)
    ensures
        r == has_substring(text@, pattern@),
{
    if pattern.len() > text.len() {
        return false;
    }
    let last: usize = text.len() - pattern.len();
    let mut i: usize = 0;
    loop
        invariant
            last == text.len() - pattern.len(),
            pattern.len() <= text.len(),
            i <= last,
            forall|k: int| 0 <= k < i ==> !occurs_at(text@, pattern@, k),
        decreases last - i,
    {
        if occurs_at_exec(text, pattern, i) {
            return true;
        }
        if i == last {
            return false;
        }
        i = i + 1;
    }
}

/// The abbreviation picked by keyword from a name that is already lower-cased:
/// "RU" for "ru" or "russian", else "EN" for "us" or "english", else "UA" for "ua",
/// else none.
pub fn keyword_abbrev(lower: &str) -> (r: Option<String>)
    ensures
        match r {
            Some(a) => keyword_abbreviation(lower@) == Some(a@),
            None => keyword_abbreviation(lower@) is None,
        },
{
    let text = chars_of(lower);
    let ru = vec!['r', 'u'];
    let russian = vec!['r', 'u', 's', 's', 'i', 'a', 'n'];
    let us = vec!['u', 's'];
    let english = vec!['e', 'n', 'g', 'l', 'i', 's', 'h'];
    let ua = vec!['u', 'a'];
    assert(ru@ =~= seq!['r', 'u']);
    assert(russian@ =~= seq!['r', 'u', 's', 's', 'i', 'a', 'n']);
    assert(us@ =~= seq!['u', 's']);
    assert(english@ =~= seq!['e', 'n', 'g', 'l', 'i', 's', 'h']);
    assert(ua@ =~= seq!['u', 'a']);
    if contains_chars(&text, &ru) || contains_chars(&text, &russian) {
        Some(text_of('R', 'U'))
    } else if contains_chars(&text, &us) || contains_chars(&text, &english) {
        Some(text_of('E', 'N'))
    } else if contains_chars(&text, &ua) {
        Some(text_of('U', 'A'))
    } else {
        None
    }
}

/// The first two characters of `name`, or all of it when it is shorter.
fn leading_chars(name: &str) -> (r: String)
    ensures
        r@ == leading_two(name@),
{
    let chars = chars_of(name);
    let mut r = String::new();
    let mut i: usize = 0;
    while i < chars.len() && i < 2
        invariant
            chars@ == name@,
            i <= chars.len(),
            i <= 2,
            r@ == name@.take(i as int),
        decreases 2 - i,
    {
        push_char(&mut r, chars[i]);
        i = i + 1;
        assert(r@ =~= name@.take(i as int));
    }
    assert(r@ =~= leading_two(name@));
    r
}

/// The two-letter abbreviation shown for a layout name: a keyword match on the
/// lower-cased name, else the first two characters upper-cased.
pub fn shorten_name(name: &str) -> (r: String)
    ensures
        r@ == abbreviation(name@),
{
    let lower = lowercase(name);
    match keyword_abbrev(lower.as_str()) {
        Some(a) => a,
        None => {
            let head = leading_chars(name);
            uppercase(head.as_str())
        },
    }
}

/// The keyword checks look at the lower-cased name only, so they are blind to case:
/// two names that lower-case alike pick the same keyword, or none, and when one of
/// them picks a keyword, both get the same abbreviation.
pub proof fn abbreviation_ignores_case(a: Seq<char>, b: Seq<char>)
    requires
        lower_of(a) == lower_of(b),
    ensures
        keyword_abbreviation(lower_of(a)) == keyword_abbreviation(lower_of(b)),
        keyword_abbreviation(lower_of(a)) is Some ==> abbreviation(a) == abbreviation(b),
{
}

} // verus!
