//! Character classification, lower-casing and small string utilities.
//!
//! Outcome labels are compared after a canonicalisation pass that lower-cases
//! the label and treats every non-alphanumeric character as a separator.
//! Lower-casing, and alphanumeric classification beyond ASCII, are the
//! standard library's Unicode behaviour: both are delegated to it and only
//! named, never re-stated.

use vstd::prelude::*;

verus! {

/// What `char::is_alphanumeric` answers for a character beyond ASCII.
/// Unicode classification is far too large to state here, but it is a pure
/// function of the character, so it can be named.
pub uninterp spec fn alnum_ext(c: char) -> bool;

/// Alphanumeric in the sense of `char::is_alphanumeric`: on ASCII exactly
/// the digits and letters (the documented Unicode classes `Nd` and
/// `Alphabetic` contain nothing else below 128), beyond ASCII whatever the
/// standard library answers.
pub open spec fn is_alnum(c: char) -> bool {
    if (c as u32) < 128 {
        (48 <= c as u32 && c as u32 <= 57)  // '0' ..= '9'
        || (65 <= c as u32 && c as u32 <= 90)  // 'A' ..= 'Z'
        || (97 <= c as u32 && c as u32 <= 122)  // 'a' ..= 'z'
    } else {
        alnum_ext(c)
    }
}

/// Relies on `char::is_alphanumeric`: true exactly on Unicode alphabetic
/// characters and digits; on ASCII these are `0-9`, `A-Z` and `a-z`.
pub assume_specification[ char::is_alphanumeric ](c: char) -> (r: bool)
    ensures
        r == is_alnum(c),
        (c as u32) >= 128 ==> r == alnum_ext(c),
;

/// What `str::to_lowercase` returns for a string with the given
/// characters.  The Unicode case mapping is far too large to state here,
/// but it is a pure function of the characters, so it can be named.
pub uninterp spec fn lower_of(s: Seq<char>) -> Seq<char>;

/// Relies on `str::to_lowercase`: the lower-case equivalent of the string,
/// a function of its characters alone; an empty string stays empty.
#[verifier::external_body]
pub fn to_lower_chars(s: &str) -> (r: Vec<char>)
    ensures
        r@ == lower_of(s@),
        s@.len() == 0 ==> r@.len() == 0,
{
    s.to_lowercase().chars().collect()
}

/// Equality of two character vectors, decided element by element.
pub fn vec_char_eq(a: &Vec<char>, b: &Vec<char>) -> (r: bool)
    ensures
        r == (a@ == b@),
{
    if a.len() != b.len() {
        return false;
    }
    let mut i: usize = 0;
    while i < a.len()
        invariant
            0 <= i <= a.len(),
            a.len() == b.len(),
            forall|j: int| 0 <= j < i ==> a@[j] == b@[j],
        decreases a.len() - i,
    {
        if a[i] != b[i] {
            return false;
        }
        i = i + 1;
    }
    proof {
        assert(a@ =~= b@);
    }
    true
}

/// Equality of two string slices, decided character by character.
pub fn str_eq(a: &str, b: &str) -> (r: bool)
    ensures
        r == (a@ == b@),
{
    let alen = a.unicode_len();
    let blen = b.unicode_len();
    if alen != blen {
        return false;
    }
    let mut i: usize = 0;
    while i < alen
        invariant
            0 <= i <= alen,
            alen == a@.len(),
            alen == b@.len(),
            forall|j: int| 0 <= j < i ==> a@[j] == b@[j],
        decreases alen - i,
    {
        if a.get_char(i) != b.get_char(i) {
            return false;
        }
        i = i + 1;
    }
    proof {
        assert(a@ =~= b@);
    }
    true
}

/// Relies on `String`'s `FromIterator` over `char`: collecting characters
/// yields the string with exactly those characters in order.
#[verifier::external_body]
pub fn chars_to_string(v: Vec<char>) -> (r: String)
    ensures
        r@ == v@,
{
    v.into_iter().collect()
}

/// A duplicate of an optional string, equal to the original.
pub fn clone_opt_string(o: &Option<String>) -> (r: Option<String>)
    ensures
        r == *o,
{
    match o {
        Some(s) => Some(s.clone()),
        None => None,
    }
}

} // verus!
