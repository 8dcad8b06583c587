//! What the identifiers take for granted about the texts of std.

use vstd::prelude::*;

verus! {

/// `<String as From<&str>>::from`, which `Into::into` calls when an
/// identifier is built from a `&str`. std documents that it converts the
/// `&str` into a `String`: the new text has the characters of the old one.
pub assume_specification<'a>[ <String as From<&'a str>>::from ](s: &str) -> (text: String)
    ensures
        text@ == s@,
;

/// `<T as From<T>>::from`, which `Into::into` calls when an identifier is
/// built from a `String`. std documents that it returns its argument
/// unchanged.
pub assume_specification<T>[ <T as From<T>>::from ](t: T) -> (same: T)
    ensures
        same == t,
;

/// `<str as PartialEq>::eq`, by which two borrowed identifiers are compared.
/// std compares two `str` by content: they are equal exactly when they hold
/// the same characters.
pub assume_specification[ <str as PartialEq>::eq ](a: &str, b: &str) -> (equal: bool)
    ensures
        equal == (a@ == b@),
;

} // verus!
