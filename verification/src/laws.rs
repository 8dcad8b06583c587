//! How the operations on identifiers fit together.
//!
//! Each law takes the values that a chain of calls hands on and states what
//! the contracts of those calls say of the last of them.

use crate::id::{Id, IdSlice};
use vstd::prelude::*;
use vstd::std_specs::cmp::PartialEqSpec;

verus! {

/// Reading an identifier that was built from a borrowed text gives that text.
pub proof fn lemma_inner_of_borrowed_text(s: &str, id: Id, text: &str)
    requires
        call_ensures(Id::assume_exists, (s,), id),
        call_ensures(Id::inner, (&id,), text),
    ensures
        text@ == s@,
{
}

/// Reading an identifier that was built from an owned text gives that text.
pub proof fn lemma_inner_of_owned_text(s: String, id: Id, text: &str)
    requires
        call_ensures(Id::assume_exists, (s,), id),
        call_ensures(Id::inner, (&id,), text),
    ensures
        text@ == s@,
{
}

/// Taking the text out of an identifier that was built from a borrowed text
/// gives a text with the same characters.
pub proof fn lemma_into_inner_of_borrowed_text(s: &str, id: Id, text: String)
    requires
        call_ensures(Id::assume_exists, (s,), id),
        call_ensures(Id::into_inner, (id,), text),
    ensures
        text@ == s@,
{
}

/// Taking the text out of an identifier that was built from an owned text
/// gives that very text back: the identifier is the wrapped text and no more.
pub proof fn lemma_into_inner_of_owned_text(s: String, id: Id, text: String)
    requires
        call_ensures(Id::assume_exists, (s,), id),
        call_ensures(Id::into_inner, (id,), text),
    ensures
        text == s,
        id == Id::spec_assume_exists(s),
{
    Id::lemma_wraps_text(s, id);
}

/// Reading the view of a borrowed text gives exactly that text.
pub proof fn lemma_inner_of_viewed_text(s: &str, slice: IdSlice, text: &str)
    requires
        call_ensures(IdSlice::assume_exists, (s,), slice),
        call_ensures(IdSlice::inner, (&slice,), text),
    ensures
        text == s,
{
    IdSlice::lemma_views_text(s, slice);
}

/// Reading the view of an owned text gives the characters of that text.
pub proof fn lemma_inner_of_viewed_owned_text(s: &String, slice: IdSlice, text: &str)
    requires
        call_ensures(Id::from_ref, (s,), slice),
        call_ensures(IdSlice::inner, (&slice,), text),
    ensures
        text@ == s@,
{
}

/// Reading the borrowed form of an identifier gives what reading the
/// identifier itself gives.
pub proof fn lemma_inner_of_deref(id: Id, slice: IdSlice, owned_text: &str, borrowed_text: &str)
    requires
        call_ensures(Id::deref, (&id,), slice),
        call_ensures(Id::inner, (&id,), owned_text),
        call_ensures(IdSlice::inner, (&slice,), borrowed_text),
    ensures
        borrowed_text@ == owned_text@,
{
}

/// `==` on identifiers compares the texts and nothing else: it holds exactly
/// when reading the two gives the same characters.
pub proof fn lemma_eq_compares_texts(a: Id, b: Id, text_a: &str, text_b: &str, equal: bool)
    requires
        call_ensures(Id::inner, (&a,), text_a),
        call_ensures(Id::inner, (&b,), text_b),
        call_ensures(<Id as PartialEq>::eq, (&a, &b), equal),
    ensures
        equal == (text_a@ == text_b@),
{
}

/// `==` on views compares the texts and nothing else.
pub proof fn lemma_slice_eq_compares_texts(
    a: IdSlice,
    b: IdSlice,
    text_a: &str,
    text_b: &str,
    equal: bool,
)
    requires
        call_ensures(IdSlice::inner, (&a,), text_a),
        call_ensures(IdSlice::inner, (&b,), text_b),
        call_ensures(<IdSlice as PartialEq>::eq, (&a, &b), equal),
    ensures
        equal == (text_a@ == text_b@),
{
}

/// `==` is an equivalence on identifiers and on views.
pub proof fn lemma_eq_is_equivalence(a: Id, b: Id, c: Id, x: IdSlice, y: IdSlice, z: IdSlice)
    ensures
        a.eq_spec(&a),
        a.eq_spec(&b) == b.eq_spec(&a),
        a.eq_spec(&b) && b.eq_spec(&c) ==> a.eq_spec(&c),
        x.eq_spec(&x),
        x.eq_spec(&y) == y.eq_spec(&x),
        x.eq_spec(&y) && y.eq_spec(&z) ==> x.eq_spec(&z),
{
}

/// Two identifiers built from the same borrowed text are equal.
pub proof fn lemma_same_text_same_id(s: &str, a: Id, b: Id)
    requires
        call_ensures(Id::assume_exists, (s,), a),
        call_ensures(Id::assume_exists, (s,), b),
    ensures
        a.eq_spec(&b),
{
}

/// Equality does not depend on the form: two identifiers are equal exactly
/// when their borrowed forms are.
pub proof fn lemma_eq_across_forms(a: Id, b: Id, slice_a: IdSlice, slice_b: IdSlice)
    requires
        call_ensures(Id::deref, (&a,), slice_a),
        call_ensures(Id::deref, (&b,), slice_b),
    ensures
        a.eq_spec(&b) == slice_a.eq_spec(&slice_b),
{
}

/// The view of a text equals the borrowed form of an identifier that was
/// built from the same text.
pub proof fn lemma_view_equals_owned(s: &str, id: Id, borrowed: IdSlice, slice: IdSlice)
    requires
        call_ensures(Id::assume_exists, (s,), id),
        call_ensures(Id::deref, (&id,), borrowed),
        call_ensures(IdSlice::assume_exists, (s,), slice),
    ensures
        slice@ == id@,
        slice.eq_spec(&borrowed),
{
}

} // verus!
