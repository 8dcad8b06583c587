//! The owned identifier and its borrowed form.

use vstd::prelude::*;
use vstd::std_specs::convert::IntoSpec;

verus! {

/// An opaque identifier: a text that the caller vouches for.
///
/// Nothing is checked when one is built, and any text is accepted.
#[derive(Debug, Hash)]
pub struct Id(String);

impl View for Id {
    type V = Seq<char>;

    /// The characters of the identifier.
    open spec fn view(&self) -> Seq<char> {
        self.into_inner()@
    }
}

impl Id {
    /// The identifier that wraps `text`.
    pub closed spec fn spec_assume_exists(text: String) -> Id {
        Id(text)
    }

    /// The text that the identifier wraps.
    pub closed spec fn spec_into_inner(self) -> String {
        self.0
    }

    /// Builds an identifier from anything that converts into an owned text.
    /// The caller vouches that the text names something; nothing is checked.
    pub fn assume_exists(s: impl Into<String>) -> (id: Id)
        ensures
            call_ensures(Into::into, (s,), id.into_inner()),
    {
        Id(s.into())
    }

    /// Borrows the text of the identifier.
    pub fn inner(&self) -> (text: &str)
        ensures
            text@ == self@,
    {
        self.0.as_str()
    }

    /// Gives up the identifier for the text it wraps.
    #[verifier::when_used_as_spec(spec_into_inner)]
    pub fn into_inner(self) -> (text: String)
        ensures
            text == self.spec_into_inner(),
    {
        self.0
    }

    /// Looks at an owned text as an identifier, without copying it.
    pub fn from_ref(s: &String) -> (slice: IdSlice<'_>)
        ensures
            slice@ == s@,
    {
        IdSlice::assume_exists(s.as_str())
    }

    /// The borrowed form of the identifier, over the same text.
    pub fn deref(&self) -> (slice: IdSlice<'_>)
        ensures
            slice@ == self@,
    {
        IdSlice::assume_exists(self.0.as_str())
    }

    /// Wrapping a text and taking it out again gives the text back, and an
    /// identifier is nothing more than the text it wraps.
    pub proof fn lemma_wraps_text(text: String, id: Id)
        ensures
            Id::spec_assume_exists(text).into_inner() == text,
            Id::spec_assume_exists(id.into_inner()) == id,
    {
    }
}

impl Clone for Id {
    fn clone(&self) -> (copy: Id)
        ensures
            copy == *self,
    {
        Id(self.0.clone())
    }
}

impl PartialEq for Id {
    fn eq(&self, other: &Id) -> (equal: bool) {
        self.0 == other.0
    }
}

impl Eq for Id {

}

impl vstd::std_specs::cmp::PartialEqSpecImpl for Id {
    open spec fn obeys_eq_spec() -> bool {
        true
    }

    open spec fn eq_spec(&self, other: &Id) -> bool {
        self@ == other@
    }
}

impl<S: Into<String>> From<S> for Id {
    fn from(s: S) -> (id: Id)
        ensures
            call_ensures(S::into, (s,), id.into_inner()),
    {
        Id(s.into())
    }
}

impl<S: Into<String>> vstd::std_specs::convert::FromSpecImpl<S> for Id {
    open spec fn obeys_from_spec() -> bool {
        S::obeys_into_spec()
    }

    open spec fn from_spec(s: S) -> Id {
        Id::spec_assume_exists(s.into_spec())
    }
}

/// The borrowed form of an identifier: a view of a text held elsewhere.
///
/// `IdSlice` is to [`Id`] what `str` is to `String`.
#[derive(Clone, Copy, Debug, Hash)]
pub struct IdSlice<'a>(&'a str);

impl<'a> View for IdSlice<'a> {
    type V = Seq<char>;

    /// The characters of the identifier.
    open spec fn view(&self) -> Seq<char> {
        self.inner()@
    }
}

impl<'a> IdSlice<'a> {
    /// The view of `s` as an identifier.
    pub closed spec fn spec_assume_exists(s: &'a str) -> IdSlice<'a> {
        IdSlice(s)
    }

    /// The text that the view looks at.
    pub closed spec fn spec_inner(&self) -> &'a str {
        self.0
    }

    /// Looks at a borrowed text as an identifier, without copying it.
    /// The caller vouches that the text names something; nothing is checked.
    #[verifier::when_used_as_spec(spec_assume_exists)]
    pub fn assume_exists(s: &'a str) -> (slice: IdSlice<'a>)
        ensures
            slice == Self::spec_assume_exists(s),
            slice@ == s@,
    {
        IdSlice(s)
    }

    /// The text of the identifier, borrowed for as long as the view's source.
    #[verifier::when_used_as_spec(spec_inner)]
    pub fn inner(&self) -> (text: &'a str)
        ensures
            text == self.spec_inner(),
    {
        self.0
    }

    /// Viewing a text and reading the view gives the text back, and a view
    /// is nothing more than the text it looks at.
    pub proof fn lemma_views_text(s: &'a str, slice: IdSlice<'a>)
        ensures
            IdSlice::assume_exists(s).inner() == s,
            IdSlice::assume_exists(slice.inner()) == slice,
    {
    }
}

impl<'a> PartialEq for IdSlice<'a> {
    fn eq(&self, other: &IdSlice<'a>) -> (equal: bool) {
        *self.0 == *other.0
    }
}

impl<'a> Eq for IdSlice<'a> {

}

impl<'a> vstd::std_specs::cmp::PartialEqSpecImpl for IdSlice<'a> {
    open spec fn obeys_eq_spec() -> bool {
        true
    }

    open spec fn eq_spec(&self, other: &IdSlice<'a>) -> bool {
        self@ == other@
    }
}

impl<'a> From<&'a str> for IdSlice<'a> {
    fn from(s: &'a str) -> (slice: IdSlice<'a>)
        ensures
            slice@ == s@,
    {
        IdSlice::assume_exists(s)
    }
}

impl<'a> vstd::std_specs::convert::FromSpecImpl<&'a str> for IdSlice<'a> {
    open spec fn obeys_from_spec() -> bool {
        true
    }

    open spec fn from_spec(s: &'a str) -> IdSlice<'a> {
        IdSlice::assume_exists(s)
    }
}

impl<'a> From<&'a String> for IdSlice<'a> {
    fn from(s: &'a String) -> (slice: IdSlice<'a>)
        ensures
            slice@ == s@,
    {
        Id::from_ref(s)
    }
}

impl<'a> vstd::std_specs::convert::FromSpecImpl<&'a String> for IdSlice<'a> {
    /// Spec code cannot borrow a `String` as a `str`, so this conversion has
    /// no twin in spec code: what it gives is stated by `from` itself.
    open spec fn obeys_from_spec() -> bool {
        false
    }

    open spec fn from_spec(s: &'a String) -> IdSlice<'a> {
        arbitrary()
    }
}

} // verus!
