use crate::ownable::Ownable;
use std::borrow::Cow;
use vstd::prelude::*;

verus! {

/// Downgrades a value to a borrowed form that lives only as long as the
/// reference it was made through.
///
/// The borrowed form never owns anything and shows the same content as the
/// source. It is a value of its own: putting something else in its place
/// leaves the source as it was.
pub trait ToBorrowed {
    /// The borrowed form.
    type Borrowed;

    /// Whether `out` is the borrowed form of `self`.
    spec fn borrowed_as(self, out: Self::Borrowed) -> bool;

    /// Makes the borrowed form, without copying the content.
    fn to_borrowed(self) -> (out: Self::Borrowed)
        ensures
            self.borrowed_as(out),
    ;
}

/// The content that a `Cow` shows when it is dereferenced, whichever variant
/// it is in.
pub open spec fn cow_content<B: Ownable + ?Sized>(cow: &Cow<'_, B>) -> B::Content {
    match *cow {
        Cow::Borrowed(view) => B::content(view),
        Cow::Owned(owned) => B::owned_content(&owned),
    }
}

impl<'b, 'c, B> ToBorrowed for &'c Cow<'b, B> where B: Ownable + ?Sized + 'static {
    type Borrowed = Cow<'c, B>;

    /// The borrowed form of a `Cow` is in the `Borrowed` variant and shows
    /// what the source shows.
    open spec fn borrowed_as(self, out: Cow<'c, B>) -> bool {
        &&& out is Borrowed
        &&& cow_content(&out) == cow_content(self)
    }

    /// A `Cow` that is already borrowed hands on its view; an owned one
    /// lends a view of what it owns.
    #[inline]
    fn to_borrowed(self) -> (out: Cow<'c, B>)
        ensures
            out is Borrowed,
            cow_content(&out) == cow_content(self),
    {
        match self {
            Cow::Borrowed(view) => Cow::Borrowed(*view),
            Cow::Owned(owned) => Cow::Borrowed(B::lend(owned)),
        }
    }
}

impl<'o, T> ToBorrowed for &'o Option<T> where for<'t> &'t T: ToBorrowed {
    type Borrowed = Option<<&'o T as ToBorrowed>::Borrowed>;

    /// Nothing is borrowed as nothing; something is borrowed as the borrowed
    /// form of what it holds.
    open spec fn borrowed_as(self, out: Self::Borrowed) -> bool {
        match (*self, out) {
            (None, None) => true,
            (Some(inner), Some(lent)) => (&inner).borrowed_as(lent),
            _ => false,
        }
    }

    /// Keeps absence and presence as they are, and downgrades what is
    /// present through a reference that lasts as long as `self`.
    #[inline]
    fn to_borrowed(self) -> (out: Self::Borrowed)
        ensures
            *self is None <==> out is None,
            *self matches Some(inner) ==> out matches Some(lent) && (&inner).borrowed_as(lent),
    {
        match self {
            Some(inner) => Some(inner.to_borrowed()),
            None => None,
        }
    }
}

/// Lifting through `Option` adds nothing of its own: `None` has `None` as
/// its only borrowed form, and the borrowed forms of `Some(inner)` are the
/// borrowed forms of `inner`, each wrapped in `Some`.
pub proof fn lemma_option_borrowed_as<'o, T>(
    inner: T,
    out: Option<<&'o T as ToBorrowed>::Borrowed>,
) where for<'t> &'t T: ToBorrowed
    ensures
        (&None::<T>).borrowed_as(out) <==> out is None,
        (&Some(inner)).borrowed_as(out) <==> (out matches Some(lent)
            && (&inner).borrowed_as(lent)),
{
}

} // verus!
