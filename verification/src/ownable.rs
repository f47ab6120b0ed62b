use vstd::prelude::*;

verus! {

/// A type with an owned form that can lend out a view of itself.
///
/// The view is the type itself (`str`, `[T]`, or any sized clonable type);
/// the owned form is the one that `ToOwned` names (`String`, `Vec<T>`, the
/// type again). Both forms hold the same kind of content, and lending shows
/// the content of the owned form without copying it.
pub trait Ownable: ToOwned {
    /// What a value holds, as mathematics.
    type Content;

    /// The content seen through a view.
    spec fn content(view: &Self) -> Self::Content;

    /// The content held by an owned value.
    spec fn owned_content(owned: &Self::Owned) -> Self::Content;

    /// Lends a view of an owned value, for as long as the reference lasts.
    fn lend(owned: &Self::Owned) -> (view: &Self)
        ensures
            Self::content(view) == Self::owned_content(owned),
    ;
}

/// Text: a `String` lends a `str` with the same characters.
impl Ownable for str {
    type Content = Seq<char>;

    open spec fn content(view: &str) -> Seq<char> {
        view@
    }

    open spec fn owned_content(owned: &String) -> Seq<char> {
        owned@
    }

    #[inline]
    fn lend(owned: &String) -> (view: &str) {
        owned.as_str()
    }
}

/// Slices: a `Vec<T>` lends a slice with the same elements in the same order.
impl<T: Clone> Ownable for [T] {
    type Content = Seq<T>;

    open spec fn content(view: &[T]) -> Seq<T> {
        view@
    }

    open spec fn owned_content(owned: &Vec<T>) -> Seq<T> {
        owned@
    }

    #[inline]
    fn lend(owned: &Vec<T>) -> (view: &[T]) {
        owned.as_slice()
    }
}

/// A sized clonable value is its own owned form and its own content.
impl<T: Clone> Ownable for T {
    type Content = T;

    open spec fn content(view: &T) -> T {
        *view
    }

    open spec fn owned_content(owned: &T) -> T {
        *owned
    }

    #[inline]
    fn lend(owned: &T) -> (view: &T) {
        owned
    }
}

} // verus!
