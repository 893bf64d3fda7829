use crate::anchor::{Anchor, BoxAnchor, IdentityAnchor, StackAnchor};
use crate::{Location, RefMove};
use vstd::prelude::*;

verus! {

/// Anchored by-move borrowing.
///
/// This is different from [`BorrowMove`] in that the user has to provide an
/// **anchored** self before a handle can be taken. The anchor is what keeps
/// the storage valid while the handle lives, and keeping it is the caller's
/// part.
///
/// The trait maps the kind of storage to the anchor that fits it: a value
/// goes with [`StackAnchor`], a box with [`BoxAnchor`], a handle with
/// [`IdentityAnchor`].
pub trait BorrowInterior<Borrowed>: Sized {
    /// The anchor type we use for this pair of borrowing.
    type Anchor: Anchor<Self, Borrowed>;
}

impl<T> BorrowInterior<T> for T {
    type Anchor = StackAnchor<T>;
}

impl<'a, T> BorrowInterior<T> for RefMove<'a, T> {
    type Anchor = IdentityAnchor<'a, T>;
}

impl<T> BorrowInterior<T> for Box<T> {
    type Anchor = BoxAnchor<T>;
}

/// Provides `anchor` and `anchor_box` methods.
pub trait AnchorExt: Sized {
    /// Wraps the value by `StackAnchor`.
    /// Write `.anchor().borrow_move()` to create a `RefMove` pointing to
    /// the stack.
    fn anchor(self) -> (anchor: StackAnchor<Self>)
        ensures
            anchor.holds(),
            anchor.flag(),
            anchor.stored() == Some(self),
    {
        StackAnchor::anchor_from(self)
    }

    /// Wraps the value by `BoxAnchor` or `IdentityAnchor`, whichever
    /// `BorrowInterior` names for a content of type `Borrowed`.
    /// Write `.anchor_box::<Borrowed>().borrow_move()` to create a `RefMove`
    /// pointing to the heap.
    ///
    /// The anchor is the one that `anchor_from` of that anchor type makes,
    /// with all that `anchor_from` says of it.
    fn anchor_box<Borrowed>(self) -> (anchor: <Self as BorrowInterior<Borrowed>>::Anchor) where
        Self: BorrowInterior<Borrowed>,

        requires
            <Self as BorrowInterior<Borrowed>>::Anchor::anchorable(self),
        ensures
            anchor.holds(),
            anchor.content() == <Self as BorrowInterior<Borrowed>>::Anchor::content_of(self),
            <<Self as BorrowInterior<Borrowed>>::Anchor as Anchor<
                Self,
                Borrowed,
            >>::anchor_from.ensures((self,), anchor),
    {
        <Self as BorrowInterior<Borrowed>>::Anchor::anchor_from(self)
    }
}

impl<T> AnchorExt for T {}

/// Unanchored by-move reborrowing.
///
/// Unlike [`BorrowInterior`] this needs no anchor: it starts from a handle,
/// whose storage is anchored already, and turns it into a handle to what
/// the content stands for. It cannot provide a *starting point* of the
/// by-move borrowing, namely getting `RefMove<T>` from `T` or `Box<T>`.
pub trait BorrowMove<Borrowed>: Sized {
    /// The content can be reborrowed. This fails only for a content that is
    /// itself a handle and does not own anything any more.
    spec fn reborrowable(&self) -> bool;

    /// The place that the reborrowed handle refers to.
    spec fn place<'a>(this: RefMove<'a, Self>) -> Location<'a, Borrowed>;

    /// Turns a handle to `Self` into a handle to `Borrowed`. What the new
    /// handle owns stays where it is, at `place(this)`, and nothing is
    /// destroyed.
    fn borrow_move<'a>(this: RefMove<'a, Self>) -> (handle: RefMove<'a, Borrowed>)
        requires
            this.wf(),
            this@.reborrowable(),
        ensures
            handle.wf(),
            handle.location() == Self::place(this),
    ;
}

/// A handle to a content is a handle to that content.
impl<T> BorrowMove<T> for T {
    open spec fn reborrowable(&self) -> bool {
        true
    }

    open spec fn place<'a>(this: RefMove<'a, Self>) -> Location<'a, T> {
        this.location()
    }

    fn borrow_move<'a>(this: RefMove<'a, Self>) -> (handle: RefMove<'a, T>) {
        this
    }
}

/// A handle to a handle gives way to the handle it owns.
impl<'a, T> BorrowMove<T> for RefMove<'a, T> {
    open spec fn reborrowable(&self) -> bool {
        self.wf()
    }

    open spec fn place<'b>(this: RefMove<'b, Self>) -> Location<'b, T> {
        this@.location()
    }

    fn borrow_move<'b>(this: RefMove<'b, Self>) -> (handle: RefMove<'b, T>) {
        this.into_inner()
    }
}

} // verus!
