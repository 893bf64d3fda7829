//! Anchors
//!
//! An anchor keeps the storage of a content in the caller's frame, so that a
//! handle to the content can be passed on. It gives out one handle, once.
use crate::{Location, RefMove};
use vstd::prelude::*;

verus! {

/// Anchors
///
/// An anchor is made from an *origin* of type `T`: the content itself, a box
/// that holds it, or a handle that owns it. From then on the anchor *holds*
/// the content, of type `U`, until [`borrow_move`](Anchor::borrow_move) hands
/// it over to a handle. Whichever of the two has the content when it goes
/// away destroys it, so the content is never destroyed twice.
pub trait Anchor<T, U>: Sized {
    /// The anchor holds its content: no handle has been taken from it yet.
    spec fn holds(&self) -> bool;

    /// The content that the anchor holds.
    spec fn content(&self) -> U;

    /// The origin is fit to be anchored. This fails only for a handle that
    /// does not own a content any more.
    spec fn anchorable(origin: T) -> bool;

    /// The content that an origin brings along.
    spec fn content_of(origin: T) -> U;

    /// Wraps the ownership by this anchor.
    fn anchor_from(content: T) -> (anchor: Self)
        requires
            Self::anchorable(content),
        ensures
            anchor.holds(),
            anchor.content() == Self::content_of(content),
    ;

    /// Turns a mutable reference to this anchor into a by-move reference
    /// to its content.
    ///
    /// The anchor gives its content away with this call, and holds nothing
    /// when the handle is gone. It can therefore not be called a second
    /// time: an anchor never comes to hold again.
    fn borrow_move<'a>(&'a mut self) -> (handle: RefMove<'a, U>)
        requires
            old(self).holds(),
        ensures
            handle.wf(),
            handle@ == old(self).content(),
            !final(self).holds(),
    ;
}

/// Anchor to obtain by-move reference to the stack.
///
/// The flag tells whether the handle is still to be taken; the slot tells
/// whether the content is still in place. The anchor holds the content
/// while the flag is up. With the flag down the content is the handle's,
/// and the slot is no longer the anchor's to empty.
#[derive(Debug)]
pub struct StackAnchor<T> {
    is_some: bool,
    content: Option<T>,
}

impl<T> StackAnchor<T> {
    /// The flag is up: the handle is still to be taken.
    pub closed spec fn flag(&self) -> bool {
        self.is_some
    }

    /// What lies in the anchor's slot.
    pub closed spec fn stored(&self) -> Option<T> {
        self.content
    }

    /// Tells whether the anchor holds its content, that is, whether
    /// `borrow_move` may be called.
    pub fn is_some(&self) -> (holds: bool)
        ensures
            holds == self.holds(),
    {
        self.is_some && self.content.is_some()
    }
}

impl<T> Anchor<T, T> for StackAnchor<T> {
    open spec fn holds(&self) -> bool {
        self.flag() && self.stored() is Some
    }

    open spec fn content(&self) -> T {
        self.stored()->0
    }

    open spec fn anchorable(origin: T) -> bool {
        true
    }

    open spec fn content_of(origin: T) -> T {
        origin
    }

    fn anchor_from(content: T) -> (anchor: Self)
        ensures
            anchor.flag(),
            anchor.stored() == Some(content),
    {
        let anchor = StackAnchor { is_some: true, content: Some(content) };
        assert(anchor.content() == content && Self::content_of(content) == content);
        anchor
    }

    /// The handle refers to the anchor's own slot: what the handle leaves
    /// there is what the anchor is left with.
    fn borrow_move<'a>(&'a mut self) -> (handle: RefMove<'a, T>)
        ensures
            !final(self).flag(),
            handle.location() matches Location::Inline(slot) && *final(slot) == final(self).stored(),
    {
        self.is_some = false;
        RefMove::from_mut(&mut self.content)
    }
}

impl<T> Drop for StackAnchor<T> {
    /// Destroys the content if the anchor holds it, and nothing otherwise.
    fn drop(&mut self)
        ensures
            old(self).holds() ==> final(self).stored() is None && final(self).flag(),
            !old(self).holds() ==> *final(self) == *old(self),
        opens_invariants none
        no_unwind
    {
        if self.is_some {
            self.content = None;
        }
    }
}

/// Anchor to obtain by-move reference to the heap.
///
/// The box that is handed in is kept as it is, so the content stays where
/// it was allocated. The flag stands outside the box for that reason. Flag
/// and cell are read as those of [`StackAnchor`].
#[derive(Debug)]
pub struct BoxAnchor<T> {
    is_some: bool,
    content: Option<Box<T>>,
}

impl<T> BoxAnchor<T> {
    /// The flag is up: the handle is still to be taken.
    pub closed spec fn flag(&self) -> bool {
        self.is_some
    }

    /// What lies in the anchor's cell.
    pub closed spec fn stored(&self) -> Option<Box<T>> {
        self.content
    }

    /// Tells whether the anchor holds its content, that is, whether
    /// `borrow_move` may be called.
    pub fn is_some(&self) -> (holds: bool)
        ensures
            holds == self.holds(),
    {
        self.is_some && self.content.is_some()
    }
}

impl<T> Anchor<Box<T>, T> for BoxAnchor<T> {
    open spec fn holds(&self) -> bool {
        self.flag() && self.stored() is Some
    }

    open spec fn content(&self) -> T {
        *self.stored()->0
    }

    open spec fn anchorable(origin: Box<T>) -> bool {
        true
    }

    open spec fn content_of(origin: Box<T>) -> T {
        *origin
    }

    fn anchor_from(content: Box<T>) -> (anchor: Self)
        ensures
            anchor.flag(),
            anchor.stored() == Some(content),
    {
        BoxAnchor { is_some: true, content: Some(content) }
    }

    /// The handle refers to the anchor's own cell, and through it to the
    /// box that was handed in: what the handle leaves there is what the
    /// anchor is left with.
    fn borrow_move<'a>(&'a mut self) -> (handle: RefMove<'a, T>)
        ensures
            !final(self).flag(),
            handle.location() matches Location::Heap(cell) && *final(cell) == final(self).stored(),
    {
        self.is_some = false;
        RefMove::from_ptr(Location::Heap(&mut self.content))
    }
}

impl<T> Drop for BoxAnchor<T> {
    /// Destroys the content and frees the box if the anchor holds it, and
    /// does nothing otherwise.
    fn drop(&mut self)
        ensures
            old(self).holds() ==> final(self).stored() is None && final(self).flag(),
            !old(self).holds() ==> *final(self) == *old(self),
        opens_invariants none
        no_unwind
    {
        if self.is_some {
            self.content = None;
        }
    }
}

/// Trivial anchor that just returns the given `RefMove`.
///
/// The handle waits in the anchor until it is taken. If it never is, it is
/// dropped with the anchor, and destroys its content then.
#[derive(Debug)]
pub struct IdentityAnchor<'a, T> {
    content: Option<RefMove<'a, T>>,
}

impl<'a, T> IdentityAnchor<'a, T> {
    /// A handle waits in the anchor.
    pub closed spec fn occupied(&self) -> bool {
        self.content is Some
    }

    /// The handle that waits in the anchor.
    pub closed spec fn waiting(&self) -> RefMove<'a, T> {
        self.content->0
    }

    /// Tells whether the anchor holds its handle, that is, whether
    /// `borrow_move` may be called.
    pub fn is_some(&self) -> (holds: bool)
        ensures
            holds == self.holds(),
    {
        match &self.content {
            Some(handle) => handle.is_armed(),
            None => false,
        }
    }
}

impl<'a, T> Anchor<RefMove<'a, T>, T> for IdentityAnchor<'a, T> {
    open spec fn holds(&self) -> bool {
        self.occupied() && self.waiting().wf()
    }

    open spec fn content(&self) -> T {
        self.waiting()@
    }

    open spec fn anchorable(origin: RefMove<'a, T>) -> bool {
        origin.wf()
    }

    open spec fn content_of(origin: RefMove<'a, T>) -> T {
        origin@
    }

    fn anchor_from(content: RefMove<'a, T>) -> (anchor: Self)
        ensures
            anchor.occupied(),
            anchor.waiting() == content,
    {
        IdentityAnchor { content: Some(content) }
    }

    /// The handle that comes out is the handle that was put in.
    fn borrow_move<'b>(&'b mut self) -> (handle: RefMove<'b, T>)
        ensures
            handle == old(self).waiting(),
            !final(self).occupied(),
    {
        self.content.take().unwrap()
    }
}

} // verus!
