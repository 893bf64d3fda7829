//! By-move references.
//!
//! A [`RefMove`] owns a value that lives in somebody else's storage: a slot
//! in a stack frame, or a heap allocation that already exists. The caller
//! keeps the storage alive, the handle owns what is stored there. Passing a
//! handle passes the value by ownership, without a new allocation and without
//! the callee knowing where the value lives.
//!
//! Handles are made through an [`Anchor`]: a guard that the caller keeps in
//! its own frame, and that gives out at most one handle.
//!
//! ```text
//! let mut anchor = 42.anchor();
//! let handle = anchor.borrow_move();
//! let value = handle.into_inner();
//! ```
//!
//! A storage slot is an `Option`: `Some` while the content is in place,
//! `None` once it has been moved out or destroyed. Whoever empties the slot
//! is the one that disposes of the content, so the content is disposed of
//! once. A handle empties its slot when it is extracted from and when it is
//! dropped; an anchor empties it when it is dropped with the handle never
//! taken.
use vstd::prelude::*;

pub mod anchor;
mod borrow;

pub use anchor::Anchor;
pub use borrow::{AnchorExt, BorrowInterior, BorrowMove};

verus! {

/// The place where the content of a handle is stored.
///
/// The place belongs to somebody else, who keeps it alive for `'a`. It is
/// exclusively borrowed, so no second handle can refer to it in the meantime.
#[derive(Debug)]
pub enum Location<'a, T> {
    /// A slot laid out inline in its owner, typically in a stack frame.
    Inline(&'a mut Option<T>),
    /// A cell that holds the heap allocation in which the content lives.
    Heap(&'a mut Option<Box<T>>),
}

impl<'a, T> Location<'a, T> {
    /// What is stored at this place: `Some` while the content is there.
    pub open spec fn content(&self) -> Option<T> {
        match self {
            Location::Inline(slot) => **slot,
            Location::Heap(cell) => match **cell {
                Some(boxed) => Some(*boxed),
                None => None,
            },
        }
    }

    /// Tells whether the content is in place.
    pub fn is_full(&self) -> (full: bool)
        ensures
            full == (self.content() is Some),
    {
        match self {
            Location::Inline(slot) => slot.is_some(),
            Location::Heap(cell) => cell.is_some(),
        }
    }

    /// Borrows the content.
    pub fn get(&self) -> (content: &T)
        requires
            self.content() is Some,
        ensures
            *content == self.content()->0,
    {
        match self {
            Location::Inline(slot) => slot.as_ref().unwrap(),
            Location::Heap(cell) => &**cell.as_ref().unwrap(),
        }
    }

    /// Borrows the content mutably. The place stays the same and stays
    /// full, and holds afterwards whatever was written through the borrow.
    pub fn get_mut(&mut self) -> (content: &mut T)
        requires
            old(self).content() is Some,
        ensures
            *content == old(self).content()->0,
            final(self).content() == Some(*final(content)),
            (match (*old(self), *final(self)) {
                (Location::Inline(before), Location::Inline(after)) => *final(before) == *final(after),
                (Location::Heap(before), Location::Heap(after)) => *final(before) == *final(after),
                _ => false,
            }),
    {
        match self {
            Location::Inline(slot) => slot.as_mut().unwrap(),
            Location::Heap(cell) => &mut **cell.as_mut().unwrap(),
        }
    }

    /// Moves the content out and leaves the place empty. For a heap cell
    /// this gives the allocation back as well.
    pub fn take(self) -> (content: T)
        requires
            self.content() is Some,
        ensures
            content == self.content()->0,
            (match self {
                Location::Inline(slot) => *final(slot) is None,
                Location::Heap(cell) => *final(cell) is None,
            }),
    {
        match self {
            Location::Inline(slot) => slot.take().unwrap(),
            Location::Heap(cell) => *cell.take().unwrap(),
        }
    }
}

/// Owned reference.
///
/// `RefMove<'a, T>` takes after both `&'a mut T` and `Box<T>`:
///
/// - like `&'a mut T` it can refer to the stack, and is bound to `'a`;
/// - like `Box<T>` it owns its content: the content can be moved out of it,
///   and is destroyed with it;
/// - unlike `Box<T>` it does not own the storage the content lies in.
///
/// A handle is *armed* while it owns a content, which is what
/// [`wf`](RefMove::wf) says: from its creation until it is turned into its
/// content or into its location. All operations but dropping it need an
/// armed handle, and none of them hands out a handle that is not.
#[derive(Debug)]
pub struct RefMove<'a, T> {
    slot: Option<Location<'a, T>>,
}

impl<'a, T> RefMove<'a, T> {
    /// The handle refers to a place.
    pub closed spec fn attached(&self) -> bool {
        self.slot is Some
    }

    /// The place that the handle refers to.
    pub closed spec fn location(&self) -> Location<'a, T> {
        self.slot->0
    }

    /// The handle is armed: it refers to a place, and the content is there.
    pub open spec fn wf(&self) -> bool {
        self.attached() && self.location().content() is Some
    }

    /// The content that the handle owns.
    pub open spec fn view(&self) -> T {
        self.location().content()->0
    }

    /// Tells whether the handle is armed.
    pub fn is_armed(&self) -> (armed: bool)
        ensures
            armed == self.wf(),
    {
        match &self.slot {
            Some(location) => location.is_full(),
            None => false,
        }
    }

    /// Creates a handle over a slot that holds its content.
    ///
    /// The content is from now on the handle's to dispose of. The handle
    /// refers to the very slot that is handed in: what it leaves there is
    /// what the owner of the slot finds.
    pub fn from_mut(reference: &'a mut Option<T>) -> (handle: Self)
        requires
            *old(reference) is Some,
        ensures
            handle.wf(),
            handle@ == old(reference)->0,
            handle.location() matches Location::Inline(slot) && *slot == *old(reference)
                && *final(slot) == *final(reference),
    {
        RefMove { slot: Some(Location::Inline(reference)) }
    }

    /// Creates a handle over a place that holds its content.
    pub fn from_ptr(ptr: Location<'a, T>) -> (handle: Self)
        requires
            ptr.content() is Some,
        ensures
            handle.wf(),
            handle.location() == ptr,
            handle@ == ptr.content()->0,
    {
        RefMove { slot: Some(ptr) }
    }

    /// Turns the handle into the place it refers to, without touching the
    /// content: the place is still full, and nothing is destroyed.
    pub fn into_ptr(this: Self) -> (ptr: Location<'a, T>)
        requires
            this.wf(),
        ensures
            ptr == this.location(),
            ptr.content() == Some(this@),
    {
        let mut this = this;
        this.slot.take().unwrap()
    }

    /// Turns the handle into its content. The place is left empty, so
    /// nothing is left to destroy for the owner of the place.
    pub fn into_inner(self) -> (content: T)
        requires
            self.wf(),
        ensures
            content == self@,
            (match self.location() {
                Location::Inline(slot) => *final(slot) is None,
                Location::Heap(cell) => *final(cell) is None,
            }),
    {
        RefMove::into_ptr(self).take()
    }

    /// Borrows the content.
    ///
    /// This is a method of the handle, and not `Deref`, because it asks for
    /// an armed handle.
    pub fn deref(&self) -> (content: &T)
        requires
            self.wf(),
        ensures
            *content == self@,
    {
        self.slot.as_ref().unwrap().get()
    }

    /// Borrows the content mutably. The handle stays armed and at its
    /// place, and owns afterwards whatever was written through the borrow.
    pub fn deref_mut(&mut self) -> (content: &mut T)
        requires
            old(self).wf(),
        ensures
            *content == old(self)@,
            final(self).wf(),
            final(self)@ == *final(content),
            (match (old(self).location(), final(self).location()) {
                (Location::Inline(before), Location::Inline(after)) => *final(before) == *final(after),
                (Location::Heap(before), Location::Heap(after)) => *final(before) == *final(after),
                _ => false,
            }),
    {
        self.slot.as_mut().unwrap().get_mut()
    }
}

impl<'a, T> Drop for RefMove<'a, T> {
    /// Destroys the content in place, if the handle still owns it, and
    /// leaves the place empty. A heap cell gives its allocation back with
    /// the content; an inline slot stays with its owner. A handle that is
    /// not armed destroys nothing.
    fn drop(&mut self)
        ensures
            !final(self).wf(),
            old(self).wf() ==> final(self).location().content() is None,
            old(self).wf() ==> (match (old(self).location(), final(self).location()) {
                (Location::Inline(before), Location::Inline(after)) => *final(before) == *final(after),
                (Location::Heap(before), Location::Heap(after)) => *final(before) == *final(after),
                _ => false,
            }),
            !old(self).wf() ==> *final(self) == *old(self),
        opens_invariants none
        no_unwind
    {
        match &mut self.slot {
            Some(Location::Inline(slot)) => {
                match **slot {
                    Some(_) => { **slot = None; },
                    None => {},
                }
            },
            Some(Location::Heap(cell)) => {
                match **cell {
                    Some(_) => { **cell = None; },
                    None => {},
                }
            },
            None => {},
        }
    }
}

} // verus!
