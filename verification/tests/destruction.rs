use refmove::anchor::{BoxAnchor, StackAnchor};
use refmove::{Anchor, AnchorExt, RefMove};
use std::cell::Cell;
use std::rc::Rc;

struct Resource {
    drops: Rc<Cell<u32>>,
}

impl Drop for Resource {
    fn drop(&mut self) {
        self.drops.set(self.drops.get() + 1);
    }
}

fn resource(drops: &Rc<Cell<u32>>) -> Resource {
    Resource { drops: drops.clone() }
}

#[test]
fn unused_handle_from_the_stack_destroys_once() {
    let drops = Rc::new(Cell::new(0));
    {
        let mut anchor = resource(&drops).anchor();
        {
            let _handle = anchor.borrow_move();
            assert_eq!(drops.get(), 0);
        }
        assert_eq!(drops.get(), 1);
    }
    assert_eq!(drops.get(), 1);
}

#[test]
fn unused_handle_from_the_heap_destroys_once() {
    let drops = Rc::new(Cell::new(0));
    {
        let mut anchor = Box::new(resource(&drops)).anchor_box::<Resource>();
        {
            let _handle = anchor.borrow_move();
            assert_eq!(drops.get(), 0);
        }
        assert_eq!(drops.get(), 1);
    }
    assert_eq!(drops.get(), 1);
}

#[test]
fn unused_handle_from_a_handle_destroys_once() {
    let drops = Rc::new(Cell::new(0));
    {
        let mut origin = resource(&drops).anchor();
        {
            let mut identity = origin.borrow_move().anchor_box::<Resource>();
            {
                let _handle = identity.borrow_move();
                assert_eq!(drops.get(), 0);
            }
            assert_eq!(drops.get(), 1);
        }
        assert_eq!(drops.get(), 1);
    }
    assert_eq!(drops.get(), 1);
}

#[test]
fn extraction_hands_the_destruction_to_the_value() {
    let drops = Rc::new(Cell::new(0));
    {
        let mut anchor = resource(&drops).anchor();
        let extracted = anchor.borrow_move().into_inner();
        assert_eq!(drops.get(), 0);
        drop(anchor);
        assert_eq!(drops.get(), 0);
        drop(extracted);
        assert_eq!(drops.get(), 1);
    }
    assert_eq!(drops.get(), 1);
}

#[test]
fn extraction_from_the_heap_hands_the_destruction_to_the_value() {
    let drops = Rc::new(Cell::new(0));
    {
        let mut anchor = Box::new(resource(&drops)).anchor_box::<Resource>();
        let extracted = anchor.borrow_move().into_inner();
        assert_eq!(drops.get(), 0);
        drop(anchor);
        assert_eq!(drops.get(), 0);
        drop(extracted);
        assert_eq!(drops.get(), 1);
    }
    assert_eq!(drops.get(), 1);
}

#[test]
fn an_anchor_never_borrowed_destroys_once() {
    let drops = Rc::new(Cell::new(0));
    {
        let _stack = StackAnchor::anchor_from(resource(&drops));
        let _heap = BoxAnchor::anchor_from(Box::new(resource(&drops)));
        assert_eq!(drops.get(), 0);
    }
    assert_eq!(drops.get(), 2);
}

#[test]
fn an_identity_anchor_never_borrowed_destroys_once() {
    let drops = Rc::new(Cell::new(0));
    let mut origin = resource(&drops).anchor();
    {
        let _identity = origin.borrow_move().anchor_box::<Resource>();
        assert_eq!(drops.get(), 0);
    }
    assert_eq!(drops.get(), 1);
    drop(origin);
    assert_eq!(drops.get(), 1);
}

#[test]
fn a_location_given_up_leaves_the_content_to_the_storage() {
    let drops = Rc::new(Cell::new(0));
    let mut slot = Some(resource(&drops));
    {
        let handle = RefMove::from_mut(&mut slot);
        let _location = RefMove::into_ptr(handle);
    }
    assert_eq!(drops.get(), 0);
    assert!(slot.is_some());
    drop(slot);
    assert_eq!(drops.get(), 1);
}

#[test]
fn a_handle_passed_on_destroys_in_the_callee() {
    fn consume(handle: RefMove<Resource>) -> u32 {
        handle.deref().drops.get()
    }
    let drops = Rc::new(Cell::new(0));
    let mut anchor = resource(&drops).anchor();
    assert_eq!(consume(anchor.borrow_move()), 0);
    assert_eq!(drops.get(), 1);
    drop(anchor);
    assert_eq!(drops.get(), 1);
}

#[test]
fn the_box_keeps_the_content_where_it_was() {
    let boxed = Box::new("fuga".to_string());
    let before = format!("{:p}", &*boxed);
    let mut anchor = boxed.anchor_box::<String>();
    let mut handle = anchor.borrow_move();
    assert_eq!(format!("{:p}", handle.deref()), before);
    assert_eq!(format!("{:p}", handle.deref_mut()), before);
    let mut identity = handle.anchor_box::<String>();
    let handle = identity.borrow_move();
    assert_eq!(format!("{:p}", handle.deref()), before);
}

struct Witness {
    last_seen: Rc<Cell<usize>>,
    weight: u64,
}

impl Witness {
    fn address(&self) -> usize {
        let text = format!("{:p}", self);
        usize::from_str_radix(text.trim_start_matches("0x"), 16).unwrap()
    }
}

impl Drop for Witness {
    fn drop(&mut self) {
        self.last_seen.set(self.address());
    }
}

#[test]
fn the_box_is_destroyed_where_it_was_allocated() {
    let last_seen = Rc::new(Cell::new(0));

    let boxed = Box::new(Witness { last_seen: last_seen.clone(), weight: 1 });
    let allocated = boxed.address();
    assert_ne!(allocated, 0);
    {
        let _never_borrowed = boxed.anchor_box::<Witness>();
    }
    assert_eq!(last_seen.get(), allocated);

    last_seen.set(0);
    let boxed = Box::new(Witness { last_seen: last_seen.clone(), weight: 2 });
    let allocated = boxed.address();
    {
        let mut anchor = boxed.anchor_box::<Witness>();
        let handle = anchor.borrow_move();
        assert_eq!(handle.deref().address(), allocated);
        assert_eq!(handle.deref().weight, 2);
    }
    assert_eq!(last_seen.get(), allocated);
}
