//! An immutable list whose cells are shared by reference counting: putting
//! an element in front, or leaving the first one out, gives a new list that
//! shares the cells of the old one, and the old one stays as it was.
//!
//! No operation changes a cell once it is made, and none moves an element
//! out of a cell, since another list may hold the same cell. So there is no
//! `pop` here, no cursor that drains and no cursor that writes.
//!
//! The view of a list is the sequence of its elements, head first. The view
//! of a cursor is the sequence of the elements it has yet to hand out.

use crate::model::{lemma_push_then_pop, pushed, rest, top};
use std::rc::Rc;
use vstd::prelude::*;
use vstd::std_specs::iter::IteratorSpecImpl;

verus! {

type Link<T> = Option<Rc<Node<T>>>;

/// One cell of the chain: an element and the link to the cell after it.
struct Node<T> {
    elem: T,
    next: Link<T>,
}

/// A persistent list.
pub struct List<T> {
    head: Link<T>,
}

/// The elements of the chain that starts at `link`, first cell first.
spec fn link_seq<T>(link: Link<T>) -> Seq<T>
    decreases link,
{
    match link {
        None => Seq::empty(),
        Some(node) => pushed(link_seq(node.next), node.elem),
    }
}

/// The elements of the chain whose first cell is `node`, that cell's
/// element first.
spec fn node_seq<T>(node: Node<T>) -> Seq<T> {
    pushed(link_seq(node.next), node.elem)
}

/// The first cell of a chain holds the head of its elements, and the rest
/// of them are the elements of the chain after it.
proof fn lemma_first_cell<T>(node: Node<T>)
    ensures
        top(node_seq(node)) == Some(node.elem),
        rest(node_seq(node)) == link_seq(node.next),
{
    lemma_push_then_pop(link_seq(node.next), node.elem);
}

/// `Rc::clone`: one more handle on the value that `handle` points to. The
/// value is not copied: both handles stand for the same one.
#[verifier::external_body]
fn share<T>(handle: &Rc<T>) -> (other: Rc<T>)
    ensures
        other == *handle,
{
    Rc::clone(handle)
}

/// `Rc::try_unwrap`: the value itself where `handle` was the last handle on
/// it, else the handle back. Which of the two comes depends on how many
/// handles there are, of which nothing is said here. The call does not
/// unwind: a destructor may only make calls of which that is stated, and
/// the contract that vstd gives `Rc::try_unwrap` leaves it open.
#[verifier::external_body]
fn sole_owner<T>(handle: Rc<T>) -> (res: Result<T, Rc<T>>)
    ensures
        res matches Ok(value) ==> value == *handle,
        res matches Err(same) ==> same == handle,
    opens_invariants none
    no_unwind
{
    Rc::try_unwrap(handle)
}

/// Takes the link out of `slot` and leaves an empty link behind.
fn detach<T>(slot: &mut Link<T>) -> (link: Link<T>)
    ensures
        link == *old(slot),
        *final(slot) is None,
    opens_invariants none
    no_unwind
{
    let mut link = None;
    core::mem::swap(slot, &mut link);
    link
}

/// Frees the cell where `outcome` holds it, which is where the handle just
/// given up was the last one on it, and returns the link to the cell after
/// it: the next handle to give up. Where `outcome` holds the handle, another
/// list still has the cell, and there is nothing more to give up: that cell
/// and all after it stay.
fn release_cell<T>(outcome: Result<Node<T>, Rc<Node<T>>>) -> (next: Link<T>)
    ensures
        outcome matches Ok(node) ==> next == node.next,
        outcome is Err ==> next is None,
    opens_invariants none
    no_unwind
{
    match outcome {
        Ok(mut node) => {
            let next = detach(&mut node.next);
            // The cell freed at the end of this arm stands alone.
            assert(node.next is None);
            next
        },
        Err(_) => None,
    }
}

/// A second handle on the cell that `link` points to, if there is one.
fn share_link<T>(link: &Link<T>) -> (shared: Link<T>)
    ensures
        shared == *link,
{
    match link {
        None => None,
        Some(handle) => Some(share(handle)),
    }
}

impl<T> View for List<T> {
    type V = Seq<T>;

    closed spec fn view(&self) -> Seq<T> {
        link_seq(self.head)
    }
}

impl<T> List<T> {
    /// An empty list.
    pub fn new() -> (list: Self)
        ensures
            list@ == Seq::<T>::empty(),
    {
        List { head: None }
    }

    /// A list with `elem` in front of the elements of this one. This list
    /// is left as it is; the new one shares its cells.
    pub fn append(&self, elem: T) -> (list: List<T>)
        ensures
            list@ == pushed(self@, elem),
    {
        List { head: Some(Rc::new(Node { elem: elem, next: share_link(&self.head) })) }
    }

    /// A list of all elements of this one but the first; of an empty list,
    /// an empty list. This list is left as it is; the new one shares its
    /// cells.
    pub fn tail(&self) -> (list: List<T>)
        ensures
            list@ == rest(self@),
    {
        List {
            head: match &self.head {
                None => None,
                Some(handle) => {
                    let node: &Node<T> = &**handle;
                    proof {
                        lemma_first_cell(*node);
                    }
                    share_link(&node.next)
                },
            },
        }
    }

    /// A reference to the first element; `None` on an empty list.
    pub fn head(&self) -> (res: Option<&T>)
        ensures
            res is Some <==> top(self@) is Some,
            res is Some ==> top(self@) == Some(*res->0),
    {
        match &self.head {
            None => None,
            Some(node) => Some(&node.elem),
        }
    }

    /// A cursor over the elements, head first. The list is left as it is,
    /// so every call starts the same walk again, and any number of such
    /// cursors may be at work at once.
    pub fn iter(&self) -> (it: Iter<'_, T>)
        ensures
            it@ == self@,
    {
        Iter {
            next: match &self.head {
                None => None,
                Some(node) => Some(&**node),
            },
        }
    }
}

impl<T> Drop for List<T> {
    /// Gives up the handle on the first cell. Where that was the last
    /// handle on it, the cell is cut off from the next one and freed, and
    /// the same is done with the next cell, one cell at a time. The walk
    /// ends at the first cell that another list still holds.
    fn drop(&mut self)
        ensures
            final(self)@ == Seq::<T>::empty(),
        opens_invariants none
        no_unwind
    {
        let mut cur_link = detach(&mut self.head);
        loop
            invariant
                self.head is None,
            decreases link_seq(cur_link).len(),
        {
            match cur_link {
                None => {
                    break ;
                },
                Some(handle) => {
                    cur_link = release_cell(sole_owner(handle));
                },
            }
        }
    }
}

/// A cursor that reads the list from the head on.
pub struct Iter<'a, T> {
    next: Option<&'a Node<T>>,
}

impl<'a, T> View for Iter<'a, T> {
    type V = Seq<T>;

    closed spec fn view(&self) -> Seq<T> {
        match self.next {
            None => Seq::empty(),
            Some(node) => node_seq(*node),
        }
    }
}

impl<'a, T> Iterator for Iter<'a, T> {
    type Item = &'a T;

    /// A reference to the element the cursor stands on, and a step to the
    /// next cell; `None` at the end of the chain, and from then on.
    fn next(&mut self) -> (res: Option<&'a T>)
        ensures
            res is Some <==> top(old(self)@) is Some,
            res is Some ==> top(old(self)@) == Some(*res->0),
            final(self)@ == rest(old(self)@),
    {
        match self.next {
            None => None,
            Some(node) => {
                proof {
                    lemma_first_cell(*node);
                }
                self.next = match &node.next {
                    None => None,
                    Some(after) => Some(&**after),
                };
                Some(&node.elem)
            },
        }
    }
}

impl<'a, T> IteratorSpecImpl for Iter<'a, T> {
    open spec fn obeys_prophetic_iter_laws(&self) -> bool {
        true
    }

    open spec fn remaining(&self) -> Seq<&'a T> {
        self@.map_values(|elem: T| &elem)
    }

    open spec fn will_return_none(&self) -> bool {
        true
    }

    open spec fn decrease(&self) -> Option<nat> {
        Some(self@.len())
    }

    open spec fn initial_value_relation(&self, init: &Self) -> bool {
        init@ == self@
    }

    open spec fn peek(&self, index: int) -> Option<&'a T> {
        if 0 <= index < self@.len() {
            Some(&self@[index])
        } else {
            None
        }
    }
}

} // verus!
