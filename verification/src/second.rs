//! A generic stack that owns its cells outright, with three cursors over
//! it: one that drains the stack, one that reads it and one that hands out
//! each element for writing.
//!
//! The view of a stack is the sequence of its elements, top first. The view
//! of a cursor is the sequence of the elements it has yet to hand out.

use crate::model::{lemma_push_then_pop, lemma_with_top, pushed, rest, top, with_top};
use vstd::prelude::*;
use vstd::std_specs::iter::IteratorSpecImpl;

verus! {

type Link<T> = Option<Box<Node<T>>>;

/// One cell of the chain: an element and the link to the cell below it.
///
/// Cells are made and taken apart by the stack alone. The type is public
/// only because the contracts of [`IterMut`] speak of the cell a cursor
/// stands on.
pub struct Node<T> {
    elem: T,
    next: Link<T>,
}

/// A last-in, first-out stack.
pub struct List<T> {
    head: Link<T>,
}

/// The elements of the chain that starts at `link`, first cell first.
spec fn link_seq<T>(link: Link<T>) -> Seq<T>
    decreases link,
{
    match link {
        None => Seq::empty(),
        Some(node) => pushed(link_seq(node.next), node.elem),
    }
}

/// The elements of the chain whose first cell is `node`, that cell's
/// element first.
pub closed spec fn node_seq<T>(node: Node<T>) -> Seq<T> {
    pushed(link_seq(node.next), node.elem)
}

/// The elements of the chain whose first cell is `node`; none where there
/// is no cell.
pub open spec fn chain_seq<T>(node: Option<Node<T>>) -> Seq<T> {
    match node {
        None => Seq::empty(),
        Some(node) => node_seq(node),
    }
}

/// Takes the link out of `slot` and leaves an empty link behind.
fn detach<T>(slot: &mut Link<T>) -> (link: Link<T>)
    ensures
        link == *old(slot),
        *final(slot) is None,
    opens_invariants none
    no_unwind
{
    let mut link = None;
    core::mem::swap(slot, &mut link);
    link
}

impl<T> View for List<T> {
    type V = Seq<T>;

    closed spec fn view(&self) -> Seq<T> {
        link_seq(self.head)
    }
}

impl<T> List<T> {
    /// An empty stack.
    pub fn new() -> (list: Self)
        ensures
            list@ == Seq::<T>::empty(),
    {
        List { head: None }
    }

    /// Puts `elem` on top of the stack.
    pub fn push(&mut self, elem: T)
        ensures
            final(self)@ == pushed(old(self)@, elem),
    {
        let new_node = Box::new(Node { elem: elem, next: self.head.take() });
        self.head = Some(new_node);
    }

    /// Removes the top element and returns it; `None` on an empty stack,
    /// which stays empty.
    pub fn pop(&mut self) -> (res: Option<T>)
        ensures
            res == top(old(self)@),
            final(self)@ == rest(old(self)@),
    {
        match self.head.take() {
            None => None,
            Some(boxed_node) => {
                let node = *boxed_node;
                proof {
                    lemma_push_then_pop(link_seq(node.next), node.elem);
                }
                self.head = node.next;
                Some(node.elem)
            },
        }
    }

    /// A shared reference to the top element; `None` on an empty stack.
    pub fn peek(&self) -> (res: Option<&T>)
        ensures
            res is Some <==> top(self@) is Some,
            res is Some ==> top(self@) == Some(*res->0),
    {
        match &self.head {
            None => None,
            Some(node) => Some(&node.elem),
        }
    }

    /// An exclusive reference to the top element; `None` on an empty
    /// stack. Whatever the caller leaves behind the reference is the top
    /// element from then on; the elements below it are untouched.
    pub fn peek_mut(&mut self) -> (res: Option<&mut T>)
        ensures
            res is Some <==> top(old(self)@) is Some,
            res is Some ==> top(old(self)@) == Some(*res->0),
            res is Some ==> final(self)@ == with_top(old(self)@, *final(res->0)),
            res is None ==> final(self)@ == old(self)@,
    {
        match &mut self.head {
            None => None,
            Some(node) => {
                proof {
                    lemma_with_top(node_seq(**node), node.elem);
                }
                Some(&mut node.elem)
            },
        }
    }

    /// Turns the stack into a cursor that drains it.
    pub fn into_iter(self) -> (it: IntoIter<T>)
        ensures
            it@ == self@,
    {
        IntoIter(self)
    }

    /// A cursor over the elements, top first. The stack is left as it is,
    /// so every call starts the same walk again, and any number of such
    /// cursors may be at work at once.
    pub fn iter<'a>(&'a self) -> (it: Iter<'a, T>)
        ensures
            it@ == self@,
    {
        Iter {
            next: match &self.head {
                None => None,
                Some(node) => Some(&**node),
            },
        }
    }

    /// A cursor that hands out the elements for writing, top first. Once
    /// the cursor and the references it gave out are done with, the stack
    /// holds what was left behind them: the elements that the chain from
    /// the cursor's first cell on holds in the end.
    pub fn iter_mut(&mut self) -> (it: IterMut<'_, T>)
        ensures
            it@ == old(self)@,
            final(self)@ == chain_seq(
                match it.cursor() {
                    None => None,
                    Some(node) => Some(*final(node)),
                },
            ),
    {
        IterMut {
            next: match &mut self.head {
                None => None,
                Some(node) => Some(&mut **node),
            },
        }
    }
}

impl<T> Drop for List<T> {
    /// Releases the cells one at a time, from the top down: each cell is
    /// cut off from the one below it before it is freed, so freeing a cell
    /// never reaches into the rest of the chain.
    fn drop(&mut self)
        ensures
            final(self)@ == Seq::<T>::empty(),
        opens_invariants none
        no_unwind
    {
        let mut cur_link = detach(&mut self.head);
        loop
            invariant
                self.head is None,
            decreases link_seq(cur_link).len(),
        {
            match cur_link {
                None => {
                    break ;
                },
                Some(mut boxed_node) => {
                    cur_link = detach(&mut boxed_node.next);
                    // The cell freed at the end of this arm stands alone.
                    assert(boxed_node.next is None);
                },
            }
        }
    }
}

/// A cursor that owns the stack and hands its elements out by removing
/// them, top first.
pub struct IntoIter<T>(List<T>);

impl<T> View for IntoIter<T> {
    type V = Seq<T>;

    closed spec fn view(&self) -> Seq<T> {
        self.0@
    }
}

impl<T> Iterator for IntoIter<T> {
    type Item = T;

    /// Removes the top element of the stack it owns and returns it;
    /// `None` once the stack is empty, and from then on.
    fn next(&mut self) -> (res: Option<T>)
        ensures
            res == top(old(self)@),
            final(self)@ == rest(old(self)@),
    {
        self.0.pop()
    }
}

impl<T> IteratorSpecImpl for IntoIter<T> {
    open spec fn obeys_prophetic_iter_laws(&self) -> bool {
        true
    }

    open spec fn remaining(&self) -> Seq<T> {
        self@
    }

    open spec fn will_return_none(&self) -> bool {
        true
    }

    open spec fn decrease(&self) -> Option<nat> {
        Some(self@.len())
    }

    open spec fn initial_value_relation(&self, init: &Self) -> bool {
        init@ == self@
    }

    open spec fn peek(&self, index: int) -> Option<T> {
        if 0 <= index < self@.len() {
            Some(self@[index])
        } else {
            None
        }
    }
}

/// A cursor that reads the stack from the top down.
pub struct Iter<'a, T> {
    next: Option<&'a Node<T>>,
}

impl<'a, T> View for Iter<'a, T> {
    type V = Seq<T>;

    closed spec fn view(&self) -> Seq<T> {
        match self.next {
            None => Seq::empty(),
            Some(node) => node_seq(*node),
        }
    }
}

impl<'a, T> Iterator for Iter<'a, T> {
    type Item = &'a T;

    /// A reference to the element the cursor stands on, and a step to the
    /// cell below; `None` at the end of the chain, and from then on.
    fn next(&mut self) -> (res: Option<&'a T>)
        ensures
            res is Some <==> top(old(self)@) is Some,
            res is Some ==> top(old(self)@) == Some(*res->0),
            final(self)@ == rest(old(self)@),
    {
        match self.next {
            None => None,
            Some(node) => {
                proof {
                    lemma_push_then_pop(link_seq(node.next), node.elem);
                }
                self.next = match &node.next {
                    None => None,
                    Some(below) => Some(&**below),
                };
                Some(&node.elem)
            },
        }
    }
}

impl<'a, T> IteratorSpecImpl for Iter<'a, T> {
    open spec fn obeys_prophetic_iter_laws(&self) -> bool {
        true
    }

    open spec fn remaining(&self) -> Seq<&'a T> {
        self@.map_values(|elem: T| &elem)
    }

    open spec fn will_return_none(&self) -> bool {
        true
    }

    open spec fn decrease(&self) -> Option<nat> {
        Some(self@.len())
    }

    open spec fn initial_value_relation(&self, init: &Self) -> bool {
        init@ == self@
    }

    open spec fn peek(&self, index: int) -> Option<&'a T> {
        if 0 <= index < self@.len() {
            Some(&self@[index])
        } else {
            None
        }
    }
}

/// A cursor that hands out each element of the stack once, for writing,
/// from the top down. Its view holds the elements it has yet to hand out,
/// as they stand now.
///
/// While the cursor or a reference it gave out is alive, the stack cannot
/// be reached in any other way. What the stack holds afterwards is told in
/// terms of [`IterMut::cursor`]: `iter_mut` says that the stack will hold
/// what the chain from the cursor's cell on holds in the end, and each
/// `next` says that this is what the caller leaves behind the reference it
/// got, followed by the same for the cursor after the step. After the last
/// use of the cursor, [`IterMut::lemma_settled`] closes the chain.
pub struct IterMut<'a, T> {
    next: Option<&'a mut Node<T>>,
}

impl<'a, T> View for IterMut<'a, T> {
    type V = Seq<T>;

    closed spec fn view(&self) -> Seq<T> {
        match self.next {
            None => Seq::empty(),
            Some(node) => node_seq(*node),
        }
    }
}

impl<'a, T> IterMut<'a, T> {
    /// The cell the cursor stands on, if any. Behind the reference lies
    /// the chain from that cell down: `node_seq` of what the reference
    /// holds in the end is what the stack will hold from that cell on.
    pub closed spec fn cursor(&self) -> Option<&'a mut Node<T>> {
        self.next
    }

    /// Once the cursor has been used for the last time, the cells it has
    /// not handed out hold in the end what they hold now.
    pub proof fn lemma_settled(self)
        requires
            has_resolved(self),
        ensures
            self@ == chain_seq(
                match self.cursor() {
                    None => None,
                    Some(node) => Some(*final(node)),
                },
            ),
    {
    }
}

impl<'a, T> Iterator for IterMut<'a, T> {
    type Item = &'a mut T;

    /// An exclusive reference to the element the cursor stands on, and a
    /// step to the cell below; `None` at the end of the chain, and from
    /// then on. The cursor gives up the cell before it hands the element
    /// out, so no two references it returns reach the same cell.
    ///
    /// What the stack will hold from the old cell on is what the caller
    /// leaves behind the returned reference, followed by what the stack
    /// will hold from the new cell on.
    fn next(&mut self) -> (res: Option<&'a mut T>)
        ensures
            res is Some <==> top(old(self)@) is Some,
            res is Some ==> top(old(self)@) == Some(*res->0),
            final(self)@ == rest(old(self)@),
            final(self).cursor() is Some <==> top(final(self)@) is Some,
            chain_seq(
                match old(self).cursor() {
                    None => None,
                    Some(node) => Some(*final(node)),
                },
            ) == (match res {
                None => Seq::empty(),
                Some(elem) => pushed(
                    chain_seq(
                        match final(self).cursor() {
                            None => None,
                            Some(node) => Some(*final(node)),
                        },
                    ),
                    *final(elem),
                ),
            }),
    {
        match self.next.take() {
            None => None,
            Some(node) => {
                proof {
                    lemma_push_then_pop(link_seq(node.next), node.elem);
                }
                self.next = match &mut node.next {
                    None => None,
                    Some(below) => Some(&mut **below),
                };
                Some(&mut node.elem)
            },
        }
    }
}

/// The items of this cursor are exclusive references: what each of them
/// holds in the end is up to the caller, which a sequence of items fixed in
/// advance cannot say. So this cursor does not claim the laws that go by
/// such a sequence; `next` states its own contract instead.
impl<'a, T> IteratorSpecImpl for IterMut<'a, T> {
    open spec fn obeys_prophetic_iter_laws(&self) -> bool {
        false
    }

    closed spec fn remaining(&self) -> Seq<&'a mut T> {
        arbitrary()
    }

    open spec fn will_return_none(&self) -> bool {
        true
    }

    open spec fn decrease(&self) -> Option<nat> {
        Some(self@.len())
    }

    open spec fn initial_value_relation(&self, init: &Self) -> bool {
        init@ == self@
    }

    open spec fn peek(&self, index: int) -> Option<&'a mut T> {
        None
    }
}

} // verus!
