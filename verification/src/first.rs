//! A stack of `i32` whose link is an enum of its own and whose updates go
//! through swapping a link out of its slot.
//!
//! The view of a stack is the sequence of its elements, top first.

use crate::model::{lemma_push_then_pop, pushed, rest, top};
use vstd::prelude::*;

verus! {

/// A last-in, first-out stack of `i32`.
pub struct List {
    head: Link,
}

/// Either the end of the chain or the cell that comes next.
enum Link {
    Empty,
    More(Box<Node>),
}

/// One cell of the chain: an element and the link to the cell below it.
struct Node {
    elem: i32,
    next: Link,
}

/// The elements of the chain that starts at `link`, first cell first.
spec fn link_seq(link: Link) -> Seq<i32>
    decreases link,
{
    match link {
        Link::Empty => Seq::empty(),
        Link::More(node) => pushed(link_seq(node.next), node.elem),
    }
}

/// Takes the link out of `slot` and leaves `Link::Empty` behind.
fn detach(slot: &mut Link) -> (link: Link)
    ensures
        link == *old(slot),
        *final(slot) == Link::Empty,
    opens_invariants none
    no_unwind
{
    let mut link = Link::Empty;
    core::mem::swap(slot, &mut link);
    link
}

impl View for List {
    type V = Seq<i32>;

    closed spec fn view(&self) -> Seq<i32> {
        link_seq(self.head)
    }
}

impl List {
    /// An empty stack.
    pub fn new() -> (list: Self)
        ensures
            list@ == Seq::<i32>::empty(),
    {
        List { head: Link::Empty }
    }

    /// Puts `elem` on top of the stack.
    pub fn push(&mut self, elem: i32)
        ensures
            final(self)@ == pushed(old(self)@, elem),
    {
        let new_node = Box::new(Node { elem: elem, next: detach(&mut self.head) });
        self.head = Link::More(new_node);
    }

    /// Removes the top element and returns it; `None` on an empty stack,
    /// which stays empty.
    pub fn pop(&mut self) -> (res: Option<i32>)
        ensures
            res == top(old(self)@),
            final(self)@ == rest(old(self)@),
    {
        let result;
        match detach(&mut self.head) {
            Link::Empty => {
                result = None;
            },
            Link::More(boxed_node) => {
                let node = *boxed_node;
                proof {
                    lemma_push_then_pop(link_seq(node.next), node.elem);
                }
                result = Some(node.elem);
                self.head = node.next;
            },
        };
        result
    }
}

impl Drop for List {
    /// Releases the cells one at a time, from the top down: each cell is
    /// cut off from the one below it before it is freed, so freeing a cell
    /// never reaches into the rest of the chain.
    fn drop(&mut self)
        ensures
            final(self)@ == Seq::<i32>::empty(),
        opens_invariants none
        no_unwind
    {
        let mut cur_link = detach(&mut self.head);
        loop
            invariant
                self.head == Link::Empty,
            decreases link_seq(cur_link).len(),
        {
            match cur_link {
                Link::Empty => {
                    break ;
                },
                Link::More(mut boxed_node) => {
                    cur_link = detach(&mut boxed_node.next);
                    // The cell freed at the end of this arm stands alone.
                    assert(boxed_node.next == Link::Empty);
                },
            }
        }
    }
}

} // verus!
