use vstd::prelude::*;
use crate::stack_model::{top_of, pushed, popped};

verus! {

/// A stack of `i32`, owning a chain of nodes from the top down.
pub struct List {
    head: Link,
}

/// The owning link from a node (or from the stack) to the rest of the chain.
pub enum Link {
    Empty,
    More(Box<Node>),
}

/// One element together with the rest of the chain below it.
pub struct Node {
    elem: i32,
    next: Link,
}

/// The elements of a chain, bottom first (the head's element is last).
pub closed spec fn link_view(link: Link) -> Seq<i32>
    decreases link,
{
    match link {
        Link::Empty => Seq::empty(),
        Link::More(node) => link_view(node.next).push(node.elem),
    }
}

/// The number of nodes in a chain.
spec fn link_len(link: Link) -> nat
    decreases link,
{
    match link {
        Link::Empty => 0,
        Link::More(node) => link_len(node.next) + 1,
    }
}

impl View for List {
    type V = Seq<i32>;

    closed spec fn view(&self) -> Seq<i32> {
        link_view(self.head)
    }
}

/// Moves the chain out of `link`, leaving it empty.
fn take_link(link: &mut Link) -> (r: Link)
    ensures
        r == *old(link),
        *final(link) == Link::Empty,
    opens_invariants none
    no_unwind
{
    let mut r = Link::Empty;
    core::mem::swap(link, &mut r);
    r
}

impl List {
    /// An empty stack.
    pub fn new() -> (r: Self)
        ensures
            r@ == Seq::<i32>::empty(),
    {
        List { head: Link::Empty }
    }

    /// Puts `elem` on top.
    pub fn push(&mut self, elem: i32)
        ensures
            final(self)@ == pushed(old(self)@, elem),
    {
        let new_node = Box::new(Node { elem, next: take_link(&mut self.head) });
        self.head = Link::More(new_node);
    }

    /// Takes the top element off, or returns `None` when the stack is empty
    /// (which it then stays).
    pub fn pop(&mut self) -> (r: Option<i32>)
        ensures
            r == top_of(old(self)@),
            final(self)@ == popped(old(self)@),
    {
        match take_link(&mut self.head) {
            Link::Empty => None,
            Link::More(node) => {
                let node = *node;
                self.head = node.next;
                Some(node.elem)
            },
        }
    }
}

impl Drop for List {
    /// Takes the chain out, leaving the stack empty, and frees it one node at
    /// a time: each node's successor is detached before the node is released,
    /// so no destructor runs recursively.
    fn drop(&mut self)
        ensures
            final(self)@ == Seq::<i32>::empty(),
        opens_invariants none
        no_unwind
    {
        let mut cur_link = take_link(&mut self.head);
        loop
            decreases link_len(cur_link),
        {
            match cur_link {
                Link::Empty => break,
                Link::More(mut boxed_node) => {
                    cur_link = take_link(&mut boxed_node.next);
                },
            }
        }
    }
}

} // verus!
