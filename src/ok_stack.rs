use vstd::prelude::*;
use crate::stack_model::{top_of, pushed, popped, with_top};

verus! {

/// The owning link from a node (or from the stack) to the rest of the chain.
type Link<T> = Option<Box<Node<T>>>;

/// A stack of `T`, owning a chain of nodes from the top down.
pub struct List<T> {
    head: Link<T>,
}

/// One element together with the rest of the chain below it.
pub struct Node<T> {
    elem: T,
    next: Link<T>,
}

/// The elements of a chain, bottom first (the head's element is last).
pub closed spec fn link_view<T>(link: Link<T>) -> Seq<T>
    decreases link,
{
    match link {
        None => Seq::empty(),
        Some(node) => link_view(node.next).push(node.elem),
    }
}

impl<T> View for List<T> {
    type V = Seq<T>;

    closed spec fn view(&self) -> Seq<T> {
        link_view(self.head)
    }
}

impl<T> List<T> {
    /// An empty stack.
    pub fn new() -> (r: Self)
        ensures
            r@ == Seq::<T>::empty(),
    {
        List { head: None }
    }

    /// Puts `elem` on top.
    pub fn push(&mut self, elem: T)
        ensures
            final(self)@ == pushed(old(self)@, elem),
    {
        let new_node = Box::new(Node { elem, next: take_link(&mut self.head) });
        self.head = Some(new_node);
    }

    /// Takes the top element off, or returns `None` when the stack is empty
    /// (which it then stays).
    pub fn pop(&mut self) -> (r: Option<T>)
        ensures
            r == top_of(old(self)@),
            final(self)@ == popped(old(self)@),
    {
        match take_link(&mut self.head) {
            None => None,
            Some(node) => {
                let node = *node;
                self.head = node.next;
                Some(node.elem)
            },
        }
    }

    /// A shared view of the top element, or `None` when the stack is empty.
    pub fn peek(&self) -> (r: Option<&T>)
        ensures
            opt_deref(r) == top_of(self@),
    {
        match &self.head {
            None => None,
            Some(node) => Some(&node.elem),
        }
    }

    /// A mutable view of the top element, or `None` when the stack is empty.
    /// Whatever is written through it becomes the new top.
    pub fn mut_peek(&mut self) -> (r: Option<&mut T>)
        ensures
            old(self)@.len() == 0 ==> r.is_none() && final(self)@ == old(self)@,
            old(self)@.len() > 0 ==> r.is_some() && *r.unwrap() == old(self)@.last()
                && final(self)@ == with_top(old(self)@, *final(r.unwrap())),
    {
        match self.head.as_mut() {
            None => None,
            Some(node) => Some(&mut node.elem),
        }
    }

    /// Turns the stack into an iterator that pops its elements, top first.
    pub fn into_iter(self) -> (r: IntoIter<T>)
        ensures
            r@ == self@,
    {
        IntoIter(self)
    }
}

/// The value behind an optional shared reference.
pub open spec fn opt_deref<T>(r: Option<&T>) -> Option<T> {
    match r {
        None => None,
        Some(x) => Some(*x),
    }
}

/// A consuming iterator over a stack: each step is one pop.
pub struct IntoIter<T>(pub List<T>);

impl<T> View for IntoIter<T> {
    type V = Seq<T>;

    open spec fn view(&self) -> Seq<T> {
        self.0@
    }
}

impl<T> IntoIter<T> {
    /// The next element in pop order; once the stack is empty, `None` forever.
    pub fn next(&mut self) -> (r: Option<T>)
        ensures
            r == top_of(old(self)@),
            final(self)@ == popped(old(self)@),
    {
        self.0.pop()
    }
}

/// Moves the chain out of `link`, leaving it empty.
fn take_link<T>(link: &mut Link<T>) -> (r: Link<T>)
    ensures
        r == *old(link),
        final(link).is_none(),
    opens_invariants none
    no_unwind
{
    let mut r = None;
    core::mem::swap(link, &mut r);
    r
}

/// The number of nodes in a chain.
spec fn link_len<T>(link: Link<T>) -> nat
    decreases link,
{
    match link {
        None => 0,
        Some(node) => link_len(node.next) + 1,
    }
}

impl<T> Drop for List<T> {
    /// Takes the chain out, leaving the stack empty, and frees it one node at
    /// a time: each node's successor is detached before the node is released,
    /// so no destructor runs recursively.
    fn drop(&mut self)
        ensures
            final(self)@ == Seq::<T>::empty(),
        opens_invariants none
        no_unwind
    {
        let mut cur_link = take_link(&mut self.head);
        loop
            decreases link_len(cur_link),
        {
            match cur_link {
                None => break,
                Some(mut boxed_node) => {
                    cur_link = take_link(&mut boxed_node.next);
                },
            }
        }
    }
}

} // verus!
