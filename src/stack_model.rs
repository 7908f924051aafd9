//! The mathematical model shared by both stacks: contents as a sequence,
//! bottom first, with the top as its last element, and the laws that the
//! stack operations obey over it.
use vstd::prelude::*;

verus! {

/// The element on top of a stack whose contents, bottom first, are `s`.
pub open spec fn top_of<T>(s: Seq<T>) -> Option<T> {
    if s.len() == 0 {
        None
    } else {
        Some(s.last())
    }
}

/// The contents after pushing `x` onto `s`.
pub open spec fn pushed<T>(s: Seq<T>, x: T) -> Seq<T> {
    s.push(x)
}

/// The contents after one pop from `s`: an empty stack stays empty.
pub open spec fn popped<T>(s: Seq<T>) -> Seq<T> {
    if s.len() == 0 {
        s
    } else {
        s.drop_last()
    }
}

/// The contents after the top of a non-empty `s` is overwritten with `v`.
pub open spec fn with_top<T>(s: Seq<T>, v: T) -> Seq<T> {
    if s.len() == 0 {
        s
    } else {
        s.update(s.len() - 1, v)
    }
}

/// The contents after pushing each element of `xs` onto `s`, first to last.
pub open spec fn push_all<T>(s: Seq<T>, xs: Seq<T>) -> Seq<T>
    decreases xs.len(),
{
    if xs.len() == 0 {
        s
    } else {
        pushed(push_all(s, xs.drop_last()), xs.last())
    }
}

/// What `n` pops in a row from `s` return, in the order they return it.
pub open spec fn pop_results<T>(s: Seq<T>, n: nat) -> Seq<Option<T>>
    decreases n,
{
    if n == 0 {
        Seq::empty()
    } else {
        seq![top_of(s)] + pop_results(popped(s), (n - 1) as nat)
    }
}

/// The contents after `n` pops in a row from `s`.
pub open spec fn pop_times<T>(s: Seq<T>, n: nat) -> Seq<T>
    decreases n,
{
    if n == 0 {
        s
    } else {
        pop_times(popped(s), (n - 1) as nat)
    }
}

/// Pushing `xs` appends it on top of what was there.
proof fn lemma_push_all_appends<T>(s: Seq<T>, xs: Seq<T>)
    ensures
        push_all(s, xs) == s + xs,
    decreases xs.len(),
{
    if xs.len() > 0 {
        lemma_push_all_appends(s, xs.drop_last());
        assert(s + xs =~= (s + xs.drop_last()).push(xs.last()));
    }
}

/// Popping `xs.len()` times from `s + xs` hands back `xs` from last to first
/// and leaves `s`.
proof fn lemma_pop_appended<T>(s: Seq<T>, xs: Seq<T>)
    ensures
        pop_times(s + xs, xs.len()) == s,
        pop_results(s + xs, xs.len()).len() == xs.len(),
        forall|i: int| 0 <= i < xs.len()
            ==> pop_results(s + xs, xs.len())[i] == Some(xs[xs.len() - 1 - i]),
    decreases xs.len(),
{
    if xs.len() == 0 {
        assert(s + xs =~= s);
    } else {
        let rest = xs.drop_last();
        assert(popped(s + xs) =~= s + rest);
        assert(top_of(s + xs) == Some(xs.last()));
        lemma_pop_appended(s, rest);
        let r = pop_results(s + xs, xs.len());
        assert(r == seq![Some(xs.last())] + pop_results(s + rest, rest.len()));
        assert forall|i: int| 0 <= i < xs.len() implies r[i] == Some(xs[xs.len() - 1 - i]) by {
            if i > 0 {
                assert(r[i] == pop_results(s + rest, rest.len())[i - 1]);
            }
        }
    }
}

/// Last in, first out: after any pushes of `xs` onto any stack `s`, as many
/// pops return the elements of `xs` in exactly the reverse order of their
/// pushes and leave the stack as it was.
pub proof fn lemma_lifo<T>(s: Seq<T>, xs: Seq<T>)
    ensures
        pop_times(push_all(s, xs), xs.len()) == s,
        pop_results(push_all(s, xs), xs.len()).len() == xs.len(),
        forall|i: int| 0 <= i < xs.len()
            ==> pop_results(push_all(s, xs), xs.len())[i] == Some(xs[xs.len() - 1 - i]),
{
    lemma_push_all_appends(s, xs);
    lemma_pop_appended(s, xs);
}

/// An empty stack pops nothing and stays empty, however often it is popped.
pub proof fn lemma_pop_empty<T>(s: Seq<T>)
    requires
        s.len() == 0,
    ensures
        top_of(s) == None::<T>,
        popped(s) == s,
{
}

/// A push followed by a pop returns the pushed value and restores the stack.
pub proof fn lemma_push_pop<T>(s: Seq<T>, x: T)
    ensures
        top_of(pushed(s, x)) == Some(x),
        popped(pushed(s, x)) == s,
{
    assert(pushed(s, x).drop_last() =~= s);
}

/// A value written over the top of a non-empty stack is what the next peek
/// or pop returns, and the elements below it are untouched.
pub proof fn lemma_write_top<T>(s: Seq<T>, v: T)
    requires
        s.len() > 0,
    ensures
        top_of(with_top(s, v)) == Some(v),
        popped(with_top(s, v)) == popped(s),
        with_top(s, v).len() == s.len(),
{
    assert(with_top(s, v).drop_last() =~= s.drop_last());
}

} // verus!
