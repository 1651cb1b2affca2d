//! The mathematical model shared by every list in this crate.
//!
//! A list is a sequence whose element at index 0 is the head (the top of the
//! stack). [`pushed`], [`top`], [`rest`] and [`with_top`] say what adding an
//! element at the head, looking at the head, removing the head and
//! overwriting the head mean on such a sequence; the contracts of the lists
//! and of their cursors are written in these terms. The lemmas state what
//! follows for any list that keeps to those contracts.

use vstd::prelude::*;

verus! {

/// The sequence with `elem` placed in front of `s`.
pub open spec fn pushed<T>(s: Seq<T>, elem: T) -> Seq<T> {
    seq![elem] + s
}

/// The head of `s`, or `None` when `s` is empty.
pub open spec fn top<T>(s: Seq<T>) -> Option<T> {
    if s.len() > 0 {
        Some(s[0])
    } else {
        None
    }
}

/// What is left of `s` once its head is removed. An empty sequence stays empty.
pub open spec fn rest<T>(s: Seq<T>) -> Seq<T> {
    if s.len() > 0 {
        s.subrange(1, s.len() as int)
    } else {
        s
    }
}

/// `s` with its head replaced by `elem`. An empty sequence stays empty.
pub open spec fn with_top<T>(s: Seq<T>, elem: T) -> Seq<T> {
    if s.len() > 0 {
        s.update(0, elem)
    } else {
        s
    }
}

/// The elements handed out by taking the head of `s` again and again until
/// none is left, in the order in which they come.
pub open spec fn drained<T>(s: Seq<T>) -> Seq<T>
    decreases s.len(),
{
    match top(s) {
        None => Seq::empty(),
        Some(elem) => pushed(drained(rest(s)), elem),
    }
}

/// Adds the elements of `elems` to `s` one after the other, first to last,
/// each in front of those added before it.
pub open spec fn pushed_all<T>(s: Seq<T>, elems: Seq<T>) -> Seq<T>
    decreases elems.len(),
{
    if elems.len() == 0 {
        s
    } else {
        pushed(pushed_all(s, elems.drop_last()), elems.last())
    }
}

/// A pushed element is the new head, and removing it gives back the
/// sequence as it was before.
pub proof fn lemma_push_then_pop<T>(s: Seq<T>, elem: T)
    ensures
        top(pushed(s, elem)) == Some(elem),
        rest(pushed(s, elem)) == s,
        pushed(s, elem).len() == s.len() + 1,
{
    assert(rest(pushed(s, elem)) =~= s);
}

/// A sequence with a head is that head pushed onto the rest.
pub proof fn lemma_top_and_rest<T>(s: Seq<T>)
    requires
        s.len() > 0,
    ensures
        s == pushed(rest(s), s[0]),
        rest(s).len() == s.len() - 1,
{
    assert(s =~= pushed(rest(s), s[0]));
}

/// The empty sequence has no head, and removing its head leaves it empty.
pub proof fn lemma_empty<T>()
    ensures
        top(Seq::<T>::empty()) is None,
        rest(Seq::<T>::empty()) == Seq::<T>::empty(),
        drained(Seq::<T>::empty()) == Seq::<T>::empty(),
{
}

/// Last in, first out: after `a`, `b`, `c` are pushed in that order, the
/// heads removed one after the other are `c`, `b`, `a`, and what is left is
/// the sequence from before the pushes. On an empty start a fourth removal
/// finds nothing.
pub proof fn lemma_lifo<T>(s: Seq<T>, a: T, b: T, c: T)
    ensures
        ({
            let s3 = pushed(pushed(pushed(s, a), b), c);
            &&& top(s3) == Some(c)
            &&& top(rest(s3)) == Some(b)
            &&& top(rest(rest(s3))) == Some(a)
            &&& rest(rest(rest(s3))) == s
            &&& s.len() == 0 ==> top(rest(rest(rest(s3)))) is None
        }),
{
    let s1 = pushed(s, a);
    let s2 = pushed(s1, b);
    lemma_push_then_pop(s, a);
    lemma_push_then_pop(s1, b);
    lemma_push_then_pop(s2, c);
}

/// Last in, first out, for any number of elements: what was pushed comes
/// back in reverse order, in front of what was there before.
pub proof fn lemma_pushed_all_reverses<T>(s: Seq<T>, elems: Seq<T>)
    ensures
        pushed_all(s, elems) == elems.reverse() + s,
    decreases elems.len(),
{
    if elems.len() == 0 {
        assert(elems.reverse() + s =~= s);
    } else {
        lemma_pushed_all_reverses(s, elems.drop_last());
        assert(pushed(elems.drop_last().reverse() + s, elems.last()) =~= elems.reverse() + s);
    }
}

/// Replacing the head changes the head and nothing else.
pub proof fn lemma_with_top<T>(s: Seq<T>, elem: T)
    requires
        s.len() > 0,
    ensures
        top(with_top(s, elem)) == Some(elem),
        rest(with_top(s, elem)) == rest(s),
        with_top(s, elem) == pushed(rest(s), elem),
{
    assert(rest(with_top(s, elem)) =~= rest(s));
    assert(with_top(s, elem) =~= pushed(rest(s), elem));
}

/// Taking heads until none is left hands out every element of the
/// sequence, head first: a walk from head to tail sees the list as it is.
pub proof fn lemma_drained_is_identity<T>(s: Seq<T>)
    ensures
        drained(s) == s,
    decreases s.len(),
{
    if s.len() > 0 {
        lemma_drained_is_identity(rest(s));
        lemma_top_and_rest(s);
    } else {
        assert(s =~= Seq::empty());
    }
}

} // verus!
