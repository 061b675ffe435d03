use std::rc::Rc;
use crate::model::{rest_n, rest_of, top_of};
use vstd::prelude::*;

verus! {

/// One cell of a chain: it is never changed after it is made, so every stack
/// that reaches it sees the same element and the same remainder.
struct Node<T> {
    elem: T,
    next: Option<Rc<Node<T>>>,
}

/// The elements reachable from a link, the nearest first.
spec fn link_seq<T>(link: Option<Rc<Node<T>>>) -> Seq<T>
    decreases link,
{
    match link {
        None => Seq::empty(),
        Some(node) => seq![node.elem] + link_seq(node.next),
    }
}

/// Relies on `Rc::clone`: the new handle points to the same allocation as the
/// old one, so it holds the same value; only the reference count changes.
#[verifier::external_body]
fn share<U>(rc: &Rc<U>) -> (r: Rc<U>)
    ensures
        r == *rc,
{
    Rc::clone(rc)
}

/// Relies on `Rc::try_unwrap`: with no other handle on the allocation it hands
/// back the value, and otherwise the handle itself, unchanged; it does not panic.
#[verifier::external_body]
fn try_unwrap_rc<U>(rc: Rc<U>) -> (r: Result<U, Rc<U>>)
    ensures
        match r {
            Ok(u) => u == *rc,
            Err(e) => e == rc,
        },
    opens_invariants none
    no_unwind
{
    Rc::try_unwrap(rc)
}

/// A second handle on the same chain of nodes.
fn share_link<T>(link: &Option<Rc<Node<T>>>) -> (r: Option<Rc<Node<T>>>)
    ensures
        r == *link,
{
    match link {
        None => None,
        Some(node) => Some(share(node)),
    }
}

/// A persistent stack: deriving a stack from it, by `prepend` or `tail`,
/// leaves it as it was, and the two share the nodes they have in common.
pub struct PStack<T> {
    head: Option<Rc<Node<T>>>,
}

impl<T> View for PStack<T> {
    type V = Seq<T>;

    /// The elements, the top first.
    closed spec fn view(&self) -> Seq<T> {
        link_seq(self.head)
    }
}

impl<T> PStack<T> {
    /// The empty stack.
    pub fn new() -> (r: Self)
        ensures
            r@ == Seq::<T>::empty(),
    {
        PStack::default()
    }

    /// A new stack with `elem` on top of this one's elements, which it shares
    /// rather than copies.
    pub fn prepend(&self, elem: T) -> (r: PStack<T>)
        ensures
            r@ == seq![elem] + self@,
    {
        PStack { head: Some(Rc::new(Node { elem, next: share_link(&self.head) })) }
    }

    /// The top element, if there is one; nothing is copied.
    pub fn head(&self) -> (r: Option<&T>)
        ensures
            match r {
                Some(x) => top_of(self@) == Some(*x),
                None => top_of(self@) is None,
            },
    {
        match &self.head {
            None => None,
            Some(node) => Some(&node.elem),
        }
    }

    /// The stack below the top, sharing its nodes with this one; the tail of
    /// the empty stack is the empty stack.
    pub fn tail(&self) -> (r: PStack<T>)
        ensures
            r@ == rest_of(self@),
    {
        match &self.head {
            None => PStack { head: None },
            Some(node) => PStack { head: share_link(&node.next) },
        }
    }

    /// A cursor that reads the elements from the top down.
    pub fn iter(&self) -> (r: PStackIter<'_, T>)
        ensures
            r@ == self@,
    {
        match &self.head {
            None => PStackIter { cur: None },
            Some(node) => PStackIter { cur: Some(&**node) },
        }
    }
}

impl<T> Default for PStack<T> {
    fn default() -> (r: Self)
        ensures
            r@ == Seq::<T>::empty(),
    {
        PStack { head: None }
    }
}

impl<T> Drop for PStack<T> {
    /// Releases the nodes that this stack alone holds one at a time, so that
    /// a long chain does not nest one release inside the next; the walk stops
    /// at the first node that another handle still shares.
    fn drop(&mut self)
        opens_invariants none
        no_unwind
    {
        let mut cur: Option<Rc<Node<T>>> = None;
        std::mem::swap(&mut cur, &mut self.head);
        loop
            decreases link_seq(cur).len(),
        {
            match cur {
                None => break,
                Some(rc) => match try_unwrap_rc(rc) {
                    Ok(mut node) => {
                        let mut next: Option<Rc<Node<T>>> = None;
                        std::mem::swap(&mut next, &mut node.next);
                        cur = next;
                    },
                    Err(_) => break,
                },
            }
        }
    }
}

/// A cursor over a stack's elements, from the top down.
pub struct PStackIter<'a, T> {
    cur: Option<&'a Node<T>>,
}

impl<'a, T> View for PStackIter<'a, T> {
    type V = Seq<T>;

    /// The elements that are still to come, the next one first.
    closed spec fn view(&self) -> Seq<T> {
        match self.cur {
            None => Seq::empty(),
            Some(node) => seq![node.elem] + link_seq(node.next),
        }
    }
}

impl<'a, T> PStackIter<'a, T> {
    /// The next element, or `None` once every element has been read.
    pub fn next(&mut self) -> (r: Option<&'a T>)
        ensures
            match r {
                Some(x) => top_of(old(self)@) == Some(*x),
                None => top_of(old(self)@) is None,
            },
            final(self)@ == rest_of(old(self)@),
    {
        match self.cur {
            None => None,
            Some(node) => {
                self.cur = match &node.next {
                    None => None,
                    Some(n) => Some(&**n),
                };
                Some(&node.elem)
            },
        }
    }
}

/// The empty stack has no top, and removing its top any number of times
/// leaves it empty.
pub proof fn lemma_empty_stays_empty<T>(n: nat)
    ensures
        top_of(Seq::<T>::empty()) is None,
        rest_n(Seq::<T>::empty(), n) == Seq::<T>::empty(),
        top_of(rest_n(Seq::<T>::empty(), n)) is None,
    decreases n,
{
    if n > 0 {
        lemma_empty_stays_empty::<T>((n - 1) as nat);
    }
}

/// Putting `x` on top of a stack and reading it back gives `x`, and removing
/// it gives back the stack it was put on.
pub proof fn lemma_prepend_round_trip<T>(s: Seq<T>, x: T)
    ensures
        top_of(seq![x] + s) == Some(x),
        rest_of(seq![x] + s) == s,
{
    assert(rest_of(seq![x] + s) =~= s);
}

/// Elements put on the empty stack as `a`, `b`, `c` come back as `c`, `b`,
/// `a`, and then the stack is empty.
pub proof fn lemma_lifo_order<T>(a: T, b: T, c: T)
    ensures
        ({
            let s = seq![c] + (seq![b] + (seq![a] + Seq::<T>::empty()));
            &&& top_of(rest_n(s, 0)) == Some(c)
            &&& top_of(rest_n(s, 1)) == Some(b)
            &&& top_of(rest_n(s, 2)) == Some(a)
            &&& top_of(rest_n(s, 3)) is None
        }),
{
    let e = Seq::<T>::empty();
    let s1 = seq![a] + e;
    let s2 = seq![b] + s1;
    let s3 = seq![c] + s2;
    lemma_prepend_round_trip(e, a);
    lemma_prepend_round_trip(s1, b);
    lemma_prepend_round_trip(s2, c);
    assert(rest_n(s3, 1) == s2) by {
        reveal_with_fuel(rest_n, 2);
    }
    assert(rest_n(s3, 2) == s1) by {
        reveal_with_fuel(rest_n, 3);
    }
    assert(rest_n(s3, 3) == e) by {
        reveal_with_fuel(rest_n, 4);
    }
}

/// Two stacks built on the remainder of one stack by separate prepends each
/// keep their own top, and both still hold that remainder, unchanged, below it.
pub proof fn lemma_diverging_prepends<T>(s: Seq<T>, x: T, y: T)
    ensures
        top_of(seq![x] + rest_of(s)) == Some(x),
        top_of(seq![y] + rest_of(s)) == Some(y),
        rest_of(seq![x] + rest_of(s)) == rest_of(s),
        rest_of(seq![y] + rest_of(s)) == rest_of(s),
{
    lemma_prepend_round_trip(rest_of(s), x);
    lemma_prepend_round_trip(rest_of(s), y);
}

} // verus!
