use crate::model::{rest_of, top_of};
use vstd::prelude::*;

verus! {

/// One cell of the stack, owned by the cell above it or by the stack.
struct Node<T> {
    elem: T,
    next: Option<Box<Node<T>>>,
}

/// The elements owned through a link, the nearest first.
spec fn link_seq<T>(link: Option<Box<Node<T>>>) -> Seq<T>
    decreases link,
{
    match link {
        None => Seq::empty(),
        Some(node) => seq![node.elem] + link_seq(node.next),
    }
}

/// A last-in, first-out stack whose nodes each have a single owner.
pub struct Stack<T> {
    head: Option<Box<Node<T>>>,
}

impl<T> View for Stack<T> {
    type V = Seq<T>;

    /// The elements, the top first.
    closed spec fn view(&self) -> Seq<T> {
        link_seq(self.head)
    }
}

impl<T> Default for Stack<T> {
    fn default() -> (r: Self)
        ensures
            r@ == Seq::<T>::empty(),
    {
        Stack { head: None }
    }
}

impl<T> Stack<T> {
    /// The empty stack.
    pub fn new() -> (r: Self)
        ensures
            r@ == Seq::<T>::empty(),
    {
        Stack::default()
    }

    /// Puts `elem` on top.
    pub fn push(&mut self, elem: T)
        ensures
            final(self)@ == seq![elem] + old(self)@,
    {
        let old_stack = self.head.take();
        let new_node = Box::new(Node { elem, next: old_stack });
        self.head = Some(new_node);
    }

    /// Takes the top element off, if there is one.
    pub fn pop(&mut self) -> (r: Option<T>)
        ensures
            r == top_of(old(self)@),
            final(self)@ == rest_of(old(self)@),
    {
        match self.head.take() {
            None => None,
            Some(node) => {
                let node = *node;
                self.head = node.next;
                Some(node.elem)
            },
        }
    }

    /// The top element, if there is one.
    pub fn peek(&self) -> (r: Option<&T>)
        ensures
            match r {
                Some(x) => top_of(self@) == Some(*x),
                None => top_of(self@) is None,
            },
    {
        match &self.head {
            None => None,
            Some(node) => Some(&node.elem),
        }
    }

    /// The top element, to be changed in place; the rest stays as it is.
    pub fn peek_mut(&mut self) -> (r: Option<&mut T>)
        ensures
            match r {
                Some(x) => {
                    &&& top_of(old(self)@) == Some(*x)
                    &&& final(self)@ == old(self)@.update(0, *final(x))
                },
                None => {
                    &&& top_of(old(self)@) is None
                    &&& final(self)@ == old(self)@
                },
            },
    {
        match &mut self.head {
            None => None,
            Some(node) => Some(&mut node.elem),
        }
    }

    /// A cursor that reads the elements from the top down.
    pub fn iter(&self) -> (r: StackIter<'_, T>)
        ensures
            r@ == self@,
    {
        match &self.head {
            None => StackIter { next: None },
            Some(node) => StackIter { next: Some(&**node) },
        }
    }

    /// Hands the elements over one by one, the top first.
    pub fn into_iter(self) -> (r: StackIntoIter<T>)
        ensures
            r@ == self@,
    {
        StackIntoIter { stack: self }
    }
}

impl<T> Drop for Stack<T> {
    /// Frees the nodes one at a time, so that a long stack does not nest one
    /// release inside the next.
    fn drop(&mut self)
        opens_invariants none
        no_unwind
    {
        let mut cur: Option<Box<Node<T>>> = None;
        std::mem::swap(&mut cur, &mut self.head);
        loop
            decreases link_seq(cur).len(),
        {
            match cur {
                None => break,
                Some(mut node) => {
                    let mut next: Option<Box<Node<T>>> = None;
                    std::mem::swap(&mut next, &mut node.next);
                    cur = next;
                },
            }
        }
    }
}

/// Takes the elements out of a stack, the top first.
pub struct StackIntoIter<T> {
    stack: Stack<T>,
}

impl<T> View for StackIntoIter<T> {
    type V = Seq<T>;

    /// The elements that are still to come, the next one first.
    closed spec fn view(&self) -> Seq<T> {
        self.stack@
    }
}

impl<T> StackIntoIter<T> {
    /// The next element, or `None` once every element has been handed over.
    pub fn next(&mut self) -> (r: Option<T>)
        ensures
            r == top_of(old(self)@),
            final(self)@ == rest_of(old(self)@),
    {
        self.stack.pop()
    }
}

/// A cursor over a stack's elements, from the top down.
pub struct StackIter<'a, T> {
    next: Option<&'a Node<T>>,
}

impl<'a, T> View for StackIter<'a, T> {
    type V = Seq<T>;

    /// The elements that are still to come, the next one first.
    closed spec fn view(&self) -> Seq<T> {
        match self.next {
            None => Seq::empty(),
            Some(node) => seq![node.elem] + link_seq(node.next),
        }
    }
}

impl<'a, T> StackIter<'a, T> {
    /// The next element, or `None` once every element has been read.
    pub fn next(&mut self) -> (r: Option<&'a T>)
        ensures
            match r {
                Some(x) => top_of(old(self)@) == Some(*x),
                None => top_of(old(self)@) is None,
            },
            final(self)@ == rest_of(old(self)@),
    {
        match self.next {
            None => None,
            Some(node) => {
                self.next = match &node.next {
                    None => None,
                    Some(n) => Some(&**n),
                };
                Some(&node.elem)
            },
        }
    }
}

} // verus!
