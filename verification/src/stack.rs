//! A LIFO stack of values with O(1) push, pop and peek, and
//! top-to-bottom iteration.
//!
//! The stack is backed by a dynamic array whose last element is the
//! top. Its model is the sequence of elements, bottom first.

use vstd::prelude::*;

verus! {

/// A LIFO container. The model `self@` lists the elements bottom
/// first, so the top of the stack is the last element of the model.
pub struct Stack<T> {
    items: Vec<T>,
}

impl<T> View for Stack<T> {
    type V = Seq<T>;

    closed spec fn view(&self) -> Seq<T> {
        self.items@
    }
}

impl<T> Stack<T> {
    /// Constructs a new empty stack.
    pub fn new() -> (r: Stack<T>)
        ensures
            r@ == Seq::<T>::empty(),
    {
        Stack { items: Vec::new() }
    }

    /// Pushes a new value onto the top of the stack.
    pub fn push(&mut self, val: T)
        ensures
            final(self)@ == old(self)@.push(val),
    {
        self.items.push(val);
    }

    /// Pops the top value off the stack, or returns `None` when the
    /// stack is empty.
    pub fn pop(&mut self) -> (r: Option<T>)
        ensures
            old(self)@.len() == 0 ==> r is None && final(self)@ == old(self)@,
            old(self)@.len() > 0 ==> r == Some(old(self)@.last()) && final(self)@ == old(self)@.drop_last(),
    {
        if self.items.len() == 0 {
            None
        } else {
            let v = self.items.pop().unwrap();
            Some(v)
        }
    }

    /// A reference to the top element, without popping it.
    pub fn top(&self) -> (r: Option<&T>)
        ensures
            self@.len() == 0 ==> r is None,
            self@.len() > 0 ==> r == Some(&self@.last()),
    {
        if self.items.len() == 0 {
            None
        } else {
            Some(&self.items[self.items.len() - 1])
        }
    }

    /// A reference to the element `depth` places below the top; depth
    /// 0 is the top itself.
    pub fn peek(&self, depth: usize) -> (r: &T)
        requires
            depth < self@.len(),
        ensures
            *r == self@[self@.len() - 1 - depth],
    {
        &self.items[self.items.len() - 1 - depth]
    }

    /// Whether the stack holds no elements.
    pub fn is_empty(&self) -> (r: bool)
        ensures
            r == (self@.len() == 0),
    {
        self.items.len() == 0
    }

    /// The number of elements on the stack.
    pub fn size(&self) -> (r: usize)
        ensures
            r == self@.len(),
    {
        self.items.len()
    }

    /// Empties the stack of all contents.
    pub fn clear(&mut self)
        ensures
            final(self)@ == Seq::<T>::empty(),
    {
        self.items.clear();
    }

    /// An iterator over the stack's contents, from the top down.
    pub fn iter(&self) -> (r: StackIter<'_, T>)
        ensures
            r.remaining() == self@,
    {
        StackIter { stack: self, pos: self.items.len() }
    }
}

/// An iterator over a stack's contents, yielding elements from the
/// top down.
pub struct StackIter<'a, T> {
    /// The stack iterated over.
    stack: &'a Stack<T>,
    /// How many elements have not been yielded yet.
    pos: usize,
}

impl<'a, T> StackIter<'a, T> {
    /// The elements not yielded yet, bottom first.
    pub closed spec fn remaining(&self) -> Seq<T> {
        if self.pos as int <= self.stack@.len() {
            self.stack@.take(self.pos as int)
        } else {
            self.stack@
        }
    }

    /// The next element from the top down, or `None` when all have
    /// been yielded.
    pub fn next(&mut self) -> (r: Option<&'a T>)
        ensures
            old(self).remaining().len() == 0 ==> r is None && final(self).remaining() == old(self).remaining(),
            old(self).remaining().len() > 0 ==> {
                &&& r == Some(&old(self).remaining().last())
                &&& final(self).remaining() == old(self).remaining().drop_last()
            },
    {
        let n = self.stack.items.len();
        if self.pos > n {
            self.pos = n;
            proof {
                assert(self.stack@.take(n as int) =~= self.stack@);
            }
        }
        if self.pos == 0 {
            proof {
                assert(old(self).remaining() =~= self.remaining());
            }
            None
        } else {
            let r = &self.stack.items[self.pos - 1];
            proof {
                assert(self.remaining().last() == self.stack@[self.pos - 1]);
                assert(self.remaining() == old(self).remaining());
            }
            self.pos = self.pos - 1;
            proof {
                assert(self.remaining() =~= old(self).remaining().drop_last());
            }
            Some(r)
        }
    }
}

} // verus!
