//! A stack built from exclusively owned boxed nodes.

use vstd::prelude::*;

verus! {

/// One element of a stack and the owned link to the rest.
pub struct Node<T> {
    element: T,
    next: Option<Box<Node<T>>>,
}

/// The elements reachable from `link`, the first one at index 0.
spec fn link_view<T>(link: Option<Box<Node<T>>>) -> Seq<T>
    decreases link,
{
    match link {
        None => Seq::empty(),
        Some(node) => seq![node.element] + link_view(node.next),
    }
}

/// A last-in, first-out stack; every node has exactly one owner.
pub struct List<T> {
    head: Option<Box<Node<T>>>,
}

impl<T> View for List<T> {
    type V = Seq<T>;

    /// The elements from the top of the stack down.
    closed spec fn view(&self) -> Seq<T> {
        link_view(self.head)
    }
}

impl<T> List<T> {
    /// An empty stack.
    pub fn new() -> (r: Self)
        ensures
            r@ == Seq::<T>::empty(),
    {
        List { head: None }
    }

    /// Puts `element` on top.
    pub fn push(&mut self, element: T)
        ensures
            final(self)@ == seq![element] + old(self)@,
    {
        let new_node = Box::new(Node { element, next: self.head.take() });
        self.head = Some(new_node);
    }

    /// Removes the top element and returns it, or returns `None` when empty.
    pub fn pop(&mut self) -> (r: Option<T>)
        ensures
            old(self)@.len() == 0 ==> r is None && final(self)@ == old(self)@,
            old(self)@.len() > 0 ==> r == Some(old(self)@[0]) && final(self)@ == old(self)@.drop_first(),
    {
        match self.head.take() {
            None => None,
            Some(node) => {
                let node = *node;
                self.head = node.next;
                Some(node.element)
            },
        }
    }

    /// The top element, or `None` when empty.
    pub fn peek(&self) -> (r: Option<&T>)
        ensures
            self@.len() == 0 ==> r is None,
            self@.len() > 0 ==> r == Some(&self@[0]),
    {
        match &self.head {
            None => None,
            Some(node) => Some(&node.element),
        }
    }

    /// The top element for in-place change, or `None` when empty.
    pub fn peek_mut(&mut self) -> (r: Option<&mut T>)
        ensures
            old(self)@.len() == 0 ==> r is None && final(self)@ == old(self)@,
            old(self)@.len() > 0 ==> r is Some && *r->0 == old(self)@[0] && final(self)@
                == old(self)@.update(0, *final(r->0)),
    {
        match &mut self.head {
            None => None,
            Some(node) => Some(&mut node.element),
        }
    }
}

/// Unlinks the nodes one at a time from the top, so that tearing down a long
/// stack needs no deep recursion.
impl<T> Drop for List<T> {
    fn drop(&mut self)
        opens_invariants none
        no_unwind
    {
        let mut cur_link: Option<Box<Node<T>>> = None;
        core::mem::swap(&mut cur_link, &mut self.head);
        loop
            decreases link_view(cur_link).len(),
        {
            match cur_link {
                None => break,
                Some(node) => {
                    let node = *node;
                    cur_link = node.next;
                },
            }
        }
    }
}

/// Iterates by value over the elements of a stack, which it consumes.
pub struct IntoIter<T>(List<T>);

impl<T> View for IntoIter<T> {
    type V = Seq<T>;

    /// The elements still to come.
    closed spec fn view(&self) -> Seq<T> {
        self.0@
    }
}

impl<T> List<T> {
    /// Turns the stack into an iterator that yields its elements from the top down.
    pub fn into_iter(self) -> (r: IntoIter<T>)
        ensures
            r@ == self@,
    {
        IntoIter(self)
    }
}

impl<T> IntoIter<T> {
    /// Removes and returns the next element, or returns `None` when exhausted.
    pub fn next(&mut self) -> (r: Option<T>)
        ensures
            old(self)@.len() == 0 ==> r is None && final(self)@ == old(self)@,
            old(self)@.len() > 0 ==> r == Some(old(self)@[0]) && final(self)@ == old(self)@.drop_first(),
    {
        self.0.pop()
    }
}

/// Iterates over shared references to the elements of a stack.
pub struct Iter<'a, T> {
    next: Option<&'a Node<T>>,
}

impl<'a, T> View for Iter<'a, T> {
    type V = Seq<T>;

    /// The elements still to come.
    closed spec fn view(&self) -> Seq<T> {
        match self.next {
            None => Seq::empty(),
            Some(node) => seq![node.element] + link_view(node.next),
        }
    }
}

impl<T> List<T> {
    /// An iterator over the elements from the top down; the stack is left as it is.
    pub fn iter(&self) -> (r: Iter<'_, T>)
        ensures
            r@ == self@,
    {
        Iter {
            next: match &self.head {
                None => None,
                Some(node) => Some(&**node),
            },
        }
    }
}

impl<'a, T> Iter<'a, T> {
    /// The next element, or `None` when exhausted.
    pub fn next(&mut self) -> (r: Option<&'a T>)
        ensures
            old(self)@.len() == 0 ==> r is None && final(self)@ == old(self)@,
            old(self)@.len() > 0 ==> r == Some(&old(self)@[0]) && final(self)@ == old(self)@.drop_first(),
    {
        match self.next {
            None => None,
            Some(node) => {
                self.next = match &node.next {
                    None => None,
                    Some(next) => Some(&**next),
                };
                Some(&node.element)
            },
        }
    }
}

/// Iterates over mutable references to the elements of a stack.
pub struct IterMut<'a, T> {
    next: Option<&'a mut Node<T>>,
}

impl<'a, T> View for IterMut<'a, T> {
    type V = Seq<T>;

    /// The elements still to come, as they are now.
    closed spec fn view(&self) -> Seq<T> {
        match self.next {
            None => Seq::empty(),
            Some(node) => seq![node.element] + link_view(node.next),
        }
    }
}

impl<'a, T> IterMut<'a, T> {
    /// The node the iterator stands on, if any.
    pub closed spec fn cursor(&self) -> Option<&'a mut Node<T>> {
        self.next
    }
}

impl<T> Node<T> {
    /// The elements of the chain that starts at this node.
    pub closed spec fn chain(self) -> Seq<T> {
        seq![self.element] + link_view(self.next)
    }
}

impl<T> List<T> {
    /// An iterator over mutable references to the elements from the top down;
    /// once it is done the stack holds what was written through them.
    pub fn iter_mut(&mut self) -> (r: IterMut<'_, T>)
        ensures
            r@ == old(self)@,
            r.cursor() is None <==> r@.len() == 0,
            final(self)@ == match r.cursor() {
                None => Seq::empty(),
                Some(node) => final(node).chain(),
            },
    {
        IterMut {
            next: match &mut self.head {
                None => None,
                Some(node) => Some(&mut **node),
            },
        }
    }
}

impl<'a, T> IterMut<'a, T> {
    /// The next element for in-place change, or `None` when exhausted; the
    /// node it was in ends up holding what is written through the reference,
    /// followed by what the rest of the iteration leaves.
    pub fn next(&mut self) -> (r: Option<&'a mut T>)
        ensures
            old(self)@.len() == 0 ==> r is None && final(self)@ == old(self)@,
            old(self)@.len() > 0 ==> r is Some && *r->0 == old(self)@[0] && final(self)@
                == old(self)@.drop_first(),
            final(self).cursor() is None <==> final(self)@.len() == 0,
            match old(self).cursor() {
                None => final(self).cursor() is None,
                Some(node) => r is Some && final(node).chain() == seq![*final(r->0)] + match final(self).cursor() {
                    None => Seq::empty(),
                    Some(next) => final(next).chain(),
                },
            },
    {
        match self.next.take() {
            None => None,
            Some(node) => {
                self.next = match &mut node.next {
                    None => None,
                    Some(next) => Some(&mut **next),
                };
                Some(&mut node.element)
            },
        }
    }
}

/// The stack `s` after pushing the elements of `xs` in order, each push
/// putting one element on top.
pub open spec fn pushed<T>(s: Seq<T>, xs: Seq<T>) -> Seq<T>
    decreases xs.len(),
{
    if xs.len() == 0 {
        s
    } else {
        seq![xs.last()] + pushed(s, xs.drop_last())
    }
}

/// Popping `n` times from the stack `s`: the elements returned, in the order
/// they come, and the stack that is left; a pop on an empty stack returns
/// nothing and leaves it empty.
pub open spec fn popped<T>(s: Seq<T>, n: nat) -> (Seq<T>, Seq<T>)
    decreases n,
{
    if n == 0 || s.len() == 0 {
        (Seq::empty(), s)
    } else {
        let (out, rest) = popped(s.drop_first(), (n - 1) as nat);
        (seq![s[0]] + out, rest)
    }
}

/// Last in, first out: pushing any elements onto any stack and then popping
/// as many times returns those elements in reverse order of their pushes and
/// leaves the stack as it was.
pub proof fn lemma_pops_reverse_pushes<T>(s: Seq<T>, xs: Seq<T>)
    ensures
        popped(pushed(s, xs), xs.len()) == (xs.reverse(), s),
    decreases xs.len(),
{
    if xs.len() > 0 {
        let init = xs.drop_last();
        lemma_pops_reverse_pushes(s, init);
        let p = pushed(s, xs);
        assert(p.drop_first() =~= pushed(s, init));
        assert(xs.reverse() =~= seq![xs.last()] + init.reverse());
    } else {
        assert(xs.reverse() =~= Seq::<T>::empty());
    }
}

} // verus!
