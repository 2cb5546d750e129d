//! A persistent list whose nodes are shared through reference counting.

use std::rc::Rc;
use vstd::prelude::*;

verus! {

/// One element of a list and the shared link to the rest.
struct Node<T> {
    element: T,
    next: Option<Rc<Node<T>>>,
}

/// The elements reachable from `link`, the first one at index 0.
spec fn link_view<T>(link: Option<Rc<Node<T>>>) -> Seq<T>
    decreases link,
{
    match link {
        None => Seq::empty(),
        Some(node) => seq![node.element] + link_view(node.next),
    }
}

/// An immutable list; lists derived from one another share their common tail.
pub struct List<T> {
    head: Option<Rc<Node<T>>>,
}

impl<T> View for List<T> {
    type V = Seq<T>;

    /// The elements from the front of the list.
    closed spec fn view(&self) -> Seq<T> {
        link_view(self.head)
    }
}

/// A second handle on the same link.
fn share<T>(link: &Option<Rc<Node<T>>>) -> (r: Option<Rc<Node<T>>>)
    ensures
        r == *link,
{
    match link {
        None => None,
        Some(node) => Some(Rc::clone(node)),
    }
}

impl<T> List<T> {
    /// An empty list.
    pub fn new() -> (r: Self)
        ensures
            r@ == Seq::<T>::empty(),
    {
        List { head: None }
    }

    /// A new list of `element` followed by this list's elements; this list is
    /// left as it is and its nodes are shared.
    pub fn prepend(&self, element: T) -> (r: List<T>)
        ensures
            r@ == seq![element] + self@,
    {
        List { head: Some(Rc::new(Node { element, next: share(&self.head) })) }
    }

    /// A new list of every element but the first, sharing this list's nodes;
    /// the tail of an empty list is empty.
    pub fn tail(&self) -> (r: List<T>)
        ensures
            r@ == tail_of(self@),
    {
        List {
            head: match &self.head {
                None => None,
                Some(node) => share(&node.next),
            },
        }
    }

    /// The first element, or `None` when empty.
    pub fn peek(&self) -> (r: Option<&T>)
        ensures
            self@.len() == 0 ==> r is None,
            self@.len() > 0 ==> r == Some(&self@[0]),
    {
        match &self.head {
            None => None,
            Some(node) => Some(&node.element),
        }
    }
}

impl<T> List<T> {
    /// Lets go of this list's nodes from the front, freeing each one that no
    /// other list holds, and stops at the first node still shared; the list
    /// is empty afterwards. A list that is simply dropped does not come here:
    /// a `drop` body must be shown not to unwind, Verus cannot show that of
    /// `Rc::try_unwrap` (and crashes on the attempt instead of reporting it),
    /// so such a list is freed by nested destruction. Call this first to
    /// free a long list.
    pub fn clear(&mut self)
        ensures
            final(self)@ == Seq::<T>::empty(),
    {
        let mut cur_link = self.head.take();
        loop
            decreases link_view(cur_link).len(),
        {
            match cur_link {
                None => break,
                Some(node) => match Rc::try_unwrap(node) {
                    Ok(node) => {
                        cur_link = node.next;
                    },
                    Err(_) => break,
                },
            }
        }
    }
}

/// Iterates over shared references to the elements of a list.
pub struct Iter<'a, T> {
    next: Option<&'a Node<T>>,
}

impl<'a, T> View for Iter<'a, T> {
    type V = Seq<T>;

    /// The elements still to come.
    closed spec fn view(&self) -> Seq<T> {
        match self.next {
            None => Seq::empty(),
            Some(node) => seq![node.element] + link_view(node.next),
        }
    }
}

impl<T> List<T> {
    /// An iterator over the elements from the front.
    pub fn iter(&self) -> (r: Iter<'_, T>)
        ensures
            r@ == self@,
    {
        Iter {
            next: match &self.head {
                None => None,
                Some(node) => Some(&**node),
            },
        }
    }
}

impl<'a, T> Iter<'a, T> {
    /// The next element, or `None` when exhausted.
    pub fn next(&mut self) -> (r: Option<&'a T>)
        ensures
            old(self)@.len() == 0 ==> r is None && final(self)@ == old(self)@,
            old(self)@.len() > 0 ==> r == Some(&old(self)@[0]) && final(self)@ == old(self)@.drop_first(),
    {
        match self.next {
            None => None,
            Some(node) => {
                self.next = match &node.next {
                    None => None,
                    Some(next) => Some(&**next),
                };
                Some(&node.element)
            },
        }
    }
}

/// The elements of the tail of a list holding `s`: all but the first, or
/// none when `s` is empty.
pub open spec fn tail_of<T>(s: Seq<T>) -> Seq<T> {
    if s.len() == 0 {
        s
    } else {
        s.drop_first()
    }
}

/// The elements of the list reached from a list holding `s` by taking the
/// tail `k` times.
pub open spec fn tails<T>(s: Seq<T>, k: nat) -> Seq<T>
    decreases k,
{
    if k == 0 {
        s
    } else {
        tails(tail_of(s), (k - 1) as nat)
    }
}

/// Sharing is invisible to readers: a list reached by `k` tails from an
/// ancestor holds exactly the ancestor's elements from position `k` on (none
/// once `k` passes the end), so any two lists reached from one ancestor at
/// the same depth hold the same elements.
pub proof fn lemma_tails_are_suffixes<T>(s: Seq<T>, k: nat)
    ensures
        k <= s.len() ==> tails(s, k) == s.subrange(k as int, s.len() as int),
        k > s.len() ==> tails(s, k) == Seq::<T>::empty(),
    decreases k,
{
    if k > 0 {
        lemma_tails_are_suffixes(tail_of(s), (k - 1) as nat);
        if 0 < k <= s.len() {
            assert(tail_of(s).subrange((k - 1) as int, tail_of(s).len() as int) =~= s.subrange(
                k as int,
                s.len() as int,
            ));
        }
    } else {
        assert(s.subrange(0, s.len() as int) =~= s);
    }
}

} // verus!
