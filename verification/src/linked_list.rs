//! A singly linked list with O(1) operations at the front.

use vstd::prelude::*;

verus! {

type Link<T> = Option<Box<Node<T>>>;

struct Node<T> {
    value: T,
    next: Link<T>,
}

/// The values held by a chain of nodes, front first.
spec fn link_seq<T>(link: Link<T>) -> Seq<T>
    decreases link,
{
    match link {
        None => Seq::empty(),
        Some(node) => seq![node.value] + link_seq(node.next),
    }
}

/// Appends `value` after the last node of the chain.
fn link_push_back<T>(link: &mut Link<T>, value: T)
    ensures
        link_seq(*final(link)) == link_seq(*old(link)).push(value),
    decreases *old(link),
{
    match link.take() {
        None => {
            *link = Some(Box::new(Node { value, next: None }));
            assert(link_seq::<T>(None) =~= Seq::<T>::empty());
            assert(link_seq(*link) =~= seq![value]);
        },
        Some(mut node) => {
            link_push_back(&mut node.next, value);
            *link = Some(node);
            assert(link_seq(*link) =~= link_seq(*old(link)).push(value));
        },
    }
}

/// Removes the last node of a non-empty chain and returns its value.
fn link_pop_back<T>(link: &mut Link<T>) -> (r: T)
    requires
        old(link).is_some(),
    ensures
        link_seq(*old(link)).len() > 0,
        r == link_seq(*old(link)).last(),
        link_seq(*final(link)) == link_seq(*old(link)).drop_last(),
    decreases *old(link),
{
    let mut node = link.take().unwrap();
    if node.next.is_none() {
        let Node { value, next } = *node;
        *link = next;
        assert(link_seq::<T>(None) =~= Seq::<T>::empty());
        assert(link_seq(*old(link)) =~= seq![value]);
        value
    } else {
        let value = link_pop_back(&mut node.next);
        *link = Some(node);
        assert(link_seq(*link) =~= link_seq(*old(link)).drop_last());
        value
    }
}

/// A reference to the value of the last node, if any.
fn link_last<T>(link: &Link<T>) -> (r: Option<&T>)
    ensures
        r is Some <==> link_seq(*link).len() > 0,
        match r {
            Some(v) => *v == link_seq(*link).last(),
            None => true,
        },
    decreases *link,
{
    match link {
        None => None,
        Some(node) => {
            if node.next.is_none() {
                assert(link_seq::<T>(None) =~= Seq::<T>::empty());
                assert(link_seq(*link) =~= seq![node.value]);
                Some(&node.value)
            } else {
                let r = link_last(&node.next);
                assert(link_seq(*link).last() == link_seq(node.next).last());
                r
            }
        },
    }
}

/// A mutable reference to the value of the last node, if any; whatever is
/// written through it becomes the last value of the chain.
fn link_last_mut<T>(link: &mut Link<T>) -> (r: Option<&mut T>)
    ensures
        r is Some <==> link_seq(*old(link)).len() > 0,
        match r {
            Some(v) => {
                &&& *v == link_seq(*old(link)).last()
                &&& link_seq(*final(link)) == link_seq(*old(link)).update(
                    link_seq(*old(link)).len() - 1,
                    *final(v),
                )
            },
            None => *final(link) == *old(link),
        },
    decreases *old(link),
{
    match link {
        None => None,
        Some(node) => {
            if node.next.is_none() {
                assert(link_seq::<T>(None) =~= Seq::<T>::empty());
                Some(&mut node.value)
            } else {
                link_last_mut(&mut node.next)
            }
        },
    }
}

/// A singly linked list. `length` always equals the number of nodes
/// (see `wf`).
pub struct LinkedList<T> {
    head: Link<T>,
    pub length: usize,
}

impl<T> View for LinkedList<T> {
    type V = Seq<T>;

    closed spec fn view(&self) -> Seq<T> {
        link_seq(self.head)
    }
}

impl<T> LinkedList<T> {
    /// The length recorded in the public `length` field.
    pub closed spec fn recorded_len(&self) -> usize {
        self.length
    }

    /// The stored length agrees with the number of nodes.
    pub closed spec fn wf(&self) -> bool {
        self.length as nat == link_seq(self.head).len()
    }

    /// Creates an empty list.
    pub fn new() -> (r: Self)
        ensures
            r.wf(),
            r@ == Seq::<T>::empty(),
    {
        LinkedList { head: None, length: 0 }
    }

    /// Number of elements, as recorded in `length`.
    pub fn len(&self) -> (r: usize)
        ensures
            r == self.recorded_len(),
            self.wf() ==> r as nat == self@.len(),
    {
        self.length
    }

    /// Whether the list holds no element.
    pub fn is_empty(&self) -> (r: bool)
        ensures
            r == (self.recorded_len() == 0 || self@.len() == 0),
            self.wf() ==> r == (self@.len() == 0),
    {
        self.length == 0 || self.head.is_none()
    }

    /// Appends `value` after the last element and counts it in `length`.
    pub fn push_tail(&mut self, value: T)
        requires
            old(self).recorded_len() < usize::MAX,
        ensures
            final(self)@ == old(self)@.push(value),
            final(self).recorded_len() == old(self).recorded_len() + 1,
            old(self).wf() ==> final(self).wf(),
    {
        link_push_back(&mut self.head, value);
        self.length = self.length + 1;
    }

    /// Removes the first element and returns it, taking one from `length`;
    /// `None` when empty, with nothing changed.
    pub fn pop_front(&mut self) -> (r: Option<T>)
        requires
            old(self)@.len() > 0 ==> old(self).recorded_len() > 0,
        ensures
            old(self)@.len() == 0 ==> r is None && *final(self) == *old(self),
            old(self)@.len() > 0 ==> r == Some(old(self)@[0]) && final(self)@
                == old(self)@.drop_first() && final(self).recorded_len() == old(
                self,
            ).recorded_len() - 1,
            old(self).wf() ==> final(self).wf(),
    {
        match self.head.take() {
            None => None,
            Some(node) => {
                let Node { value, next } = *node;
                self.head = next;
                self.length = self.length - 1;
                assert(link_seq(self.head) =~= old(self)@.drop_first());
                Some(value)
            },
        }
    }

    /// Removes the last element and returns it, taking one from `length`;
    /// `None` when empty, with nothing changed.
    pub fn pop_tail(&mut self) -> (r: Option<T>)
        requires
            old(self)@.len() > 0 ==> old(self).recorded_len() > 0,
        ensures
            old(self)@.len() == 0 ==> r is None && *final(self) == *old(self),
            old(self)@.len() > 0 ==> r == Some(old(self)@.last()) && final(self)@
                == old(self)@.drop_last() && final(self).recorded_len() == old(
                self,
            ).recorded_len() - 1,
            old(self).wf() ==> final(self).wf(),
    {
        if self.head.is_none() {
            return None;
        }
        let value = link_pop_back(&mut self.head);
        self.length = self.length - 1;
        Some(value)
    }

    /// A reference to the first element; `None` when empty.
    pub fn peek_front(&self) -> (r: Option<&T>)
        ensures
            r is Some <==> self@.len() > 0,
            match r {
            Some(v) => *v == self@[0],
            None => true,
        },
    {
        match &self.head {
            None => None,
            Some(node) => Some(&node.value),
        }
    }

    /// A reference to the last element; `None` when empty.
    pub fn peek_tail(&self) -> (r: Option<&T>)
        ensures
            r is Some <==> self@.len() > 0,
            match r {
            Some(v) => *v == self@.last(),
            None => true,
        },
    {
        link_last(&self.head)
    }

    /// A mutable reference to the first element; `None` when empty.
    /// Whatever is written through it becomes the first element.
    pub fn peek_front_mut(&mut self) -> (r: Option<&mut T>)
        ensures
            r is Some <==> old(self)@.len() > 0,
            match r {
                Some(v) => {
                    &&& *v == old(self)@[0]
                    &&& final(self)@ == old(self)@.update(0, *final(v))
                    &&& final(self).recorded_len() == old(self).recorded_len()
                },
                None => *final(self) == *old(self),
            },
    {
        match &mut self.head {
            None => None,
            Some(node) => Some(&mut node.value),
        }
    }

    /// A mutable reference to the last element; `None` when empty.
    /// Whatever is written through it becomes the last element.
    pub fn peek_tail_mut(&mut self) -> (r: Option<&mut T>)
        ensures
            r is Some <==> old(self)@.len() > 0,
            match r {
                Some(v) => {
                    &&& *v == old(self)@.last()
                    &&& final(self)@ == old(self)@.update(old(self)@.len() - 1, *final(v))
                    &&& final(self).recorded_len() == old(self).recorded_len()
                },
                None => *final(self) == *old(self),
            },
    {
        link_last_mut(&mut self.head)
    }

    /// References to the elements, front to back.
    pub fn iter(&self) -> (r: Vec<&T>)
        ensures
            r@.len() == self@.len(),
            forall|i: int| 0 <= i < r@.len() ==> *r@[i] == self@[i],
    {
        let mut out: Vec<&T> = Vec::new();
        let mut cur: &Link<T> = &self.head;
        while cur.is_some()
            invariant
                out@.len() + link_seq(*cur).len() == self@.len(),
                link_seq(*cur) == self@.skip(out@.len() as int),
                forall|i: int| 0 <= i < out@.len() ==> *out@[i] == self@[i],
            decreases link_seq(*cur).len(),
        {
            match cur {
                Some(node) => {
                    proof {
                        let k = out@.len() as int;
                        assert(link_seq(*cur) == seq![node.value] + link_seq(node.next));
                        assert(self@.skip(k)[0] == self@[k]);
                        assert(self@[k] == node.value);
                        assert(link_seq(node.next) =~= link_seq(*cur).skip(1));
                        assert(self@.skip(k).skip(1) =~= self@.skip(k + 1));
                    }
                    out.push(&node.value);
                    cur = &node.next;
                },
                None => {},
            }
        }
        out
    }

    /// Consumes the list and returns its elements, front to back, popping
    /// each from the front (so `length` must count them all).
    pub fn into_iter(self) -> (r: Vec<T>)
        requires
            self.recorded_len() >= self@.len(),
        ensures
            r@ == self@,
    {
        let mut list = self;
        let mut out: Vec<T> = Vec::new();
        loop
            invariant
                list.recorded_len() >= list@.len(),
                out@ + list@ == self@,
            ensures
                out@ == self@,
            decreases list@.len(),
        {
            let ghost before = list@;
            match list.pop_front() {
                Some(v) => {
                    out.push(v);
                    proof {
                        assert(before =~= seq![v] + list@);
                    }
                },
                None => {
                    assert(list@ =~= Seq::<T>::empty());
                    assert(out@ =~= self@);
                    break;
                },
            }
        }
        out
    }

    /// Removes every element by popping from the front, taking each from
    /// `length`.
    pub fn clear(&mut self)
        requires
            old(self).recorded_len() >= old(self)@.len(),
        ensures
            final(self)@.len() == 0,
            final(self).recorded_len() == old(self).recorded_len() - old(self)@.len(),
            old(self).wf() ==> final(self).wf(),
    {
        while self.pop_front().is_some()
            invariant
                self.recorded_len() >= self@.len(),
                self.recorded_len() - self@.len() == old(self).recorded_len() - old(self)@.len(),
            decreases self@.len(),
        {
        }
    }

    /// Inserts `data` before the first element and counts it in `length`.
    pub fn push_front(&mut self, data: T)
        requires
            old(self).recorded_len() < usize::MAX,
        ensures
            final(self)@ == seq![data] + old(self)@,
            final(self).recorded_len() == old(self).recorded_len() + 1,
            old(self).wf() ==> final(self).wf(),
    {
        let new_node = Box::new(Node { value: data, next: self.head.take() });
        self.head = Some(new_node);
        self.length = self.length + 1;
    }
}

impl<T> Default for LinkedList<T> {
    /// An empty list.
    fn default() -> (r: Self)
        ensures
            r.wf(),
            r@ == Seq::<T>::empty(),
    {
        Self::new()
    }
}

/// Pushing at the front and then popping at the front gives back the value
/// pushed and leaves the list as it was.
pub proof fn lemma_push_front_pop_front<T>(s: Seq<T>, x: T)
    ensures
        (seq![x] + s).len() > 0,
        (seq![x] + s)[0] == x,
        (seq![x] + s).drop_first() == s,
{
    assert((seq![x] + s).drop_first() =~= s);
}

/// Pushing at the tail and then popping at the tail gives back the value
/// pushed and leaves the list as it was.
pub proof fn lemma_push_tail_pop_tail<T>(s: Seq<T>, x: T)
    ensures
        s.push(x).len() > 0,
        s.push(x).last() == x,
        s.push(x).drop_last() == s,
{
    assert(s.push(x).drop_last() =~= s);
}

/// Pushing at the tail and popping at the front make a queue: the elements
/// come out in the order they went in.
pub proof fn lemma_queue_order<T>(s: Seq<T>, x: T)
    ensures
        s.len() > 0 ==> s.push(x)[0] == s[0] && s.push(x).drop_first() == s.drop_first().push(x),
        s.len() == 0 ==> s.push(x)[0] == x && s.push(x).drop_first() == s,
{
    if s.len() > 0 {
        assert(s.push(x).drop_first() =~= s.drop_first().push(x));
    } else {
        assert(s.push(x).drop_first() =~= s);
    }
}

/// Pushing at the front and popping at the tail make a queue the other way
/// round: the first value pushed is the first popped.
pub proof fn lemma_stack_reverse_queue<T>(s: Seq<T>, x: T)
    ensures
        s.len() > 0 ==> (seq![x] + s).last() == s.last() && (seq![x] + s).drop_last() == seq![x]
            + s.drop_last(),
        s.len() == 0 ==> (seq![x] + s).last() == x && (seq![x] + s).drop_last() == s,
{
    if s.len() > 0 {
        assert((seq![x] + s).drop_last() =~= seq![x] + s.drop_last());
    } else {
        assert((seq![x] + s).drop_last() =~= s);
    }
}

/// Every push adds one to the length and every pop from a non-empty list
/// takes one away.
pub proof fn lemma_length_counts<T>(s: Seq<T>, x: T)
    ensures
        (seq![x] + s).len() == s.len() + 1,
        s.push(x).len() == s.len() + 1,
        s.len() > 0 ==> s.drop_first().len() == s.len() - 1 && s.drop_last().len() == s.len() - 1,
{
}

} // verus!
