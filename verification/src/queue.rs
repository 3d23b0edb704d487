//! A circular buffer-like queue.
//!
//! A `CircularQueue<T>` is created with a set capacity, then items are
//! pushed in. When the queue runs out of capacity, newer items start
//! overwriting the old ones, starting from the oldest. Two queues are
//! considered equal if walking both from the newest item to the oldest
//! yields the same sequence of elements.
//!
//! The abstract value of a queue (its view) is the sequence of retained
//! items from oldest to newest.

use vstd::prelude::*;

verus! {

use vstd::std_specs::cmp::PartialEqSpec;

/// A circular buffer-like queue.
#[derive(Clone, Debug)]
pub struct CircularQueue<T> {
    data: Vec<T>,
    // Our own capacity rather than the vector's, to keep behaviour
    // consistent for zero-sized element types.
    capacity: usize,
    insertion_index: usize,
}

impl<T> CircularQueue<T> {
    /// Where the stored vector splits into the newer part (before it) and
    /// the older part (from it on), clamped into bounds so that every
    /// spec below is meaningful for every value of the fields.
    closed spec fn spec_split(&self) -> int {
        if self.insertion_index <= self.data@.len() {
            self.insertion_index as int
        } else {
            self.data@.len() as int
        }
    }

    /// The queue's capacity.
    pub closed spec fn spec_capacity(&self) -> int {
        self.capacity as int
    }
}

impl<T> View for CircularQueue<T> {
    type V = Seq<T>;

    /// The retained items, oldest to newest.
    closed spec fn view(&self) -> Seq<T> {
        self.data@.subrange(self.spec_split(), self.data@.len() as int) + self.data@.subrange(
            0,
            self.spec_split(),
        )
    }
}

impl<T> CircularQueue<T> {
    /// Internal consistency: the vector never outgrows the capacity, and
    /// the insertion index sits at the vector's end while the queue fills,
    /// then wraps within bounds once it is full.
    pub closed spec fn wf(&self) -> bool {
        &&& self.data@.len() <= self.capacity
        &&& (self.data@.len() < self.capacity ==> self.insertion_index == self.data@.len())
        &&& (self.capacity == 0 ==> self.insertion_index == 0)
        &&& (0 < self.capacity == self.data@.len() ==> self.insertion_index < self.capacity)
    }

    /// Constructs a new, empty queue with the requested capacity.
    pub fn with_capacity(capacity: usize) -> (q: Self)
        ensures
            q.wf(),
            q@ == Seq::<T>::empty(),
            q.spec_capacity() == capacity as int,
    {
        let q = CircularQueue { data: Vec::with_capacity(capacity), capacity, insertion_index: 0 };
        proof {
            assert(q@ =~= Seq::<T>::empty());
        }
        q
    }

    /// The current number of elements in the queue.
    pub fn len(&self) -> (n: usize)
        ensures
            n == self@.len(),
    {
        self.data.len()
    }

    /// Whether the queue contains no elements.
    pub fn is_empty(&self) -> (e: bool)
        ensures
            e == (self@.len() == 0),
    {
        self.data.is_empty()
    }

    /// Whether the queue is full.
    pub fn is_full(&self) -> (f: bool)
        ensures
            f == (self@.len() == self.spec_capacity()),
    {
        self.capacity() == self.len()
    }

    /// The capacity of the queue.
    pub fn capacity(&self) -> (c: usize)
        ensures
            c == self.spec_capacity(),
    {
        self.capacity
    }

    /// Clears the queue.
    pub fn clear(&mut self)
        ensures
            final(self).wf(),
            final(self)@ == Seq::<T>::empty(),
            final(self).spec_capacity() == old(self).spec_capacity(),
    {
        self.data.clear();
        self.insertion_index = 0;
        proof {
            assert(self@ =~= Seq::<T>::empty());
        }
    }
}

impl<T> CircularQueue<T> {
    /// Pushes a new element into the queue.
    ///
    /// While there is spare capacity the element is appended. Once the
    /// capacity is reached, pushing a new item overwrites the oldest one,
    /// which is returned. A zero-capacity queue stores nothing.
    pub fn push(&mut self, x: T) -> (popped: Option<T>)
        requires
            old(self).wf(),
        ensures
            final(self).wf(),
            final(self).spec_capacity() == old(self).spec_capacity(),
            old(self).spec_capacity() == 0 ==> popped is None && final(self)@ == old(self)@,
            old(self)@.len() < old(self).spec_capacity() ==> popped is None && final(self)@ == old(
                self,
            )@.push(x),
            0 < old(self).spec_capacity() == old(self)@.len() ==> popped == Some(old(self)@[0])
                && final(self)@ == old(self)@.skip(1).push(x),
    {
        if self.capacity == 0 {
            return None;
        }
        if self.data.len() < self.capacity {
            self.data.push(x);
            self.insertion_index = self.insertion_index + 1;
            if self.insertion_index == self.capacity {
                self.insertion_index = 0;
            }
            proof {
                assert(self@ =~= old(self)@.push(x));
            }
            None
        } else {
            let mut evicted = x;
            let ii = self.insertion_index;
            self.data.set_and_swap(ii, &mut evicted);
            self.insertion_index = self.insertion_index + 1;
            if self.insertion_index == self.capacity {
                self.insertion_index = 0;
            }
            proof {
                assert(evicted == old(self)@[0]);
                assert(self@ =~= old(self)@.skip(1).push(x));
            }
            Some(evicted)
        }
    }
}

impl<T: Copy> CircularQueue<T> {
    /// The queue's contents from the least recently pushed item to the
    /// newest one.
    pub fn asc_iter(&self) -> (items: Vec<T>)
        ensures
            items@ == self@,
    {
        let split = if self.insertion_index <= self.data.len() {
            self.insertion_index
        } else {
            self.data.len()
        };
        let mut items: Vec<T> = Vec::new();
        let mut k = split;
        while k < self.data.len()
            invariant
                split <= k <= self.data@.len(),
                split == self.spec_split(),
                items@ == self.data@.subrange(split as int, k as int),
            decreases self.data@.len() - k,
        {
            items.push(self.data[k]);
            proof {
                assert(items@ =~= self.data@.subrange(split as int, k + 1));
            }
            k = k + 1;
        }
        let mut j: usize = 0;
        while j < split
            invariant
                j <= split <= self.data@.len(),
                split == self.spec_split(),
                items@ == self.data@.subrange(split as int, self.data@.len() as int)
                    + self.data@.subrange(0, j as int),
            decreases split - j,
        {
            items.push(self.data[j]);
            proof {
                assert(items@ =~= self.data@.subrange(split as int, self.data@.len() as int)
                    + self.data@.subrange(0, j + 1));
            }
            j = j + 1;
        }
        items
    }

    /// The queue's contents from the most recently pushed item to the
    /// oldest one.
    pub fn iter(&self) -> (items: Vec<T>)
        ensures
            items@ == self@.reverse(),
    {
        reversed(self.asc_iter())
    }

    /// Converts the queue into a vector going from the most recently
    /// pushed item to the oldest one.
    pub fn into_vec(self) -> (items: Vec<T>)
        ensures
            items@ == self@.reverse(),
    {
        reversed(self.asc_iter())
    }
}

impl<T> CircularQueue<T> {
    /// Mutable access to the queue's contents in newest-to-oldest order:
    /// a mutable reference to the `i`-th most recently pushed item.
    pub fn iter_mut(&mut self, i: usize) -> (element: &mut T)
        requires
            i < old(self)@.len(),
        ensures
            *element == old(self)@[old(self)@.len() - 1 - i],
            final(self)@ == old(self)@.update(old(self)@.len() - 1 - i, *final(element)),
            final(self).spec_capacity() == old(self).spec_capacity(),
            old(self).wf() ==> final(self).wf(),
    {
        let n = self.data.len() - 1 - i;
        self.slot_mut(n)
    }

    /// Mutable access to the queue's contents in oldest-to-newest order:
    /// a mutable reference to the `i`-th least recently pushed item.
    pub fn asc_iter_mut(&mut self, i: usize) -> (element: &mut T)
        requires
            i < old(self)@.len(),
        ensures
            *element == old(self)@[i as int],
            final(self)@ == old(self)@.update(i as int, *final(element)),
            final(self).spec_capacity() == old(self).spec_capacity(),
            old(self).wf() ==> final(self).wf(),
    {
        self.slot_mut(i)
    }

    /// A mutable reference to position `j` of the view (oldest first).
    fn slot_mut(&mut self, j: usize) -> (element: &mut T)
        requires
            j < old(self)@.len(),
        ensures
            *element == old(self)@[j as int],
            final(self)@ == old(self)@.update(j as int, *final(element)),
            final(self).spec_capacity() == old(self).spec_capacity(),
            old(self).wf() ==> final(self).wf(),
    {
        let split = if self.insertion_index <= self.data.len() {
            self.insertion_index
        } else {
            self.data.len()
        };
        let older = self.data.len() - split;
        let phys = if j < older {
            split + j
        } else {
            j - older
        };
        proof {
            assert(old(self)@.len() == self.data@.len());
            assert(old(self)@[j as int] == self.data@[phys as int]);
        }
        let element = &mut self.data[phys];
        proof {
            assert(after_borrow(self)@ =~= old(self)@.update(j as int, *final(element)));
        }
        element
    }
}

impl<T: Copy> CircularQueue<T> {
    /// Pushes the elements of a vector into the queue in bulk, oldest
    /// first, exactly as pushing them one by one would: afterwards the
    /// queue retains the last `capacity` elements of "what it held before
    /// followed by the vector". If the vector holds more elements than the
    /// whole capacity, only its last `capacity` elements are effectively
    /// pushed. A zero-capacity queue stores nothing.
    pub fn push_bulk(&mut self, new_elements: Vec<T>)
        requires
            old(self).wf(),
        ensures
            final(self).wf(),
            final(self).spec_capacity() == old(self).spec_capacity(),
            final(self)@ == if old(self).spec_capacity() == 0 {
                old(self)@
            } else {
                spec_last_n(old(self)@ + new_elements@, old(self).spec_capacity())
            },
    {
        let cap = self.capacity();
        if cap == 0 {
            return;
        }
        let n = new_elements.len();
        let start = if n >= cap {
            n - cap
        } else {
            0
        };
        let mut i = start;
        proof {
            assert(spec_last_n(self@ + new_elements@.subrange(start as int, start as int), cap as int)
                =~= spec_last_n(self@, cap as int));
            assert(spec_last_n(self@, cap as int) =~= self@);
        }
        while i < n
            invariant
                self.wf(),
                start <= i <= n == new_elements@.len(),
                cap == self.spec_capacity(),
                cap >= 1,
                self@ == spec_last_n(
                    old(self)@ + new_elements@.subrange(start as int, i as int),
                    cap as int,
                ),
            decreases n - i,
        {
            let ghost base = old(self)@ + new_elements@.subrange(start as int, i as int);
            self.push(new_elements[i]);
            proof {
                lemma_last_n_push(base, new_elements@[i as int], cap as int);
                assert(base.push(new_elements@[i as int]) =~= old(self)@ + new_elements@.subrange(
                    start as int,
                    i + 1,
                ));
            }
            i = i + 1;
        }
        proof {
            if start == 0 {
                assert(new_elements@.subrange(0, n as int) =~= new_elements@);
            } else {
                let combined = old(self)@ + new_elements@;
                let tail = old(self)@ + new_elements@.subrange(start as int, n as int);
                assert(spec_last_n(tail, cap as int) =~= spec_last_n(combined, cap as int));
            }
        }
    }
}

/// The last `c` elements of a sequence (the whole sequence, if it is not
/// longer than `c`).
pub open spec fn spec_last_n<T>(s: Seq<T>, c: int) -> Seq<T> {
    if s.len() <= c {
        s
    } else {
        s.skip(s.len() - c)
    }
}

/// Appending one element to the underlying stream keeps "the last `c`"
/// in step with pushing onto a queue of capacity `c`: the element goes on
/// the end, and the oldest retained element falls out if the window was
/// full.
proof fn lemma_last_n_push<T>(base: Seq<T>, e: T, c: int)
    requires
        c >= 1,
    ensures
        spec_last_n(base, c).len() < c ==> spec_last_n(base.push(e), c) == spec_last_n(
            base,
            c,
        ).push(e),
        spec_last_n(base, c).len() == c ==> spec_last_n(base.push(e), c) == spec_last_n(
            base,
            c,
        ).skip(1).push(e),
{
    if base.len() < c {
        assert(spec_last_n(base.push(e), c) =~= spec_last_n(base, c).push(e));
    } else {
        assert(spec_last_n(base.push(e), c) =~= spec_last_n(base, c).skip(1).push(e));
    }
}

/// Two queues are equal when walking both from the newest item to the
/// oldest yields equal elements; capacity does not matter.
impl<T: PartialEq> PartialEq for CircularQueue<T> {
    fn eq(&self, other: &CircularQueue<T>) -> (r: bool) {
        let n = self.data.len();
        if n != other.data.len() {
            return false;
        }
        let split_a = if self.insertion_index <= n {
            self.insertion_index
        } else {
            n
        };
        let split_b = if other.insertion_index <= n {
            other.insertion_index
        } else {
            n
        };
        let older_a = n - split_a;
        let older_b = n - split_b;
        let mut i: usize = 0;
        while i < n
            invariant
                n == self.data@.len() == other.data@.len(),
                n == self@.len() == other@.len(),
                split_a == self.spec_split(),
                split_b == other.spec_split(),
                older_a == n - split_a,
                older_b == n - split_b,
                i <= n,
                T::obeys_eq_spec() ==> forall|k: int|
                    0 <= k < i ==> self@[k].eq_spec(&other@[k]),
            decreases n - i,
        {
            let pa = if i < older_a {
                split_a + i
            } else {
                i - older_a
            };
            let pb = if i < older_b {
                split_b + i
            } else {
                i - older_b
            };
            let a = &self.data[pa];
            let b = &other.data[pb];
            proof {
                assert(*a == self@[i as int]);
                assert(*b == other@[i as int]);
            }
            if !(a == b) {
                return false;
            }
            i = i + 1;
        }
        true
    }
}

impl<T: PartialEq> vstd::std_specs::cmp::PartialEqSpecImpl for CircularQueue<T> {
    open spec fn obeys_eq_spec() -> bool {
        T::obeys_eq_spec()
    }

    open spec fn eq_spec(&self, other: &CircularQueue<T>) -> bool {
        self@.len() == other@.len() && (forall|k: int|
            0 <= k < self@.len() ==> self@[k].eq_spec(&other@[k]))
    }
}

impl<T: Eq> Eq for CircularQueue<T> {

}

impl<T: Copy> From<CircularQueue<T>> for Vec<T> {
    /// The queue's items, newest first, as `into_vec` returns them.
    fn from(queue: CircularQueue<T>) -> (v: Vec<T>) {
        queue.into_vec()
    }
}

/// A vector built from an arbitrary queue cannot be pinned down as a spec
/// value (two vectors with equal contents need not be the one chosen), so
/// nothing is claimed of `Vec::from` in contracts; callers that need the
/// contents use `into_vec`, whose result's view is exact.
impl<T: Copy> vstd::std_specs::convert::FromSpecImpl<CircularQueue<T>> for Vec<T> {
    open spec fn obeys_from_spec() -> bool {
        false
    }

    open spec fn from_spec(q: CircularQueue<T>) -> Vec<T> {
        arbitrary()
    }
}

/// The elements of a vector in reverse order.
fn reversed<T: Copy>(items: Vec<T>) -> (rev: Vec<T>)
    ensures
        rev@ == items@.reverse(),
{
    let mut rev: Vec<T> = Vec::new();
    let mut k = items.len();
    while k > 0
        invariant
            k <= items@.len(),
            rev@.len() == items@.len() - k,
            forall|i: int| 0 <= i < rev@.len() ==> rev@[i] == items@[items@.len() - 1 - i],
        decreases k,
    {
        k = k - 1;
        rev.push(items[k]);
    }
    proof {
        assert(rev@ =~= items@.reverse());
    }
    rev
}

} // verus!
