use vstd::prelude::*;

verus! {

/// The last `min(s.len(), cap)` elements of `s`, in order.
pub open spec fn window<T>(s: Seq<T>, cap: nat) -> Seq<T> {
    if s.len() <= cap {
        s
    } else {
        s.subrange(s.len() - cap, s.len() as int)
    }
}

/// What a buffer holding `start` holds after `vals` were pushed one at a time.
pub open spec fn after_pushes<T>(start: Seq<T>, vals: Seq<T>, cap: nat) -> Seq<T>
    decreases vals.len(),
{
    if vals.len() == 0 {
        window(start, cap)
    } else {
        window(after_pushes(start, vals.drop_last(), cap).push(vals.last()), cap)
    }
}

/// A fixed-capacity window over the most recent samples, oldest first.
pub struct HistoryBuffer<T> {
    items: Vec<T>,
    cap: usize,
}

impl<T> View for HistoryBuffer<T> {
    type V = Seq<T>;

    closed spec fn view(&self) -> Seq<T> {
        self.items@
    }
}

impl<T> HistoryBuffer<T> {
    /// A well-formed buffer never holds more samples than its capacity.
    pub proof fn lemma_bounded(&self)
        requires
            self.wf(),
        ensures
            self@.len() <= self.capacity_spec(),
    {
    }
}

impl<T> HistoryBuffer<T> {
    pub closed spec fn capacity_spec(&self) -> nat {
        self.cap as nat
    }

    /// Never more samples than the capacity.
    pub closed spec fn wf(&self) -> bool {
        self.items@.len() <= self.cap
    }

    pub fn new(capacity: usize) -> (r: Self)
        ensures
            r.wf(),
            r@ == Seq::<T>::empty(),
            r.capacity_spec() == capacity,
    {
        HistoryBuffer { items: Vec::new(), cap: capacity }
    }

    /// Appends `value`; when that leaves more than `capacity` samples, the
    /// oldest one is dropped.
    pub fn push(&mut self, value: T)
        requires
            old(self).wf(),
        ensures
            final(self).wf(),
            final(self).capacity_spec() == old(self).capacity_spec(),
            final(self)@ == window(old(self)@.push(value), old(self).capacity_spec()),
    {
        self.items.push(value);
        if self.items.len() > self.cap {
            self.items.remove(0);
        }
        proof {
            let s = old(self)@.push(value);
            if s.len() > self.cap {
                assert(self.items@ =~= s.subrange(s.len() - self.cap, s.len() as int));
            }
        }
    }

    /// The most recent sample, if any.
    pub fn latest(&self) -> (r: Option<&T>)
        ensures
            match r {
                Some(v) => self@.len() > 0 && *v == self@.last(),
                None => self@.len() == 0,
            },
    {
        let n = self.items.len();
        if n == 0 {
            None
        } else {
            Some(&self.items[n - 1])
        }
    }

    /// All samples, oldest first.
    pub fn values(&self) -> (r: &Vec<T>)
        ensures
            r@ == self@,
    {
        &self.items
    }

    pub fn capacity(&self) -> (r: usize)
        ensures
            r == self.capacity_spec(),
    {
        self.cap
    }

    pub fn len(&self) -> (r: usize)
        ensures
            r == self@.len(),
            self.wf() ==> r <= self.capacity_spec(),
    {
        self.items.len()
    }

    pub fn is_empty(&self) -> (r: bool)
        ensures
            r == (self@.len() == 0),
    {
        self.items.len() == 0
    }
}

/// Pushing any sequence of values one at a time into an empty buffer of
/// capacity `cap` leaves exactly the last `min(n, cap)` of them, in order.
pub proof fn lemma_bounded_growth<T>(vals: Seq<T>, cap: nat)
    ensures
        after_pushes(Seq::<T>::empty(), vals, cap) == window(vals, cap),
        after_pushes(Seq::<T>::empty(), vals, cap).len() == if vals.len() <= cap {
            vals.len()
        } else {
            cap
        },
    decreases vals.len(),
{
    if vals.len() > 0 {
        lemma_bounded_growth(vals.drop_last(), cap);
        let prev = window(vals.drop_last(), cap);
        let next = prev.push(vals.last());
        assert(window(next, cap) =~= window(vals, cap));
    }
}

} // verus!
