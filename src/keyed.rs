//! A list of values keyed by global ID: each key at most once, in the order
//! keys were first inserted.
use vstd::prelude::*;

verus! {

/// No key occurs twice in `s`.
pub open spec fn unique_keys<T>(s: Seq<(i32, T)>) -> bool {
    forall|i: int, j: int| 0 <= i < j < s.len() ==> #[trigger] s[i].0 != #[trigger] s[j].0
}

/// Values by global ID, in first-insertion order.
pub struct KeyedList<T> {
    items: Vec<(i32, T)>,
}

impl<T> View for KeyedList<T> {
    type V = Seq<(i32, T)>;

    closed spec fn view(&self) -> Seq<(i32, T)> {
        self.items@
    }
}

impl<T> KeyedList<T> {
    pub open spec fn wf(&self) -> bool {
        unique_keys(self@)
    }

    pub fn new() -> (r: KeyedList<T>)
        ensures
            r@ == Seq::<(i32, T)>::empty(),
            r.wf(),
    {
        KeyedList { items: Vec::new() }
    }

    pub fn len(&self) -> (r: usize)
        ensures
            r == self@.len(),
    {
        self.items.len()
    }

    /// The entry at position `i`.
    pub fn entry(&self, i: usize) -> (r: &(i32, T))
        requires
            i < self@.len(),
        ensures
            *r == self@[i as int],
    {
        &self.items[i]
    }

    /// The position of key `k`, if present.
    pub fn position(&self, k: i32) -> (r: Option<usize>)
        ensures
            match r {
                Some(i) => i < self@.len() && self@[i as int].0 == k,
                None => forall|i: int| 0 <= i < self@.len() ==> self@[i].0 != k,
            },
    {
        let mut i: usize = 0;
        while i < self.items.len()
            invariant
                i <= self.items@.len(),
                forall|j: int| 0 <= j < i ==> self.items@[j].0 != k,
            decreases self.items@.len() - i,
        {
            if self.items[i].0 == k {
                return Some(i);
            }
            i = i + 1;
        }
        None
    }

    /// Sets the value of key `k`: in place where `k` is present, else last.
    pub fn insert(&mut self, k: i32, v: T)
        requires
            old(self).wf(),
        ensures
            final(self).wf(),
            forall|i: int|
                0 <= i < old(self)@.len() && old(self)@[i].0 == k ==> final(self)@ == old(
                    self,
                )@.update(i, (k, v)),
            (forall|i: int| 0 <= i < old(self)@.len() ==> old(self)@[i].0 != k) ==> final(self)@
                == old(self)@.push((k, v)),
    {
        match self.position(k) {
            Some(i) => {
                self.items.set(i, (k, v));
            },
            None => {
                self.items.push((k, v));
            },
        }
    }
}

} // verus!
