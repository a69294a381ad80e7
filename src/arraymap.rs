use vstd::prelude::*;

use crate::trb::{TrbKey, TrbPos};

verus! {

/// A map slot: empty, or a key with its value.
pub type Entry = Option<(TrbKey, TrbPos)>;

/// The first index at or after `i` whose slot is empty (the length when there is none).
pub open spec fn first_empty_from(s: Seq<Entry>, i: int) -> int
    decreases s.len() - i,
{
    if i < 0 || i >= s.len() {
        s.len() as int
    } else if s[i].is_none() {
        i
    } else {
        first_empty_from(s, i + 1)
    }
}

/// Whether a slot holds key `k`.
pub open spec fn holds_key(e: Entry, k: TrbKey) -> bool {
    match e {
        Some((key, _)) => key == k,
        None => false,
    }
}

/// The first index at or after `i` whose slot holds key `k` (the length when there is none).
pub open spec fn first_key_from(s: Seq<Entry>, k: TrbKey, i: int) -> int
    decreases s.len() - i,
{
    if i < 0 || i >= s.len() {
        s.len() as int
    } else if holds_key(s[i], k) {
        i
    } else {
        first_key_from(s, k, i + 1)
    }
}

/// The value of a slot that holds a key.
pub open spec fn value_of(e: Entry) -> TrbPos {
    match e {
        Some((_, v)) => v,
        None => TrbPos { seg: 0, slot: 0 },
    }
}

/// What a lookup of `k` in the slots gives: the value of the first slot that holds it.
pub open spec fn lookup(s: Seq<Entry>, k: TrbKey) -> Option<TrbPos> {
    let i = first_key_from(s, k, 0);
    if i < s.len() { Some(value_of(s[i])) } else { None }
}

/// A fixed number of slots, each empty or holding a key and its value; lookups go by the first
/// slot that holds the key.
pub struct ArrayMap {
    arr: Vec<Entry>,
}

impl ArrayMap {
    pub closed spec fn view(&self) -> Seq<Entry> {
        self.arr@
    }

    /// A map of `n` empty slots.
    pub fn new(n: usize) -> (r: Self)
        ensures
            r@.len() == n,
            forall|i: int| 0 <= i < n ==> #[trigger] r@[i].is_none(),
    {
        let mut arr: Vec<Entry> = Vec::new();
        let mut i: usize = 0;
        while i < n
            invariant
                i <= n,
                arr@.len() == i,
                forall|j: int| 0 <= j < i ==> #[trigger] arr@[j].is_none(),
            decreases n - i,
        {
            arr.push(None);
            i = i + 1;
        }
        ArrayMap { arr }
    }

    /// Whether some slot is empty.
    pub fn has_room(&self) -> (r: bool)
        ensures
            r == (first_empty_from(self@, 0) < self@.len()),
    {
        let mut i: usize = 0;
        while i < self.arr.len()
            invariant
                i <= self.arr@.len(),
                first_empty_from(self@, 0) == first_empty_from(self@, i as int),
            decreases self.arr@.len() - i,
        {
            if self.arr[i].is_none() {
                return true;
            }
            i = i + 1;
        }
        false
    }

    /// The value of the first slot that holds `k`.
    pub fn get(&self, k: TrbKey) -> (r: Option<TrbPos>)
        ensures
            r == lookup(self@, k),
    {
        let mut i: usize = 0;
        while i < self.arr.len()
            invariant
                i <= self.arr@.len(),
                first_key_from(self@, k, 0) == first_key_from(self@, k, i as int),
            decreases self.arr@.len() - i,
        {
            if let Some((key, value)) = self.arr[i] {
                if key == k {
                    return Some(value);
                }
            }
            i = i + 1;
        }
        None
    }

    /// Puts `k` and `v` in the first empty slot; with no empty slot nothing changes and the
    /// result is `false`.
    pub fn set(&mut self, k: TrbKey, v: TrbPos) -> (r: bool)
        ensures
            final(self)@.len() == old(self)@.len(),
            ({
                let i = first_empty_from(old(self)@, 0);
                if i < old(self)@.len() {
                    r && final(self)@ == old(self)@.update(i, Some((k, v)))
                } else {
                    !r && final(self)@ == old(self)@
                }
            }),
    {
        let mut i: usize = 0;
        while i < self.arr.len()
            invariant
                i <= self.arr@.len(),
                self@ == old(self)@,
                first_empty_from(self@, 0) == first_empty_from(self@, i as int),
            decreases self.arr@.len() - i,
        {
            if self.arr[i].is_none() {
                self.arr.set(i, Some((k, v)));
                return true;
            }
            i = i + 1;
        }
        false
    }

    /// Empties the first slot that holds `k`; the result says whether there was one.
    pub fn delete(&mut self, k: TrbKey) -> (r: bool)
        ensures
            ({
                let i = first_key_from(old(self)@, k, 0);
                if i < old(self)@.len() {
                    r && final(self)@ == old(self)@.update(i, None)
                } else {
                    !r && final(self)@ == old(self)@
                }
            }),
    {
        self.take(k).is_some()
    }

    /// Returns the value of the first slot that holds `k` and empties that slot.
    pub fn take(&mut self, k: TrbKey) -> (r: Option<TrbPos>)
        ensures
            r == lookup(old(self)@, k),
            final(self)@.len() == old(self)@.len(),
            ({
                let i = first_key_from(old(self)@, k, 0);
                if i < old(self)@.len() {
                    final(self)@ == old(self)@.update(i, None)
                } else {
                    final(self)@ == old(self)@
                }
            }),
    {
        let mut i: usize = 0;
        while i < self.arr.len()
            invariant
                i <= self.arr@.len(),
                self@ == old(self)@,
                first_key_from(self@, k, 0) == first_key_from(self@, k, i as int),
            decreases self.arr@.len() - i,
        {
            if let Some((key, value)) = self.arr[i] {
                if key == k {
                    self.arr.set(i, None);
                    return Some(value);
                }
            }
            i = i + 1;
        }
        None
    }
}

} // verus!
