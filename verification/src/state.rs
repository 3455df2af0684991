//! The store's state value: a structured, map-like value with string keys and
//! integer entries, replaced wholesale on every dispatch and never mutated in
//! place by the store.

use vstd::prelude::*;

verus! {

/// The mathematical value of a [`State`]: the sequence of its entries, each a
/// key (as a sequence of characters) paired with an integer value.  Lookup is
/// by first occurrence of a key.
pub type StateView = Seq<(Seq<char>, i64)>;

/// First-occurrence lookup of `key` in `s`, starting at position `i`.
pub open spec fn lookup_from(s: StateView, key: Seq<char>, i: int) -> Option<i64>
    decreases s.len() - i,
{
    if i < 0 || i >= s.len() {
        None
    } else if s[i].0 == key {
        Some(s[i].1)
    } else {
        lookup_from(s, key, i + 1)
    }
}

/// The value bound to `key` in `s`, if any.
pub open spec fn lookup(s: StateView, key: Seq<char>) -> Option<i64> {
    lookup_from(s, key, 0)
}

/// `s` with `key` bound to `value`: the first occurrence of `key` is replaced,
/// or a new entry is appended if `key` is absent.  Scan starts at position `i`.
pub open spec fn put_from(s: StateView, key: Seq<char>, value: i64, i: int) -> StateView
    decreases s.len() - i,
{
    if i < 0 || i >= s.len() {
        s.push((key, value))
    } else if s[i].0 == key {
        s.update(i, (key, value))
    } else {
        put_from(s, key, value, i + 1)
    }
}

/// `s` with `key` bound to `value`.
pub open spec fn put(s: StateView, key: Seq<char>, value: i64) -> StateView {
    put_from(s, key, value, 0)
}

/// The current store value: an ordered collection of string-keyed integer
/// entries.  The empty value doubles as the fallback a malformed reducer
/// result is replaced with.
pub struct State {
    entries: Vec<(String, i64)>,
}

impl View for State {
    type V = StateView;

    closed spec fn view(&self) -> StateView {
        self.entries@.map(|i: int, p: (String, i64)| (p.0@, p.1))
    }
}

impl State {
    /// The empty state.
    pub fn new() -> (s: State)
        ensures
            s@ == StateView::empty(),
    {
        let s = State { entries: Vec::new() };
        proof {
            assert(s@ =~= StateView::empty());
        }
        s
    }

    /// The number of entries.
    pub fn len(&self) -> (n: usize)
        ensures
            n == self@.len(),
    {
        self.entries.len()
    }

    /// Whether the state holds no entry at all.
    pub fn is_empty(&self) -> (b: bool)
        ensures
            b == (self@.len() == 0),
    {
        self.entries.len() == 0
    }

    /// The value bound to `key`, or `None` if `key` is absent.
    pub fn get(&self, key: &String) -> (r: Option<i64>)
        ensures
            r == lookup(self@, key@),
    {
        let mut i: usize = 0;
        while i < self.entries.len()
            invariant
                0 <= i <= self.entries.len(),
                lookup(self@, key@) == lookup_from(self@, key@, i as int),
            decreases self.entries.len() - i,
        {
            if self.entries[i].0 == *key {
                return Some(self.entries[i].1);
            }
            i += 1;
        }
        None
    }

    /// Binds `key` to `value`, replacing the first existing entry for `key` or
    /// appending a new one.
    pub fn insert(&mut self, key: String, value: i64)
        ensures
            final(self)@ == put(old(self)@, key@, value),
    {
        let mut i: usize = 0;
        while i < self.entries.len()
            invariant
                0 <= i <= self.entries.len(),
                *self == *old(self),
                put(old(self)@, key@, value) == put_from(self@, key@, value, i as int),
            decreases self.entries.len() - i,
        {
            if self.entries[i].0 == key {
                self.entries[i] = (key, value);
                proof {
                    assert(self@ =~= old(self)@.update(i as int, (key@, value)));
                }
                return;
            }
            i += 1;
        }
        let ghost pre = self@;
        self.entries.push((key, value));
        proof {
            assert(self@ =~= pre.push((key@, value)));
        }
    }

    /// An independent copy of the state, used for copy-on-read.
    pub fn duplicate(&self) -> (s: State)
        ensures
            s@ == self@,
    {
        let mut out: Vec<(String, i64)> = Vec::new();
        let mut i: usize = 0;
        while i < self.entries.len()
            invariant
                0 <= i <= self.entries.len(),
                out@ == self.entries@.take(i as int),
            decreases self.entries.len() - i,
        {
            out.push((self.entries[i].0.clone(), self.entries[i].1));
            proof {
                assert(out@ =~= self.entries@.take(i as int + 1));
            }
            i += 1;
        }
        proof {
            assert(out@ =~= self.entries@);
        }
        let s = State { entries: out };
        proof {
            assert(s@ =~= self@);
        }
        s
    }
}

} // verus!
