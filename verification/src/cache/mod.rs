//! The render memoization cache: drawable fragments filed under a string
//! key composed from content identity. Entries are never evicted during a
//! session; a hit short-circuits recomputation of that fragment.

use vstd::prelude::*;

use crate::enums::widgets::Widgets;
use crate::strutil::str_eq;

verus! {

/// What a key denotes in a keyed store: the value of the latest entry with
/// that key, if any.
pub open spec fn lookup<V>(entries: Seq<(String, V)>, key: Seq<char>) -> Option<V>
    decreases entries.len(),
{
    if entries.len() == 0 {
        Option::None
    } else if entries.last().0@ == key {
        Option::Some(entries.last().1)
    } else {
        lookup(entries.drop_last(), key)
    }
}

/// A store of values keyed by strings; the latest entry for a key wins.
pub struct Memo<V> {
    pub entries: Vec<(String, V)>,
}

impl<V> Memo<V> {
    pub fn new() -> (r: Memo<V>)
        ensures
            r.entries@.len() == 0,
            forall|k: Seq<char>| lookup(r.entries@, k) is None,
    {
        Memo { entries: Vec::new() }
    }

    pub fn get(&self, key: &str) -> (r: Option<&V>)
        ensures
            match r {
                Option::None => lookup(self.entries@, key@) is None,
                Option::Some(v) => lookup(self.entries@, key@) == Option::Some(*v),
            },
    {
        let mut i: usize = self.entries.len();
        proof {
            assert(self.entries@.subrange(0, i as int) =~= self.entries@);
        }
        while i > 0
            invariant
                0 <= i <= self.entries@.len(),
                lookup(self.entries@.subrange(0, i as int), key@) == lookup(
                    self.entries@,
                    key@,
                ),
            decreases i,
        {
            proof {
                assert(self.entries@.subrange(0, i as int).drop_last() =~= self.entries@.subrange(
                    0,
                    i - 1,
                ));
            }
            if str_eq(self.entries[i - 1].0.as_str(), key) {
                return Option::Some(&self.entries[i - 1].1);
            }
            i -= 1;
        }
        proof {
            assert(self.entries@.subrange(0, 0) =~= Seq::<(String, V)>::empty());
        }
        Option::None
    }

    pub fn insert(&mut self, key: String, value: V)
        ensures
            lookup(final(self).entries@, key@) == Option::Some(value),
            forall|k: Seq<char>|
                k != key@ ==> lookup(final(self).entries@, k) == lookup(old(self).entries@, k),
    {
        self.entries.push((key, value));
        proof {
            assert(self.entries@.drop_last() =~= old(self).entries@);
        }
    }
}

/// The render cache: one store of single fragments, one of fragment lists.
pub struct Cache {
    pub widget: Memo<Widgets>,
    pub widgets: Memo<Vec<Widgets>>,
}

impl Cache {
    pub fn new() -> (r: Cache)
        ensures
            forall|k: Seq<char>| lookup(r.widget.entries@, k) is None,
            forall|k: Seq<char>| lookup(r.widgets.entries@, k) is None,
    {
        Cache { widget: Memo::new(), widgets: Memo::new() }
    }
}

} // verus!
