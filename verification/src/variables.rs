//! The table of project variables that a request is built with: each key
//! stands for one value, and a later insert of a key replaces the earlier one.

use vstd::prelude::*;

use crate::text::chars_of;
use crate::text::chars_equal;

verus! {

/// The map that a sequence of (key, value) entries describes, later entries
/// overriding earlier ones with the same key.
pub open spec fn entries_map(e: Seq<(Vec<char>, Vec<char>)>) -> Map<Seq<char>, Seq<char>>
    decreases e.len(),
{
    if e.len() == 0 {
        Map::empty()
    } else {
        entries_map(e.drop_last()).insert(e.last().0@, e.last().1@)
    }
}

/// No key occurs twice among the entries.
pub open spec fn keys_unique(e: Seq<(Vec<char>, Vec<char>)>) -> bool {
    forall|i: int, j: int| 0 <= i < j < e.len() ==> e[i].0@ != e[j].0@
}

/// With unique keys, the map holds exactly the entries' keys, each with its
/// entry's value.
proof fn lemma_entries_map_lookup(e: Seq<(Vec<char>, Vec<char>)>, k: Seq<char>)
    requires
        keys_unique(e),
    ensures
        entries_map(e).contains_key(k) <==> exists|i: int| 0 <= i < e.len() && e[i].0@ == k,
        forall|i: int| 0 <= i < e.len() && e[i].0@ == k ==> entries_map(e)[k] == e[i].1@,
    decreases e.len(),
{
    if e.len() > 0 {
        let d = e.drop_last();
        lemma_entries_map_lookup(d, k);
        if entries_map(e).contains_key(k) && e.last().0@ != k {
            let i = choose|i: int| 0 <= i < d.len() && d[i].0@ == k;
            assert(e[i].0@ == k);
        }
        assert forall|i: int| 0 <= i < e.len() && e[i].0@ == k implies entries_map(
            e,
        ).contains_key(k) by {
            if i < e.len() - 1 {
                assert(d[i] == e[i]);
            }
        }
        assert forall|i: int| 0 <= i < e.len() && e[i].0@ == k implies entries_map(e)[k]
            == e[i].1@ by {
            if i < e.len() - 1 {
                assert(d[i] == e[i]);
            }
        }
    }
}

/// Replacing the value of the entry at `i` replaces the value of its key.
proof fn lemma_entries_map_update(
    e: Seq<(Vec<char>, Vec<char>)>,
    i: int,
    entry: (Vec<char>, Vec<char>),
)
    requires
        keys_unique(e),
        0 <= i < e.len(),
        entry.0@ == e[i].0@,
    ensures
        keys_unique(e.update(i, entry)),
        entries_map(e.update(i, entry)) == entries_map(e).insert(entry.0@, entry.1@),
    decreases e.len(),
{
    let u = e.update(i, entry);
    if i == e.len() - 1 {
        assert(u.drop_last() =~= e.drop_last());
        let d = e.drop_last();
        assert forall|j: int| 0 <= j < d.len() implies d[j].0@ != e[i].0@ by {}
        lemma_entries_map_lookup(d, entry.0@);
    } else {
        let d = e.drop_last();
        lemma_entries_map_update(d, i, entry);
        assert(u.drop_last() =~= d.update(i, entry));
        assert(e.last().0@ != entry.0@);
    }
    assert(entries_map(u) =~= entries_map(e).insert(entry.0@, entry.1@));
}

/// Project variables by key, as a request is built with them.
pub struct Variables {
    entries: Vec<(Vec<char>, Vec<char>)>,
}

impl View for Variables {
    type V = Map<Seq<char>, Seq<char>>;

    closed spec fn view(&self) -> Map<Seq<char>, Seq<char>> {
        entries_map(self.entries@)
    }
}

impl Variables {
    /// The table is well formed: no key is stored twice.
    pub closed spec fn wf(&self) -> bool {
        keys_unique(self.entries@)
    }

    /// An empty table.
    pub fn new() -> (v: Variables)
        ensures
            v.wf(),
            v@ == Map::<Seq<char>, Seq<char>>::empty(),
    {
        Variables { entries: Vec::new() }
    }

    /// Position of the entry whose key is `key`, if any.
    fn position(&self, key: &[char]) -> (r: Option<usize>)
        requires
            self.wf(),
        ensures
            match r {
                Some(i) => i < self.entries@.len() && self.entries@[i as int].0@ == key@,
                None => forall|i: int|
                    0 <= i < self.entries@.len() ==> self.entries@[i].0@ != key@,
            },
    {
        let mut i: usize = 0;
        while i < self.entries.len()
            invariant
                i <= self.entries@.len(),
                forall|j: int| 0 <= j < i ==> self.entries@[j].0@ != key@,
            decreases self.entries@.len() - i,
        {
            if chars_equal(self.entries[i].0.as_slice(), key) {
                return Some(i);
            }
            i += 1;
        }
        None
    }

    /// Sets the value of `key`, replacing any earlier value.
    pub fn insert(&mut self, key: &str, value: &str)
        requires
            old(self).wf(),
        ensures
            final(self).wf(),
            final(self)@ == old(self)@.insert(key@, value@),
    {
        let k = chars_of(key);
        let v = chars_of(value);
        match self.position(k.as_slice()) {
            Some(i) => {
                proof {
                    lemma_entries_map_update(self.entries@, i as int, (k, v));
                }
                self.entries.set(i, (k, v));
            },
            None => {
                let ghost old_entries = self.entries@;
                self.entries.push((k, v));
                assert(self.entries@.drop_last() =~= old_entries);
            },
        }
    }

    /// The value stored for the key whose characters are `key`.
    pub fn get_chars(&self, key: &[char]) -> (r: Option<&Vec<char>>)
        requires
            self.wf(),
        ensures
            match r {
                Some(v) => self@.contains_key(key@) && v@ == self@[key@],
                None => !self@.contains_key(key@),
            },
    {
        proof {
            lemma_entries_map_lookup(self.entries@, key@);
        }
        match self.position(key) {
            Some(i) => Some(&self.entries[i].1),
            None => None,
        }
    }

    /// The value stored for `key`, if any.
    pub fn get(&self, key: &str) -> (r: Option<String>)
        requires
            self.wf(),
        ensures
            match r {
                Some(v) => self@.contains_key(key@) && v@ == self@[key@],
                None => !self@.contains_key(key@),
            },
    {
        let k = chars_of(key);
        match self.get_chars(k.as_slice()) {
            Some(v) => Some(crate::text::string_of(v.as_slice())),
            None => None,
        }
    }
}

} // verus!
