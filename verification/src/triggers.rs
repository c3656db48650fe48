//! The story flags of a player: one-shot marks by name, kept as a list of
//! entries and read as a map.
//!
//! A list is kept, and no hash map, because what a list records can be said
//! exactly over the text of the names: a hash map keyed by strings promises
//! nothing that could be proved of it, not even that it holds what was just
//! put in.

use vstd::prelude::*;
use crate::player::{Player, PlayerView};

verus! {

/// The flags that a list of entries records: of two entries with one name,
/// the later one counts.
pub open spec fn flags(entries: Seq<(String, bool)>) -> Map<Seq<char>, bool>
    decreases entries.len(),
{
    if entries.len() == 0 {
        Map::empty()
    } else {
        flags(entries.drop_last()).insert(entries.last().0@, entries.last().1)
    }
}

/// No two entries carry the same name.
pub open spec fn names_distinct(entries: Seq<(String, bool)>) -> bool {
    forall|i: int, j: int|
        0 <= i < j < entries.len() ==> (#[trigger] entries[i]).0@ != (#[trigger] entries[j]).0@
}

/// Writing over the last entry of a name records the same flags as adding a
/// new entry for it.
proof fn lemma_flags_overwrite(entries: Seq<(String, bool)>, i: int, entry: (String, bool))
    requires
        0 <= i < entries.len(),
        entries[i].0@ == entry.0@,
        forall|j: int| i < j < entries.len() ==> (#[trigger] entries[j]).0@ != entry.0@,
    ensures
        flags(entries.update(i, entry)) == flags(entries).insert(entry.0@, entry.1),
    decreases entries.len(),
{
    let written = entries.update(i, entry);
    if i == entries.len() - 1 {
        assert(written.drop_last() == entries.drop_last());
        assert(flags(written) == flags(entries).insert(entry.0@, entry.1));
    } else {
        let last = entries.last();
        assert(written.drop_last() == entries.drop_last().update(i, entry));
        lemma_flags_overwrite(entries.drop_last(), i, entry);
        assert(last.0@ != entry.0@);
        assert(flags(written) == flags(entries).insert(entry.0@, entry.1));
    }
}

/// The last entry of a name is the one that counts: its flag is recorded,
/// with its value.
proof fn lemma_flags_last_entry(entries: Seq<(String, bool)>, i: int)
    requires
        0 <= i < entries.len(),
        forall|j: int| i < j < entries.len() ==> (#[trigger] entries[j]).0@ != entries[i].0@,
    ensures
        flags(entries).dom().contains(entries[i].0@),
        flags(entries)[entries[i].0@] == entries[i].1,
    decreases entries.len(),
{
    if i < entries.len() - 1 {
        let rest = entries.drop_last();
        assert(rest[i] == entries[i]);
        assert forall|j: int| i < j < rest.len() implies (#[trigger] rest[j]).0@ != rest[i].0@ by {
            assert(rest[j] == entries[j]);
        }
        lemma_flags_last_entry(rest, i);
        assert(entries.last() == entries[entries.len() - 1]);
    }
}

/// A name that no entry carries has no flag recorded.
proof fn lemma_flags_absent(entries: Seq<(String, bool)>, name: Seq<char>)
    requires
        forall|j: int| 0 <= j < entries.len() ==> (#[trigger] entries[j]).0@ != name,
    ensures
        !flags(entries).dom().contains(name),
    decreases entries.len(),
{
    if entries.len() > 0 {
        let rest = entries.drop_last();
        assert forall|j: int| 0 <= j < rest.len() implies (#[trigger] rest[j]).0@ != name by {
            assert(rest[j] == entries[j]);
        }
        lemma_flags_absent(rest, name);
        assert(entries.last() == entries[entries.len() - 1]);
    }
}

impl PlayerView {
    /// The player has a story behind them: some flag is recorded, whatever
    /// its name and value.
    pub open spec fn has_begun(self) -> bool {
        exists|name: Seq<char>| self.triggers.dom().contains(name)
    }

    /// The value recorded for the flag `name`, if any.
    pub open spec fn trigger(self, name: Seq<char>) -> Option<bool> {
        if self.triggers.dom().contains(name) {
            Some(self.triggers[name])
        } else {
            None
        }
    }
}

/// The place of the entry that counts for `name`: the last one of that name,
/// if there is any.
fn last_entry(entries: &Vec<(String, bool)>, name: &String) -> (found: Option<usize>)
    ensures
        match found {
            Some(i) => {
                &&& i < entries.len()
                &&& entries[i as int].0@ == name@
                &&& forall|j: int| i < j < entries.len() ==> (#[trigger] entries[j]).0@ != name@
            },
            None => forall|j: int| 0 <= j < entries.len() ==> (#[trigger] entries[j]).0@ != name@,
        },
{
    let mut i: usize = entries.len();
    while i > 0
        invariant
            i <= entries.len(),
            forall|j: int| i <= j < entries.len() ==> (#[trigger] entries[j]).0@ != name@,
        decreases i,
    {
        i -= 1;
        if entries[i].0 == *name {
            return Some(i);
        }
    }
    None
}

impl Player {
    /// The value recorded for the story flag `name`, if any.
    pub fn trigger(&self, name: &str) -> (value: Option<bool>)
        ensures
            value == self@.trigger(name@),
    {
        let key = name.to_owned();
        match last_entry(&self.triggers, &key) {
            Some(i) => {
                proof {
                    lemma_flags_last_entry(self.triggers@, i as int);
                }
                Some(self.triggers[i].1)
            },
            None => {
                proof {
                    lemma_flags_absent(self.triggers@, name@);
                }
                None
            },
        }
    }

    /// Records the story flag `name` with `value`, in place of what was
    /// recorded for it before, and leaves every other flag as it was. A list
    /// that holds no name twice still holds none twice.
    pub fn set_trigger(&mut self, name: &str, value: bool)
        ensures
            final(self)@ == (PlayerView {
                triggers: old(self)@.triggers.insert(name@, value),
                ..old(self)@
            }),
            names_distinct(old(self).triggers@) ==> names_distinct(final(self).triggers@),
    {
        let key = name.to_owned();
        match last_entry(&self.triggers, &key) {
            Some(i) => {
                proof {
                    lemma_flags_overwrite(self.triggers@, i as int, (key, value));
                }
                self.triggers.set(i, (key, value));
                assert(names_distinct(old(self).triggers@) ==> names_distinct(self.triggers@)) by {
                    if names_distinct(old(self).triggers@) {
                        assert forall|a: int, b: int| 0 <= a < b < self.triggers.len() implies (
                        #[trigger] self.triggers[a]).0@ != (#[trigger] self.triggers[b]).0@ by {
                            assert(old(self).triggers[a].0@ == self.triggers[a].0@);
                            assert(old(self).triggers[b].0@ == self.triggers[b].0@);
                        }
                    }
                }
            },
            None => {
                self.triggers.push((key, value));
                assert(self.triggers@.drop_last() == old(self).triggers@);
            },
        }
    }

    /// Whether any story flag is recorded.
    pub fn has_begun(&self) -> (begun: bool)
        ensures
            begun == self@.has_begun(),
    {
        proof {
            if self.triggers.len() > 0 {
                assert(self@.triggers.dom().contains(self.triggers@.last().0@));
            }
        }
        !self.triggers.is_empty()
    }
}

} // verus!
