//! A small map from string keys to channels.
//!
//! Sessions and pending requests are few and short-lived, so the map is a
//! vector of entries. Its invariant is that no key occurs twice; its view is
//! the mathematical map from keys to channels.

use vstd::prelude::*;

verus! {

/// Names one outbound channel: the queue toward one connection's writer.
///
/// The state machines only say on which channel a message goes out; the
/// senders of the open channels are kept by name in
/// [`Lines`](crate::lines::Lines).
#[derive(Clone, Copy, Debug, PartialEq, Eq, Hash, Structural)]
pub struct ChannelId(pub u64);

struct Entry {
    key: String,
    channel: ChannelId,
}

spec fn key_at(entries: Seq<Entry>, i: int) -> Seq<char> {
    entries[i].key@
}

spec fn distinct_keys(entries: Seq<Entry>) -> bool {
    forall|i: int, j: int|
        0 <= i < j < entries.len() ==> #[trigger] key_at(entries, i) != #[trigger] key_at(
            entries,
            j,
        )
}

spec fn has_key(entries: Seq<Entry>, key: Seq<char>) -> bool {
    exists|i: int| 0 <= i < entries.len() && #[trigger] key_at(entries, i) == key
}

spec fn index_of(entries: Seq<Entry>, key: Seq<char>) -> int {
    choose|i: int| 0 <= i < entries.len() && #[trigger] key_at(entries, i) == key
}

spec fn as_map(entries: Seq<Entry>) -> Map<Seq<char>, ChannelId> {
    Map::new(|key: Seq<char>| has_key(entries, key), |key: Seq<char>| entries[index_of(entries, key)].channel)
}

proof fn lemma_found(entries: Seq<Entry>, i: int)
    requires
        distinct_keys(entries),
        0 <= i < entries.len(),
    ensures
        has_key(entries, key_at(entries, i)),
        index_of(entries, key_at(entries, i)) == i,
        as_map(entries).contains_key(key_at(entries, i)),
        as_map(entries)[key_at(entries, i)] == entries[i].channel,
{
    let j = index_of(entries, key_at(entries, i));
    assert(key_at(entries, j) == key_at(entries, i));
}

proof fn lemma_push(entries: Seq<Entry>, entry: Entry)
    requires
        distinct_keys(entries),
        !has_key(entries, entry.key@),
    ensures
        distinct_keys(entries.push(entry)),
        as_map(entries.push(entry)) == as_map(entries).insert(entry.key@, entry.channel),
{
    let after = entries.push(entry);
    assert forall|i: int, j: int| 0 <= i < j < after.len() implies #[trigger] key_at(after, i)
        != #[trigger] key_at(after, j) by {
        if j < entries.len() {
            assert(key_at(entries, i) != key_at(entries, j));
        } else {
            assert(key_at(entries, i) == key_at(after, i));
        }
    }
    assert forall|key: Seq<char>|
        as_map(after).contains_key(key) <==> #[trigger] as_map(entries).insert(
            entry.key@,
            entry.channel,
        ).contains_key(key) by {
        if has_key(entries, key) {
            let i = index_of(entries, key);
            assert(key_at(after, i) == key);
        }
        if key == entry.key@ {
            assert(key_at(after, entries.len() as int) == key);
        }
        if has_key(after, key) {
            let i = index_of(after, key);
            if i < entries.len() {
                assert(key_at(entries, i) == key);
            }
        }
    }
    assert forall|key: Seq<char>| #[trigger] as_map(after).contains_key(key) implies as_map(
        after,
    )[key] == as_map(entries).insert(entry.key@, entry.channel)[key] by {
        let i = index_of(after, key);
        lemma_found(after, i);
        if i < entries.len() {
            assert(key_at(entries, i) == key);
            lemma_found(entries, i);
        }
    }
    assert(as_map(after) =~= as_map(entries).insert(entry.key@, entry.channel));
}

proof fn lemma_update(entries: Seq<Entry>, i: int, entry: Entry)
    requires
        distinct_keys(entries),
        0 <= i < entries.len(),
        entry.key@ == key_at(entries, i),
    ensures
        distinct_keys(entries.update(i, entry)),
        as_map(entries.update(i, entry)) == as_map(entries).insert(entry.key@, entry.channel),
{
    let after = entries.update(i, entry);
    assert forall|a: int, b: int| 0 <= a < b < after.len() implies #[trigger] key_at(after, a)
        != #[trigger] key_at(after, b) by {
        assert(key_at(after, a) == key_at(entries, a));
        assert(key_at(after, b) == key_at(entries, b));
    }
    assert forall|key: Seq<char>|
        as_map(after).contains_key(key) <==> #[trigger] as_map(entries).insert(
            entry.key@,
            entry.channel,
        ).contains_key(key) by {
        if has_key(entries, key) {
            let j = index_of(entries, key);
            assert(key_at(after, j) == key);
        }
        if key == entry.key@ {
            assert(key_at(after, i) == key);
        }
        if has_key(after, key) {
            let j = index_of(after, key);
            assert(key_at(entries, j) == key);
        }
    }
    assert forall|key: Seq<char>| #[trigger] as_map(after).contains_key(key) implies as_map(
        after,
    )[key] == as_map(entries).insert(entry.key@, entry.channel)[key] by {
        let j = index_of(after, key);
        lemma_found(after, j);
        assert(key_at(entries, j) == key);
        lemma_found(entries, j);
    }
    assert(as_map(after) =~= as_map(entries).insert(entry.key@, entry.channel));
}

proof fn lemma_remove(entries: Seq<Entry>, i: int)
    requires
        distinct_keys(entries),
        0 <= i < entries.len(),
    ensures
        distinct_keys(entries.remove(i)),
        as_map(entries.remove(i)) == as_map(entries).remove(key_at(entries, i)),
{
    let after = entries.remove(i);
    let gone = key_at(entries, i);
    assert forall|a: int| 0 <= a < after.len() implies #[trigger] key_at(after, a) == key_at(
        entries,
        if a < i {
            a
        } else {
            a + 1
        },
    ) by {}
    assert forall|a: int, b: int| 0 <= a < b < after.len() implies #[trigger] key_at(after, a)
        != #[trigger] key_at(after, b) by {
        let a0 = if a < i {
            a
        } else {
            a + 1
        };
        let b0 = if b < i {
            b
        } else {
            b + 1
        };
        assert(key_at(entries, a0) != key_at(entries, b0));
    }
    assert forall|key: Seq<char>|
        as_map(after).contains_key(key) <==> #[trigger] as_map(entries).remove(gone).contains_key(
            key,
        ) by {
        if has_key(after, key) {
            let a = index_of(after, key);
            let a0 = if a < i {
                a
            } else {
                a + 1
            };
            assert(key_at(entries, a0) == key);
            assert(key_at(entries, a0) != key_at(entries, i)) by {
                if a0 < i {
                    assert(key_at(entries, a0) != key_at(entries, i));
                } else {
                    assert(key_at(entries, i) != key_at(entries, a0));
                }
            }
        }
        if has_key(entries, key) && key != gone {
            let j = index_of(entries, key);
            let a = if j < i {
                j
            } else {
                j - 1
            };
            assert(key_at(after, a) == key);
        }
    }
    assert forall|key: Seq<char>| #[trigger] as_map(after).contains_key(key) implies as_map(
        after,
    )[key] == as_map(entries).remove(gone)[key] by {
        let a = index_of(after, key);
        lemma_found(after, a);
        let a0 = if a < i {
            a
        } else {
            a + 1
        };
        assert(key_at(entries, a0) == key);
        lemma_found(entries, a0);
    }
    assert(as_map(after) =~= as_map(entries).remove(gone));
}

/// The entries of `before` whose channel is neither `owner` nor in `closed`.
pub open spec fn without_channels(
    before: Map<Seq<char>, ChannelId>,
    owner: Option<ChannelId>,
    closed: Seq<ChannelId>,
) -> Map<Seq<char>, ChannelId> {
    Map::new(
        |key: Seq<char>|
            before.contains_key(key) && Some(before[key]) != owner && !closed.contains(
                before[key],
            ),
        |key: Seq<char>| before[key],
    )
}

/// A map from string keys to channels in which no key occurs twice.
pub struct Registry {
    entries: Vec<Entry>,
}

impl View for Registry {
    type V = Map<Seq<char>, ChannelId>;

    closed spec fn view(&self) -> Map<Seq<char>, ChannelId> {
        as_map(self.entries@)
    }
}

fn is_listed(channels: &Vec<ChannelId>, channel: ChannelId) -> (listed: bool)
    ensures
        listed == channels@.contains(channel),
{
    let mut i: usize = 0;
    while i < channels.len()
        invariant
            i <= channels.len(),
            forall|j: int| 0 <= j < i ==> channels@[j] != channel,
        decreases channels.len() - i,
    {
        if channels[i] == channel {
            return true;
        }
        i += 1;
    }
    false
}

impl Registry {
    #[verifier::type_invariant]
    spec fn no_key_twice(self) -> bool {
        distinct_keys(self.entries@)
    }

    /// The empty map.
    pub fn new() -> (registry: Registry)
        ensures
            registry@ == Map::<Seq<char>, ChannelId>::empty(),
    {
        let registry = Registry { entries: Vec::new() };
        assert(registry@ =~= Map::<Seq<char>, ChannelId>::empty());
        registry
    }

    fn position(&self, key: &String) -> (found: Option<usize>)
        ensures
            match found {
                Some(i) => i < self.entries@.len() && key_at(self.entries@, i as int) == key@,
                None => !has_key(self.entries@, key@),
            },
    {
        let mut i: usize = 0;
        while i < self.entries.len()
            invariant
                i <= self.entries@.len(),
                forall|j: int| 0 <= j < i ==> key_at(self.entries@, j) != key@,
            decreases self.entries@.len() - i,
        {
            if self.entries[i].key == *key {
                return Some(i);
            }
            i += 1;
        }
        None
    }

    /// The channel stored under `key`, if any.
    pub fn get(&self, key: &str) -> (channel: Option<ChannelId>)
        ensures
            channel == (if self@.contains_key(key@) {
                Some(self@[key@])
            } else {
                None
            }),
    {
        proof {
            use_type_invariant(self);
        }
        let owned = key.to_owned();
        match self.position(&owned) {
            Some(i) => {
                proof {
                    lemma_found(self.entries@, i as int);
                }
                Some(self.entries[i].channel)
            },
            None => None,
        }
    }

    /// Whether anything is stored under `key`.
    pub fn contains_key(&self, key: &str) -> (present: bool)
        ensures
            present == self@.contains_key(key@),
    {
        self.get(key).is_some()
    }

    /// Stores `channel` under `key`; an earlier entry under that key is
    /// overwritten.
    pub fn insert(&mut self, key: &str, channel: ChannelId)
        ensures
            final(self)@ == old(self)@.insert(key@, channel),
    {
        proof {
            use_type_invariant(&*self);
        }
        let owned = key.to_owned();
        let found = self.position(&owned);
        let mut entries = self.take_entries();
        match found {
            Some(i) => {
                proof {
                    lemma_update(entries@, i as int, Entry { key: owned, channel });
                }
                entries.set(i, Entry { key: owned, channel });
            },
            None => {
                proof {
                    lemma_push(entries@, Entry { key: owned, channel });
                }
                entries.push(Entry { key: owned, channel });
            },
        }
        self.entries = entries;
    }

    /// Removes the entry under `key`, if there is one.
    pub fn remove(&mut self, key: &str)
        ensures
            final(self)@ == old(self)@.remove(key@),
    {
        proof {
            use_type_invariant(&*self);
        }
        let owned = key.to_owned();
        match self.position(&owned) {
            Some(i) => {
                let mut entries = self.take_entries();
                proof {
                    lemma_remove(entries@, i as int);
                }
                entries.remove(i);
                self.entries = entries;
            },
            None => {
                assert(self@ =~= self@.remove(key@));
            },
        }
    }

    /// Removes every entry whose channel is `owner` or is listed in `closed`.
    pub fn drop_channels(&mut self, owner: Option<ChannelId>, closed: &Vec<ChannelId>)
        ensures
            final(self)@ == without_channels(old(self)@, owner, closed@),
    {
        proof {
            use_type_invariant(&*self);
        }
        let ghost before = self@;
        let mut entries = self.take_entries();
        let mut i: usize = 0;
        while i < entries.len()
            invariant
                i <= entries@.len(),
                distinct_keys(entries@),
                as_map(entries@).submap_of(before),
                forall|key: Seq<char>|
                    before.contains_key(key) && Some(before[key]) != owner && !closed@.contains(
                        before[key],
                    ) ==> #[trigger] as_map(entries@).contains_key(key),
                forall|j: int|
                    0 <= j < i ==> Some(#[trigger] entries@[j].channel) != owner
                        && !closed@.contains(entries@[j].channel),
            decreases entries@.len() - i,
        {
            let channel = entries[i].channel;
            let owned = match owner {
                Some(c) => c == channel,
                None => false,
            };
            if owned || is_listed(closed, channel) {
                proof {
                    lemma_remove(entries@, i as int);
                    lemma_found(entries@, i as int);
                }
                entries.remove(i);
            } else {
                i += 1;
            }
        }
        proof {
            let kept = without_channels(before, owner, closed@);
            assert forall|key: Seq<char>| as_map(entries@).contains_key(key) implies #[trigger] kept.contains_key(
                key,
            ) by {
                let j = index_of(entries@, key);
                lemma_found(entries@, j);
            }
            assert(as_map(entries@) =~= kept);
        }
        self.entries = entries;
    }

    /// Moves the entries out, leaving the map empty until they are put back.
    fn take_entries(&mut self) -> (entries: Vec<Entry>)
        ensures
            entries@ == old(self).entries@,
            final(self).entries@.len() == 0,
    {
        let mut entries: Vec<Entry> = Vec::new();
        std::mem::swap(&mut entries, &mut self.entries);
        entries
    }

    /// The number of entries.
    pub fn len(&self) -> (n: usize)
        ensures
            n == self@.len(),
            self@.dom().finite(),
    {
        proof {
            use_type_invariant(self);
            lemma_len(self.entries@);
        }
        self.entries.len()
    }
}

proof fn lemma_len(entries: Seq<Entry>)
    requires
        distinct_keys(entries),
    ensures
        as_map(entries).dom().finite(),
        as_map(entries).len() == entries.len(),
    decreases entries.len(),
{
    if entries.len() == 0 {
        assert(as_map(entries) =~= Map::<Seq<char>, ChannelId>::empty());
    } else {
        let last = (entries.len() - 1) as int;
        lemma_remove(entries, last);
        lemma_found(entries, last);
        let rest = entries.remove(last);
        lemma_len(rest);
        assert(as_map(entries) =~= as_map(rest).insert(key_at(entries, last), entries[last].channel));
    }
}

} // verus!
