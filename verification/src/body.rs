//! The JSON object that a POST sends: a mapping from keys to values in which
//! no key occurs twice.

use vstd::prelude::*;
use crate::kv::KvPair;

verus! {

/// A key with its value, as texts.
pub type Entry = (Seq<char>, Seq<char>);

/// The mapping that a list of pairs describes when it is read from left to
/// right and a later pair replaces an earlier one with the same key.
pub open spec fn pairs_map(pairs: Seq<Entry>) -> Map<Seq<char>, Seq<char>>
    decreases pairs.len(),
{
    if pairs.len() == 0 {
        Map::empty()
    } else {
        let last = pairs.last();
        pairs_map(pairs.drop_last()).insert(last.0, last.1)
    }
}

/// The texts of a list of pairs.
pub open spec fn pair_views(pairs: Seq<KvPair>) -> Seq<Entry> {
    pairs.map_values(|p: KvPair| p@)
}

/// No key stands at two places of `entries`.
pub open spec fn keys_distinct(entries: Seq<Entry>) -> bool {
    forall|i: int, j: int|
        0 <= i < j < entries.len() ==> (#[trigger] entries[i]).0 != (#[trigger] entries[j]).0
}

/// `key` stands at place `i` of `entries`.
pub open spec fn key_at(entries: Seq<Entry>, key: Seq<char>, i: int) -> bool {
    0 <= i < entries.len() && entries[i].0 == key
}

/// The mapping that holds exactly the given entries.
pub open spec fn entries_map(entries: Seq<Entry>) -> Map<Seq<char>, Seq<char>> {
    Map::new(
        |key: Seq<char>| exists|i: int| key_at(entries, key, i),
        |key: Seq<char>| entries[choose|i: int| key_at(entries, key, i)].1,
    )
}

/// `entries` after `key` got `value`: in place where `key` stood already, at
/// the end where it is new.
pub open spec fn put(entries: Seq<Entry>, key: Seq<char>, value: Seq<char>) -> Seq<Entry> {
    if exists|i: int| key_at(entries, key, i) {
        entries.update(choose|i: int| key_at(entries, key, i), (key, value))
    } else {
        entries.push((key, value))
    }
}

/// The entries that a list of pairs leaves: one for each key, in the order in
/// which the keys first occur, each with the value of its last pair.
pub open spec fn merged(pairs: Seq<Entry>) -> Seq<Entry>
    decreases pairs.len(),
{
    if pairs.len() == 0 {
        Seq::empty()
    } else {
        let last = pairs.last();
        put(merged(pairs.drop_last()), last.0, last.1)
    }
}

/// In a list without repeated keys, a key stands at one place only.
pub proof fn lemma_key_place_unique(entries: Seq<Entry>, key: Seq<char>, i: int, j: int)
    requires
        keys_distinct(entries),
        key_at(entries, key, i),
        key_at(entries, key, j),
    ensures
        i == j,
{
    if i < j {
        assert(entries[i].0 != entries[j].0);
    } else if j < i {
        assert(entries[j].0 != entries[i].0);
    }
}

/// In a list without repeated keys, each entry is in the mapping.
pub proof fn lemma_entry_in_map(entries: Seq<Entry>, i: int)
    requires
        keys_distinct(entries),
        0 <= i < entries.len(),
    ensures
        entries_map(entries).contains_key(entries[i].0),
        entries_map(entries)[entries[i].0] == entries[i].1,
{
    let key = entries[i].0;
    assert(key_at(entries, key, i));
    let c = choose|c: int| key_at(entries, key, c);
    lemma_key_place_unique(entries, key, i, c);
}

/// Of several pairs with one key, the last one gives the value: a pair that no
/// later pair repeats the key of is in the mapping as it stands.
pub proof fn lemma_last_pair_wins(pairs: Seq<Entry>, i: int)
    requires
        0 <= i < pairs.len(),
        forall|j: int| i < j < pairs.len() ==> pairs[j].0 != pairs[i].0,
    ensures
        pairs_map(pairs).contains_key(pairs[i].0),
        pairs_map(pairs)[pairs[i].0] == pairs[i].1,
    decreases pairs.len(),
{
    if i < pairs.len() - 1 {
        let front = pairs.drop_last();
        assert(front[i] == pairs[i]);
        assert forall|j: int| i < j < front.len() implies front[j].0 != front[i].0 by {
            assert(front[j] == pairs[j]);
        }
        lemma_last_pair_wins(front, i);
        assert(pairs.last().0 != pairs[i].0);
    }
}

/// The keys of the mapping are the keys of the pairs, and no others.
pub proof fn lemma_keys_of_pairs(pairs: Seq<Entry>, key: Seq<char>)
    ensures
        pairs_map(pairs).contains_key(key) <==> exists|i: int| key_at(pairs, key, i),
    decreases pairs.len(),
{
    if pairs.len() > 0 {
        let front = pairs.drop_last();
        let n = pairs.len() - 1;
        lemma_keys_of_pairs(front, key);
        if pairs_map(pairs).contains_key(key) {
            if pairs.last().0 == key {
                assert(key_at(pairs, key, n));
            } else {
                let i = choose|i: int| key_at(front, key, i);
                assert(key_at(pairs, key, i));
            }
        }
        if exists|i: int| key_at(pairs, key, i) {
            let i = choose|i: int| key_at(pairs, key, i);
            if i < n {
                assert(key_at(front, key, i));
            }
        }
    }
}

/// The entries that a list of pairs leaves hold each key once, and they make
/// up the mapping of the list: one entry for each key, with the value of the
/// key's last pair.
pub proof fn lemma_merged_is_map(pairs: Seq<Entry>)
    ensures
        keys_distinct(merged(pairs)),
        entries_map(merged(pairs)) == pairs_map(pairs),
    decreases pairs.len(),
{
    if pairs.len() == 0 {
        assert(entries_map(merged(pairs)) =~= Map::<Seq<char>, Seq<char>>::empty());
    } else {
        let front = merged(pairs.drop_last());
        let last = pairs.last();
        lemma_merged_is_map(pairs.drop_last());
        if exists|i: int| key_at(front, last.0, i) {
            let c = choose|i: int| key_at(front, last.0, i);
            lemma_update_entry(front, c, last.1);
        } else {
            lemma_push_entry(front, last.0, last.1);
        }
    }
}

/// The body of a POST: keys with their values, each key once.
#[derive(Debug)]
pub struct JsonBody {
    entries: Vec<KvPair>,
}

impl View for JsonBody {
    type V = Map<Seq<char>, Seq<char>>;

    closed spec fn view(&self) -> Map<Seq<char>, Seq<char>> {
        entries_map(pair_views(self.entries@))
    }
}

impl JsonBody {
    #[verifier::type_invariant]
    spec fn keys_once(&self) -> bool {
        keys_distinct(pair_views(self.entries@))
    }

    /// The entries in the order in which their keys first came in.
    pub closed spec fn entry_views(&self) -> Seq<Entry> {
        pair_views(self.entries@)
    }

    /// A body without entries.
    pub fn new() -> (body: JsonBody)
        ensures
            body@ == Map::<Seq<char>, Seq<char>>::empty(),
            body.entry_views().len() == 0,
    {
        let body = JsonBody { entries: Vec::new() };
        assert(body@ =~= Map::<Seq<char>, Seq<char>>::empty());
        body
    }

    /// The place of `key` among the entries.
    fn position(&self, key: &String) -> (r: Option<usize>)
        ensures
            match r {
                Some(i) => key_at(self.entry_views(), key@, i as int),
                None => forall|i: int| !key_at(self.entry_views(), key@, i),
            },
    {
        let mut i: usize = 0;
        while i < self.entries.len()
            invariant
                i <= self.entries.len(),
                forall|j: int| 0 <= j < i ==> !key_at(self.entry_views(), key@, j),
            decreases self.entries.len() - i,
        {
            if self.entries[i].k == *key {
                return Some(i);
            }
            i = i + 1;
        }
        None
    }

    /// Sets the value of `key`. A value that `key` had before is replaced
    /// where it stood; a new key comes last. Every other entry stays as it
    /// was.
    pub fn insert(&mut self, key: String, value: String)
        ensures
            final(self)@ == old(self)@.insert(key@, value@),
            final(self).entry_views() == put(old(self).entry_views(), key@, value@),
    {
        proof {
            use_type_invariant(&*self);
        }
        let ghost before = self.entry_views();
        let found = self.position(&key);
        let ghost k = key@;
        let ghost v = value@;
        let mut taken = JsonBody::new();
        core::mem::swap(self, &mut taken);
        let mut entries = taken.entries;
        match found {
            Some(i) => {
                entries.set(i, KvPair { k: key, v: value });
                proof {
                    assert(pair_views(entries@) =~= before.update(i as int, (k, v)));
                    lemma_update_entry(before, i as int, v);
                    lemma_key_place_unique(before, k, i as int, choose|c: int| key_at(before, k, c));
                }
            },
            None => {
                entries.push(KvPair { k: key, v: value });
                proof {
                    assert(pair_views(entries@) =~= before.push((k, v)));
                    lemma_push_entry(before, k, v);
                }
            },
        }
        *self = JsonBody { entries };
    }

    /// The body that a list of pairs describes: of pairs with the same key the
    /// last one counts.
    pub fn from_pairs(pairs: &Vec<KvPair>) -> (body: JsonBody)
        ensures
            body@ == pairs_map(pair_views(pairs@)),
            body.entry_views() == merged(pair_views(pairs@)),
    {
        let mut body = JsonBody::new();
        let mut i: usize = 0;
        while i < pairs.len()
            invariant
                i <= pairs.len(),
                body@ == pairs_map(pair_views(pairs@).take(i as int)),
                body.entry_views() == merged(pair_views(pairs@).take(i as int)),
            decreases pairs.len() - i,
        {
            let pair = &pairs[i];
            body.insert(pair.k.clone(), pair.v.clone());
            proof {
                let all = pair_views(pairs@);
                assert(all.take(i + 1).drop_last() =~= all.take(i as int));
                assert(all.take(i + 1).last() == pair@);
            }
            i = i + 1;
        }
        assert(pair_views(pairs@).take(i as int) =~= pair_views(pairs@));
        body
    }

    /// How many keys the body holds.
    pub fn len(&self) -> (n: usize)
        ensures
            n == self.entry_views().len(),
            n == self@.dom().len(),
            self@.dom().finite(),
    {
        proof {
            use_type_invariant(self);
            lemma_map_size(self.entry_views());
        }
        self.entries.len()
    }

    /// The value of `key`, if the body holds it.
    pub fn get(&self, key: &str) -> (r: Option<&String>)
        ensures
            match r {
                Some(value) => self@.contains_key(key@) && self@[key@] == value@,
                None => !self@.contains_key(key@),
            },
    {
        proof {
            use_type_invariant(self);
        }
        let owned = key.to_owned();
        match self.position(&owned) {
            Some(i) => {
                let entry = &self.entries[i];
                proof {
                    lemma_entry_in_map(self.entry_views(), i as int);
                    assert(self.entry_views()[i as int] == entry@);
                }
                Some(&entry.v)
            },
            None => {
                assert(!entries_map(self.entry_views()).dom().contains(key@));
                None
            },
        }
    }

    /// The entries, each key once, in the order in which the keys first came
    /// in. They are what the mapping holds, no more and no less.
    pub fn entries(&self) -> (r: &Vec<KvPair>)
        ensures
            pair_views(r@) == self.entry_views(),
            keys_distinct(self.entry_views()),
            entries_map(self.entry_views()) == self@,
    {
        proof {
            use_type_invariant(self);
        }
        &self.entries
    }
}

/// Replacing the value at a place changes the mapping at that key only.
proof fn lemma_update_entry(entries: Seq<Entry>, i: int, value: Seq<char>)
    requires
        keys_distinct(entries),
        0 <= i < entries.len(),
    ensures
        keys_distinct(entries.update(i, (entries[i].0, value))),
        entries_map(entries.update(i, (entries[i].0, value))) == entries_map(entries).insert(
            entries[i].0,
            value,
        ),
        entries_map(entries).contains_key(entries[i].0),
{
    let key = entries[i].0;
    let after = entries.update(i, (key, value));
    assert forall|a: int, b: int| 0 <= a < b < after.len() implies (#[trigger] after[a]).0 != (
    #[trigger] after[b]).0 by {
        assert(entries[a].0 != entries[b].0);
    }
    assert(key_at(entries, key, i));
    let want = entries_map(entries).insert(key, value);
    assert forall|q: Seq<char>| #[trigger] entries_map(after).contains_key(q) <==> want.contains_key(q) by {
        if entries_map(after).contains_key(q) {
            let c = choose|c: int| key_at(after, q, c);
            assert(key_at(entries, q, c));
        }
        if want.contains_key(q) && q != key {
            let c = choose|c: int| key_at(entries, q, c);
            assert(key_at(after, q, c));
        }
        if q == key {
            assert(key_at(after, q, i));
        }
    }
    assert forall|q: Seq<char>| entries_map(after).contains_key(q) implies #[trigger] entries_map(after)[q] == want[q] by {
        let c = choose|c: int| key_at(after, q, c);
        lemma_entry_in_map(after, c);
        if q != key {
            assert(c != i);
            lemma_entry_in_map(entries, c);
        }
    }
    assert(entries_map(after) =~= want);
}

/// Adding an entry with a new key adds that key to the mapping.
proof fn lemma_push_entry(entries: Seq<Entry>, key: Seq<char>, value: Seq<char>)
    requires
        keys_distinct(entries),
        forall|i: int| !key_at(entries, key, i),
    ensures
        keys_distinct(entries.push((key, value))),
        entries_map(entries.push((key, value))) == entries_map(entries).insert(key, value),
        !entries_map(entries).contains_key(key),
{
    let after = entries.push((key, value));
    let n = entries.len() as int;
    assert forall|a: int, b: int| 0 <= a < b < after.len() implies (#[trigger] after[a]).0 != (
    #[trigger] after[b]).0 by {
        if b < n {
            assert(entries[a].0 != entries[b].0);
        } else {
            assert(!key_at(entries, key, a));
        }
    }
    let want = entries_map(entries).insert(key, value);
    assert forall|q: Seq<char>| #[trigger] entries_map(after).contains_key(q) <==> want.contains_key(q) by {
        if entries_map(after).contains_key(q) {
            let c = choose|c: int| key_at(after, q, c);
            if c < n {
                assert(key_at(entries, q, c));
            }
        }
        if want.contains_key(q) && q != key {
            let c = choose|c: int| key_at(entries, q, c);
            assert(key_at(after, q, c));
        }
        if q == key {
            assert(key_at(after, q, n));
        }
    }
    assert forall|q: Seq<char>| entries_map(after).contains_key(q) implies #[trigger] entries_map(after)[q] == want[q] by {
        let c = choose|c: int| key_at(after, q, c);
        lemma_entry_in_map(after, c);
        if q != key {
            assert(after[c] == entries[c]);
            lemma_entry_in_map(entries, c);
        } else if c < n {
            assert(key_at(entries, q, c));
        }
    }
    assert(entries_map(after) =~= want);
}

/// A list without repeated keys has as many entries as its mapping has keys.
proof fn lemma_map_size(entries: Seq<Entry>)
    requires
        keys_distinct(entries),
    ensures
        entries_map(entries).dom().finite(),
        entries_map(entries).dom().len() == entries.len(),
    decreases entries.len(),
{
    if entries.len() == 0 {
        assert(entries_map(entries).dom() =~= Set::<Seq<char>>::empty());
    } else {
        let front = entries.drop_last();
        let last = entries.last();
        assert forall|a: int, b: int| 0 <= a < b < front.len() implies (#[trigger] front[a]).0 != (
        #[trigger] front[b]).0 by {
            assert(entries[a].0 != entries[b].0);
        }
        assert forall|i: int| !key_at(front, last.0, i) by {
            if key_at(front, last.0, i) {
                assert(entries[i].0 != entries[entries.len() - 1].0);
            }
        }
        lemma_map_size(front);
        lemma_push_entry(front, last.0, last.1);
        assert(front.push(last) =~= entries);
        assert(entries_map(entries).dom() =~= entries_map(front).dom().insert(last.0));
    }
}

} // verus!
