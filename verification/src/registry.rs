//! The callback registry: a table from callback identifier to the host's
//! handler for it.
//!
//! The handler type is the host's own and opaque here. The table keeps one
//! handler for an identifier; storing under an identifier that is present
//! replaces its handler.

use vstd::prelude::*;

verus! {

/// Whether some entry is keyed by `key`.
spec fn has_key<H>(entries: Seq<(String, H)>, key: Seq<char>) -> bool {
    exists|i: int| 0 <= i < entries.len() && (#[trigger] entries[i]).0@ == key
}

/// The place of an entry keyed by `key`.
spec fn place_of<H>(entries: Seq<(String, H)>, key: Seq<char>) -> int {
    choose|i: int| 0 <= i < entries.len() && (#[trigger] entries[i]).0@ == key
}

/// Whether no two entries have the same key.
spec fn distinct_keys<H>(entries: Seq<(String, H)>) -> bool {
    forall|i: int, j: int|
        0 <= i < entries.len() && 0 <= j < entries.len() && i != j ==> (#[trigger] entries[i]).0@
            != (#[trigger] entries[j]).0@
}

/// The table that a sequence of entries stands for.
spec fn table_of<H>(entries: Seq<(String, H)>) -> Map<Seq<char>, H> {
    Map::new(|k: Seq<char>| has_key(entries, k), |k: Seq<char>| entries[place_of(entries, k)].1)
}

proof fn lemma_entry_is_found<H>(entries: Seq<(String, H)>, i: int)
    requires
        distinct_keys(entries),
        0 <= i < entries.len(),
    ensures
        has_key(entries, entries[i].0@),
        place_of(entries, entries[i].0@) == i,
        table_of(entries).contains_key(entries[i].0@),
        table_of(entries)[entries[i].0@] == entries[i].1,
{
    assert(entries[i].0@ == entries[i].0@);
}

/// A table from callback identifier to handler.
pub struct CallbackRegistry<H> {
    entries: Vec<(String, H)>,
}

impl<H> View for CallbackRegistry<H> {
    type V = Map<Seq<char>, H>;

    closed spec fn view(&self) -> Map<Seq<char>, H> {
        table_of(self.entries@)
    }
}

impl<H> CallbackRegistry<H> {
    /// Whether the table is well formed: no identifier has two entries.
    pub closed spec fn wf(&self) -> bool {
        distinct_keys(self.entries@)
    }

    /// An empty table.
    pub fn new() -> (r: Self)
        ensures
            r.wf(),
            r@ == Map::<Seq<char>, H>::empty(),
    {
        let r = CallbackRegistry { entries: Vec::new() };
        assert(r@ =~= Map::<Seq<char>, H>::empty());
        r
    }

    fn find(&self, id: &String) -> (r: Option<usize>)
        ensures
            match r {
                Some(i) => i < self.entries.len() && self.entries[i as int].0@ == id@,
                None => !has_key(self.entries@, id@),
            },
    {
        let mut i: usize = 0;
        while i < self.entries.len()
            invariant
                i <= self.entries.len(),
                forall|j: int| 0 <= j < i ==> (#[trigger] self.entries[j]).0@ != id@,
            decreases self.entries.len() - i,
        {
            if self.entries[i].0 == *id {
                return Some(i);
            }
            i += 1;
        }
        None
    }

    /// The number of identifiers in the table.
    pub fn len(&self) -> (r: usize)
        requires
            self.wf(),
        ensures
            r == self@.dom().len(),
            self@.dom().finite(),
    {
        proof {
            lemma_table_size(self.entries@);
        }
        self.entries.len()
    }

    /// Whether the identifier is in the table.
    pub fn contains(&self, id: &String) -> (r: bool)
        ensures
            r == self@.contains_key(id@),
    {
        self.find(id).is_some()
    }

    /// The handler stored under the identifier, or nothing where the
    /// identifier is not in the table. The entry stays.
    pub fn get(&self, id: &String) -> (r: Option<&H>)
        requires
            self.wf(),
        ensures
            match r {
                Some(h) => self@.contains_key(id@) && *h == self@[id@],
                None => !self@.contains_key(id@),
            },
    {
        match self.find(id) {
            Some(i) => {
                proof {
                    lemma_entry_is_found(self.entries@, i as int);
                }
                Some(&self.entries[i].1)
            },
            None => None,
        }
    }

    /// Stores the handler under the identifier, in place of any handler that
    /// was stored under it.
    pub fn store(&mut self, id: String, handler: H)
        requires
            old(self).wf(),
        ensures
            final(self).wf(),
            final(self)@ == old(self)@.insert(id@, handler),
    {
        let ghost before = self.entries@;
        let ghost key = id@;
        match self.find(&id) {
            Some(i) => {
                self.entries.set(i, (id, handler));
                proof {
                    lemma_stored(before, self.entries@, i as int);
                }
            },
            None => {
                self.entries.push((id, handler));
                proof {
                    assert forall|j: int| 0 <= j < before.len() implies (#[trigger] before[j]).0@
                        != key by {
                        if before[j].0@ == key {
                            assert(has_key(before, key));
                        }
                    }
                    lemma_stored(before, self.entries@, before.len() as int);
                }
            },
        }
    }

    /// Takes the handler stored under the identifier out of the table, or
    /// returns nothing and leaves the table as it is where the identifier is
    /// not in it.
    pub fn remove(&mut self, id: &String) -> (r: Option<H>)
        requires
            old(self).wf(),
        ensures
            final(self).wf(),
            match r {
                Some(h) => old(self)@.contains_key(id@) && h == old(self)@[id@] && final(self)@
                    == old(self)@.remove(id@),
                None => !old(self)@.contains_key(id@) && final(self)@ == old(self)@,
            },
    {
        match self.find(id) {
            Some(i) => {
                proof {
                    lemma_entry_is_found(self.entries@, i as int);
                    lemma_table_without(self.entries@, i as int);
                }
                let entry = self.entries.remove(i);
                Some(entry.1)
            },
            None => None,
        }
    }

    /// Takes every entry out of the table: the result holds what the table
    /// held, and the table is left empty.
    pub fn take_all(&mut self) -> (r: Self)
        requires
            old(self).wf(),
        ensures
            final(self).wf(),
            r.wf(),
            r@ == old(self)@,
            final(self)@ == Map::<Seq<char>, H>::empty(),
    {
        let mut taken: Vec<(String, H)> = Vec::new();
        core::mem::swap(&mut self.entries, &mut taken);
        assert(self@ =~= Map::<Seq<char>, H>::empty());
        CallbackRegistry { entries: taken }
    }

    /// Moves every entry of `other` into the table. Where an identifier is in
    /// both, the handler of `other` replaces the one in the table.
    pub fn adopt(&mut self, other: Self)
        requires
            old(self).wf(),
            other.wf(),
        ensures
            final(self).wf(),
            final(self)@ == old(self)@.union_prefer_right(other@),
    {
        let mut rest = other.entries;
        assert(self@.union_prefer_right(table_of(rest@)) =~= old(self)@.union_prefer_right(
            other@,
        ));
        while rest.len() > 0
            invariant
                self.wf(),
                distinct_keys(rest@),
                self@.union_prefer_right(table_of(rest@)) == old(self)@.union_prefer_right(
                    other@,
                ),
            decreases rest.len(),
        {
            let ghost table = self@;
            let ghost entries = rest@;
            proof {
                let last = entries.len() - 1;
                lemma_entry_is_found(entries, last);
                lemma_table_without(entries, last);
                assert(entries.remove(last) =~= entries.subrange(0, last));
            }
            match rest.pop() {
                Some((id, handler)) => {
                    self.store(id, handler);
                    assert(self@.union_prefer_right(table_of(rest@)) =~= table.union_prefer_right(
                        table_of(entries),
                    ));
                },
                None => {},
            }
        }
        assert(table_of(rest@) =~= Map::<Seq<char>, H>::empty());
        assert(self@.union_prefer_right(table_of(rest@)) =~= self@);
    }

    /// Takes out of the table the entries of the given identifiers: the
    /// result holds those of them that the table held, and the table keeps
    /// the rest.
    pub fn collect(&mut self, ids: &Vec<String>) -> (r: Self)
        requires
            old(self).wf(),
        ensures
            final(self).wf(),
            r.wf(),
            r@ == old(self)@.restrict(id_set(ids@)),
            final(self)@ == old(self)@.remove_keys(id_set(ids@)),
    {
        let mut out: CallbackRegistry<H> = CallbackRegistry::new();
        let mut i: usize = 0;
        assert(out@ =~= old(self)@.restrict(id_set(ids@.take(0))));
        assert(self@ =~= old(self)@.remove_keys(id_set(ids@.take(0))));
        while i < ids.len()
            invariant
                i <= ids.len(),
                self.wf(),
                out.wf(),
                out@ == old(self)@.restrict(id_set(ids@.take(i as int))),
                self@ == old(self)@.remove_keys(id_set(ids@.take(i as int))),
            decreases ids.len() - i,
        {
            let ghost seen = id_set(ids@.take(i as int));
            let ghost next = id_set(ids@.take(i + 1));
            let ghost key = ids[i as int]@;
            proof {
                assert forall|k: Seq<char>| next.contains(k) == (seen.contains(k) || k == key) by {
                    if seen.contains(k) {
                        let j = choose|j: int|
                            0 <= j < ids@.take(i as int).len() && (#[trigger] ids@.take(
                                i as int,
                            )[j])@ == k;
                        assert(ids@.take(i + 1)[j]@ == k);
                    }
                    if k == key {
                        assert(ids@.take(i + 1)[i as int]@ == k);
                    }
                    if next.contains(k) {
                        let j = choose|j: int|
                            0 <= j < ids@.take(i + 1).len() && (#[trigger] ids@.take(i + 1)[j])@
                                == k;
                        if j < i {
                            assert(ids@.take(i as int)[j]@ == k);
                        }
                    }
                }
            }
            match self.remove(&ids[i]) {
                Some(handler) => {
                    out.store(ids[i].clone(), handler);
                },
                None => {},
            }
            assert(out@ =~= old(self)@.restrict(next));
            assert(self@ =~= old(self)@.remove_keys(next));
            i += 1;
        }
        assert(ids@.take(i as int) =~= ids@);
        out
    }
}

/// The identifiers that a sequence of texts holds.
pub open spec fn id_set(ids: Seq<String>) -> Set<Seq<char>> {
    Set::new(|k: Seq<char>| exists|i: int| 0 <= i < ids.len() && (#[trigger] ids[i])@ == k)
}

proof fn lemma_stored<H>(before: Seq<(String, H)>, after: Seq<(String, H)>, at: int)
    requires
        distinct_keys(before),
        0 <= at < after.len(),
        after.len() == before.len() || (after.len() == before.len() + 1 && at == before.len()),
        at < before.len() ==> before[at].0@ == after[at].0@,
        forall|j: int| 0 <= j < before.len() && j != at ==> after[j] == #[trigger] before[j],
        forall|j: int|
            0 <= j < before.len() && j != at ==> (#[trigger] before[j]).0@ != after[at].0@,
    ensures
        distinct_keys(after),
        table_of(after) == table_of(before).insert(after[at].0@, after[at].1),
{
    let key = after[at].0@;
    assert forall|i: int, j: int|
        0 <= i < after.len() && 0 <= j < after.len() && i != j implies (#[trigger] after[i]).0@
        != (#[trigger] after[j]).0@ by {
        if i != at && j != at {
            assert(after[i] == before[i]);
            assert(after[j] == before[j]);
        } else if i == at {
            assert(after[j] == before[j]);
        } else {
            assert(after[i] == before[i]);
        }
    }
    assert forall|k: Seq<char>| has_key(after, k) == (has_key(before, k) || k == key) by {
        if has_key(before, k) && k != key {
            let j = place_of(before, k);
            assert(after[j] == before[j]);
            assert(after[j].0@ == k);
        }
        if k == key {
            assert(after[at].0@ == k);
        }
        if has_key(after, k) && k != key {
            let j = place_of(after, k);
            assert(after[j] == before[j]);
            assert(before[j].0@ == k);
        }
    }
    assert forall|k: Seq<char>| has_key(after, k) && k != key implies table_of(after)[k]
        == table_of(before)[k] by {
        let j = place_of(after, k);
        assert(after[j] == before[j]);
        lemma_entry_is_found(after, j);
        lemma_entry_is_found(before, j);
    }
    lemma_entry_is_found(after, at);
    assert(table_of(after) =~= table_of(before).insert(key, after[at].1));
}

proof fn lemma_table_without<H>(entries: Seq<(String, H)>, i: int)
    requires
        distinct_keys(entries),
        0 <= i < entries.len(),
    ensures
        distinct_keys(entries.remove(i)),
        table_of(entries.remove(i)) == table_of(entries).remove(entries[i].0@),
        table_of(entries) == table_of(entries.remove(i)).insert(entries[i].0@, entries[i].1),
{
    let after = entries.remove(i);
    let key = entries[i].0@;
    assert forall|k: Seq<char>| has_key(after, k) == (has_key(entries, k) && k != key) by {
        if has_key(entries, k) && k != key {
            let j = place_of(entries, k);
            if j < i {
                assert(after[j].0@ == k);
            } else {
                assert(after[j - 1].0@ == k);
            }
        }
        if has_key(after, k) {
            let j = place_of(after, k);
            if j < i {
                assert(entries[j].0@ == k);
            } else {
                assert(entries[j + 1].0@ == k);
            }
        }
    }
    assert forall|k: Seq<char>| has_key(after, k) implies table_of(after)[k] == table_of(
        entries,
    )[k] by {
        let j = place_of(after, k);
        lemma_entry_is_found(after, j);
        if j < i {
            lemma_entry_is_found(entries, j);
        } else {
            lemma_entry_is_found(entries, j + 1);
        }
    }
    lemma_entry_is_found(entries, i);
    assert(table_of(after) =~= table_of(entries).remove(key));
    assert(table_of(entries) =~= table_of(after).insert(key, entries[i].1));
}

/// Takes every entry out of the registry: the result holds what it held,
/// and it is left empty.
pub fn take_callbacks<H>(registry: &mut CallbackRegistry<H>) -> (r: CallbackRegistry<H>)
    requires
        old(registry).wf(),
    ensures
        final(registry).wf(),
        r.wf(),
        r@ == old(registry)@,
        final(registry)@ == Map::<Seq<char>, H>::empty(),
{
    registry.take_all()
}

proof fn lemma_table_size<H>(entries: Seq<(String, H)>)
    requires
        distinct_keys(entries),
    ensures
        table_of(entries).dom().finite(),
        table_of(entries).dom().len() == entries.len(),
    decreases entries.len(),
{
    if entries.len() == 0 {
        assert(table_of(entries).dom() =~= Set::<Seq<char>>::empty());
    } else {
        let rest = entries.drop_last();
        let key = entries.last().0@;
        lemma_table_size(rest);
        assert(!has_key(rest, key)) by {
            if has_key(rest, key) {
                let j = place_of(rest, key);
                assert(entries[j].0@ == key);
            }
        }
        assert forall|k: Seq<char>| has_key(entries, k) == (has_key(rest, k) || k == key) by {
            if has_key(rest, k) {
                let j = place_of(rest, k);
                assert(entries[j].0@ == k);
            }
            if k == key {
                assert(entries[entries.len() - 1].0@ == k);
            }
            if has_key(entries, k) {
                let j = place_of(entries, k);
                if j < rest.len() {
                    assert(rest[j].0@ == k);
                }
            }
        }
        assert(table_of(entries).dom() =~= table_of(rest).dom().insert(key));
    }
}

} // verus!
