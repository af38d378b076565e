//! A name-keyed registry.
//!
//! Both registries of the audio system (decoded sounds and live playback
//! handles) are instances of this structure: an association vector with
//! pairwise-distinct keys, specified as a finite map from the name's
//! character sequence to the stored value's view.  Insertion order carries no
//! meaning; every contract speaks of the map alone.

use crate::playback::PlaybackHandle;
use vstd::prelude::*;

verus! {

/// A registry of named values.
pub struct Registry<V> {
    entries: Vec<(String, V)>,
}

/// Whether an association sequence holds pairwise-distinct keys.
pub open spec fn unique_keys<V>(s: Seq<(String, V)>) -> bool {
    forall|i: int, j: int|
        0 <= i < j < s.len() ==> (#[trigger] s[i].0@) != (#[trigger] s[j].0@)
}

/// The map denoted by an association sequence; a later entry for a key
/// shadows an earlier one (a well-formed registry has no such shadowing).
pub open spec fn entries_map<V: View>(s: Seq<(String, V)>) -> Map<Seq<char>, V::V>
    decreases s.len(),
{
    if s.len() == 0 {
        Map::empty()
    } else {
        entries_map(s.drop_last()).insert(s.last().0@, s.last().1@)
    }
}

/// Distinct keys survive dropping the last entry.
proof fn lemma_unique_keys_drop_last<V>(s: Seq<(String, V)>)
    requires
        unique_keys(s),
        s.len() > 0,
    ensures
        unique_keys(s.drop_last()),
{
    assert forall|p: int, q: int|
        0 <= p < q < s.drop_last().len() implies (#[trigger] s.drop_last()[p].0@)
        != (#[trigger] s.drop_last()[q].0@) by {
        assert(s[p].0@ != s[q].0@);
    }
}

/// A key lies in the denoted map exactly when some entry carries it.
proof fn lemma_entries_map_dom<V: View>(s: Seq<(String, V)>, k: Seq<char>)
    ensures
        entries_map(s).dom().contains(k) <==> exists|i: int|
            0 <= i < s.len() && (#[trigger] s[i].0@) == k,
    decreases s.len(),
{
    if s.len() > 0 {
        lemma_entries_map_dom(s.drop_last(), k);
        if entries_map(s).dom().contains(k) {
            if s.last().0@ == k {
                assert(s[s.len() - 1].0@ == k);
            } else {
                let i = choose|i: int| 0 <= i < s.drop_last().len() && (#[trigger] s.drop_last()[
                    i].0@) == k;
                assert(s[i].0@ == k);
            }
        }
        if exists|i: int| 0 <= i < s.len() && (#[trigger] s[i].0@) == k {
            let i = choose|i: int| 0 <= i < s.len() && (#[trigger] s[i].0@) == k;
            if i < s.len() - 1 {
                assert(s.drop_last()[i].0@ == k);
            }
        }
    }
}

/// Under distinct keys, the denoted map sends each entry's key to that
/// entry's value.
proof fn lemma_entries_map_at<V: View>(s: Seq<(String, V)>, i: int)
    requires
        unique_keys(s),
        0 <= i < s.len(),
    ensures
        entries_map(s).dom().contains(s[i].0@),
        entries_map(s)[s[i].0@] == s[i].1@,
    decreases s.len(),
{
    if i == s.len() - 1 {
    } else {
        lemma_unique_keys_drop_last(s);
        assert(s.drop_last()[i] == s[i]);
        lemma_entries_map_at(s.drop_last(), i);
        assert(s[i].0@ != s.last().0@);
    }
}

/// Replacing the entry at `i` by one with the same key denotes the same map
/// with that key re-bound.
proof fn lemma_entries_map_update<V: View>(s: Seq<(String, V)>, i: int, e: (String, V))
    requires
        unique_keys(s),
        0 <= i < s.len(),
        e.0@ == s[i].0@,
    ensures
        entries_map(s.update(i, e)) =~= entries_map(s).insert(e.0@, e.1@),
    decreases s.len(),
{
    let s2 = s.update(i, e);
    if i == s.len() - 1 {
        assert(s2.drop_last() =~= s.drop_last());
        assert(s2.last() == e);
    } else {
        lemma_unique_keys_drop_last(s);
        assert(s.drop_last()[i] == s[i]);
        lemma_entries_map_update(s.drop_last(), i, e);
        assert(s2.drop_last() =~= s.drop_last().update(i, e));
        assert(s2.last() == s.last());
        assert(e.0@ != s.last().0@);
    }
}

/// Under distinct keys, the denoted map has exactly one binding per entry.
proof fn lemma_entries_map_card<V: View>(s: Seq<(String, V)>)
    requires
        unique_keys(s),
    ensures
        entries_map(s).dom().finite(),
        entries_map(s).dom().len() == s.len(),
    decreases s.len(),
{
    if s.len() > 0 {
        lemma_unique_keys_drop_last(s);
        lemma_entries_map_card(s.drop_last());
        lemma_entries_map_dom(s.drop_last(), s.last().0@);
        assert forall|i: int|
            0 <= i < s.drop_last().len() implies (#[trigger] s.drop_last()[i].0@)
            != s.last().0@ by {
            assert(s[i].0@ != s[s.len() - 1].0@);
        }
        assert(!entries_map(s.drop_last()).dom().contains(s.last().0@));
        assert(entries_map(s).dom() =~= entries_map(s.drop_last()).dom().insert(s.last().0@));
    }
}

impl<V: View> Registry<V> {
    /// The finite map this registry denotes.
    pub closed spec fn as_map(self) -> Map<Seq<char>, V::V> {
        entries_map(self.entries@)
    }

    /// Validity: no two entries carry the same key.
    pub closed spec fn wf(self) -> bool {
        unique_keys(self.entries@)
    }

    /// An empty registry.
    pub fn new() -> (r: Registry<V>)
        ensures
            r.wf(),
            r.as_map() == Map::<Seq<char>, V::V>::empty(),
    {
        Registry { entries: Vec::new() }
    }

    /// The index of the entry carrying `name`, if any.
    fn position(&self, name: &str) -> (r: Option<usize>)
        ensures
            r matches Some(i) ==> i < self.entries@.len() && self.entries@[i as int].0@ == name@,
            r is None ==> forall|j: int|
                0 <= j < self.entries@.len() ==> (#[trigger] self.entries@[j].0@) != name@,
    {
        let key: String = name.to_owned();
        let n: usize = self.entries.len();
        let mut i: usize = 0;
        while i < n
            invariant
                n == self.entries@.len(),
                i <= n,
                key@ == name@,
                forall|j: int| 0 <= j < i ==> (#[trigger] self.entries@[j].0@) != name@,
            decreases n - i,
        {
            if self.entries[i].0 == key {
                return Some(i);
            }
            i = i + 1;
        }
        None
    }

    /// Whether some entry carries `name`.
    pub fn contains(&self, name: &str) -> (b: bool)
        requires
            self.wf(),
        ensures
            b == self.as_map().dom().contains(name@),
    {
        proof {
            lemma_entries_map_dom(self.entries@, name@);
        }
        match self.position(name) {
            Some(i) => {
                proof {
                    lemma_entries_map_at(self.entries@, i as int);
                }
                true
            },
            None => false,
        }
    }

    /// The value stored under `name`, if any.
    pub fn get(&self, name: &str) -> (r: Option<&V>)
        requires
            self.wf(),
        ensures
            r is Some <==> self.as_map().dom().contains(name@),
            r matches Some(v) ==> v@ == self.as_map()[name@],
    {
        proof {
            lemma_entries_map_dom(self.entries@, name@);
        }
        match self.position(name) {
            Some(i) => {
                proof {
                    lemma_entries_map_at(self.entries@, i as int);
                }
                Some(&self.entries[i].1)
            },
            None => None,
        }
    }

    /// Binds `name` to `value`, replacing any earlier binding.
    pub fn insert(&mut self, name: &str, value: V)
        requires
            old(self).wf(),
        ensures
            final(self).wf(),
            final(self).as_map() == old(self).as_map().insert(name@, value@),
    {
        let key: String = name.to_owned();
        match self.position(name) {
            Some(i) => {
                let ghost s0 = self.entries@;
                let pair = (key, value);
                vstd::pervasive::VecAdditionalExecFns::set(&mut self.entries, i, pair);
                proof {
                    lemma_entries_map_update(s0, i as int, pair);
                    assert forall|p: int, q: int|
                        0 <= p < q < self.entries@.len() implies (#[trigger] self.entries@[p].0@)
                        != (#[trigger] self.entries@[q].0@) by {
                        assert(s0[p].0@ == self.entries@[p].0@ || p == i);
                        assert(s0[q].0@ == self.entries@[q].0@ || q == i);
                        assert(s0[p].0@ != s0[q].0@);
                    }
                }
            },
            None => {
                let ghost s0 = self.entries@;
                let pair = (key, value);
                self.entries.push(pair);
                proof {
                    assert(self.entries@.drop_last() =~= s0);
                    assert(self.entries@.last() == pair);
                    assert forall|p: int, q: int|
                        0 <= p < q < self.entries@.len() implies (#[trigger] self.entries@[p].0@)
                        != (#[trigger] self.entries@[q].0@) by {
                        if q < s0.len() {
                            assert(s0[p].0@ != s0[q].0@);
                        } else {
                            assert(s0[p].0@ != name@);
                        }
                    }
                }
            },
        }
    }

    /// The number of names bound.
    pub fn len(&self) -> (n: usize)
        requires
            self.wf(),
        ensures
            n == self.as_map().dom().len(),
            self.as_map().dom().finite(),
    {
        proof {
            lemma_entries_map_card(self.entries@);
        }
        self.entries.len()
    }
}

/// Re-keying nothing and transforming every value pointwise transforms the
/// denoted map pointwise.
proof fn lemma_entries_map_pointwise(
    s1: Seq<(String, PlaybackHandle)>,
    s2: Seq<(String, PlaybackHandle)>,
    f: spec_fn(PlaybackHandle) -> PlaybackHandle,
)
    requires
        s1.len() == s2.len(),
        forall|j: int|
            0 <= j < s1.len() ==> (#[trigger] s2[j].0@) == s1[j].0@ && s2[j].1 == f(s1[j].1),
    ensures
        entries_map(s2).dom() =~= entries_map(s1).dom(),
        forall|k: Seq<char>|
            entries_map(s1).dom().contains(k) ==> #[trigger] entries_map(s2)[k] == f(
                entries_map(s1)[k],
            ),
    decreases s1.len(),
{
    if s1.len() > 0 {
        assert forall|j: int|
            0 <= j < s1.drop_last().len() implies (#[trigger] s2.drop_last()[j].0@)
            == s1.drop_last()[j].0@ && s2.drop_last()[j].1 == f(s1.drop_last()[j].1) by {
            assert(s2[j].0@ == s1[j].0@ && s2[j].1 == f(s1[j].1));
        }
        lemma_entries_map_pointwise(s1.drop_last(), s2.drop_last(), f);
        assert(s2.last().0@ == s1.last().0@ && s2.last().1 == f(s1.last().1));
        assert forall|k: Seq<char>|
            entries_map(s1).dom().contains(k) implies #[trigger] entries_map(s2)[k] == f(
            entries_map(s1)[k],
        ) by {
            if k != s1.last().0@ {
                assert(entries_map(s1.drop_last()).dom().contains(k));
                assert(entries_map(s2)[k] == entries_map(s2.drop_last())[k]);
                assert(entries_map(s1)[k] == entries_map(s1.drop_last())[k]);
            }
        }
    }
}

impl Registry<PlaybackHandle> {
    /// Pauses every handle.  A benign no-op on an empty registry.
    pub fn pause_all(&mut self)
        requires
            old(self).wf(),
        ensures
            final(self).wf(),
            final(self).as_map().dom() == old(self).as_map().dom(),
            forall|k: Seq<char>|
                old(self).as_map().dom().contains(k) ==> #[trigger] final(self).as_map()[k] == old(
                    self,
                ).as_map()[k].pause_spec(),
    {
        let ghost s0 = self.entries@;
        let n: usize = self.entries.len();
        let mut i: usize = 0;
        while i < n
            invariant
                unique_keys(s0),
                n == self.entries@.len(),
                i <= n,
                s0.len() == n,
                forall|j: int| 0 <= j < n ==> (#[trigger] self.entries@[j].0@) == s0[j].0@,
                forall|j: int| i <= j < n ==> (#[trigger] self.entries@[j].1) == s0[j].1,
                forall|j: int| 0 <= j < i ==> (#[trigger] self.entries@[j].1) == s0[j].1.pause_spec(),
            decreases n - i,
        {
            let key: String = self.entries[i].0.clone();
            let mut h: PlaybackHandle = self.entries[i].1;
            h.pause();
            vstd::pervasive::VecAdditionalExecFns::set(&mut self.entries, i, (key, h));
            i = i + 1;
        }
        proof {
            self.finish_all(s0, |h: PlaybackHandle| h.pause_spec());
        }
    }

    /// Resumes every handle.  A benign no-op on an empty registry.
    pub fn resume_all(&mut self)
        requires
            old(self).wf(),
        ensures
            final(self).wf(),
            final(self).as_map().dom() == old(self).as_map().dom(),
            forall|k: Seq<char>|
                old(self).as_map().dom().contains(k) ==> #[trigger] final(self).as_map()[k] == old(
                    self,
                ).as_map()[k].resume_spec(),
    {
        let ghost s0 = self.entries@;
        let n: usize = self.entries.len();
        let mut i: usize = 0;
        while i < n
            invariant
                unique_keys(s0),
                n == self.entries@.len(),
                i <= n,
                s0.len() == n,
                forall|j: int| 0 <= j < n ==> (#[trigger] self.entries@[j].0@) == s0[j].0@,
                forall|j: int| i <= j < n ==> (#[trigger] self.entries@[j].1) == s0[j].1,
                forall|j: int|
                    0 <= j < i ==> (#[trigger] self.entries@[j].1) == s0[j].1.resume_spec(),
            decreases n - i,
        {
            let key: String = self.entries[i].0.clone();
            let mut h: PlaybackHandle = self.entries[i].1;
            h.resume();
            vstd::pervasive::VecAdditionalExecFns::set(&mut self.entries, i, (key, h));
            i = i + 1;
        }
        proof {
            self.finish_all(s0, |h: PlaybackHandle| h.resume_spec());
        }
    }

    /// Stops every handle and flushes its queue.  A benign no-op on an empty
    /// registry.
    pub fn stop_all(&mut self)
        requires
            old(self).wf(),
        ensures
            final(self).wf(),
            final(self).as_map().dom() == old(self).as_map().dom(),
            forall|k: Seq<char>|
                old(self).as_map().dom().contains(k) ==> #[trigger] final(self).as_map()[k] == old(
                    self,
                ).as_map()[k].stop_spec(),
    {
        let ghost s0 = self.entries@;
        let n: usize = self.entries.len();
        let mut i: usize = 0;
        while i < n
            invariant
                unique_keys(s0),
                n == self.entries@.len(),
                i <= n,
                s0.len() == n,
                forall|j: int| 0 <= j < n ==> (#[trigger] self.entries@[j].0@) == s0[j].0@,
                forall|j: int| i <= j < n ==> (#[trigger] self.entries@[j].1) == s0[j].1,
                forall|j: int| 0 <= j < i ==> (#[trigger] self.entries@[j].1) == s0[j].1.stop_spec(),
            decreases n - i,
        {
            let key: String = self.entries[i].0.clone();
            let mut h: PlaybackHandle = self.entries[i].1;
            h.stop();
            vstd::pervasive::VecAdditionalExecFns::set(&mut self.entries, i, (key, h));
            i = i + 1;
        }
        proof {
            self.finish_all(s0, |h: PlaybackHandle| h.stop_spec());
        }
    }

    /// Re-binds every handle's volume to `volume`, assumed already validated
    /// by the caller.
    pub fn set_volume_all(&mut self, volume: i64)
        requires
            old(self).wf(),
            crate::playback::valid_volume(volume as int),
        ensures
            final(self).wf(),
            final(self).as_map().dom() == old(self).as_map().dom(),
            forall|k: Seq<char>|
                old(self).as_map().dom().contains(k) ==> #[trigger] final(self).as_map()[k] == old(
                    self,
                ).as_map()[k].with_volume_spec(volume),
    {
        let ghost s0 = self.entries@;
        let n: usize = self.entries.len();
        let mut i: usize = 0;
        while i < n
            invariant
                unique_keys(s0),
                crate::playback::valid_volume(volume as int),
                n == self.entries@.len(),
                i <= n,
                s0.len() == n,
                forall|j: int| 0 <= j < n ==> (#[trigger] self.entries@[j].0@) == s0[j].0@,
                forall|j: int| i <= j < n ==> (#[trigger] self.entries@[j].1) == s0[j].1,
                forall|j: int|
                    0 <= j < i ==> (#[trigger] self.entries@[j].1) == s0[j].1.with_volume_spec(
                        volume,
                    ),
            decreases n - i,
        {
            let key: String = self.entries[i].0.clone();
            let mut h: PlaybackHandle = self.entries[i].1;
            let r = h.set_volume(volume);
            vstd::pervasive::VecAdditionalExecFns::set(&mut self.entries, i, (key, h));
            i = i + 1;
        }
        proof {
            self.finish_all(s0, |h: PlaybackHandle| h.with_volume_spec(volume));
        }
    }

    /// Discharges the pointwise map facts shared by the bulk operations.
    proof fn finish_all(
        &self,
        s0: Seq<(String, PlaybackHandle)>,
        f: spec_fn(PlaybackHandle) -> PlaybackHandle,
    )
        requires
            unique_keys(s0),
            s0.len() == self.entries@.len(),
            forall|j: int| 0 <= j < s0.len() ==> (#[trigger] self.entries@[j].0@) == s0[j].0@,
            forall|j: int| 0 <= j < s0.len() ==> (#[trigger] self.entries@[j].1) == f(s0[j].1),
        ensures
            self.wf(),
            self.as_map().dom() =~= entries_map(s0).dom(),
            forall|k: Seq<char>|
                entries_map(s0).dom().contains(k) ==> #[trigger] self.as_map()[k] == f(
                    entries_map(s0)[k],
                ),
    {
        assert forall|p: int, q: int|
            0 <= p < q < self.entries@.len() implies (#[trigger] self.entries@[p].0@)
            != (#[trigger] self.entries@[q].0@) by {
            assert(s0[p].0@ != s0[q].0@);
        }
        lemma_entries_map_pointwise(s0, self.entries@, f);
    }
}

} // verus!
