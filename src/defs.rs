//! Tables of definitions keyed by object id, where a prompter decides on redefinitions.
use vstd::prelude::*;

use crate::command::ObjId;

verus! {

/// Decides what happens when an object id is defined again.
#[derive(Debug, Clone, Copy, PartialEq, Eq, Hash, Structural)]
pub enum Prompter {
    /// The newer definition replaces the older one silently.
    AlwaysUseNewer,
    /// The older definition stays, silently.
    AlwaysUseOlder,
    /// The newer definition replaces the older one, and a warning is recorded.
    AlwaysWarn,
}

/// The map after defining `id` as `v` under `p`.
pub open spec fn spec_define<V>(m: Map<ObjId, V>, id: ObjId, v: V, p: Prompter) -> Map<ObjId, V> {
    if m.contains_key(id) && p == Prompter::AlwaysUseOlder {
        m
    } else {
        m.insert(id, v)
    }
}

/// Whether defining `id` in `m` under `p` is reported.
pub open spec fn spec_define_warns<V>(m: Map<ObjId, V>, id: ObjId, p: Prompter) -> bool {
    m.contains_key(id) && p == Prompter::AlwaysWarn
}

/// The map of a sequence of entries, later entries winning.
pub open spec fn map_of<V>(s: Seq<(ObjId, V)>) -> Map<ObjId, V>
    decreases s.len(),
{
    if s.len() == 0 {
        Map::empty()
    } else {
        map_of(s.drop_last()).insert(s.last().0, s.last().1)
    }
}

/// Whether the keys of the entries are distinct.
pub open spec fn unique_keys<V>(s: Seq<(ObjId, V)>) -> bool {
    forall|i: int, j: int| 0 <= i < j < s.len() ==> s[i].0 != s[j].0
}

proof fn lemma_map_of_dom<V>(s: Seq<(ObjId, V)>)
    requires
        unique_keys(s),
    ensures
        map_of(s).dom().finite(),
        map_of(s).dom().len() == s.len(),
        forall|k: ObjId| map_of(s).contains_key(k) <==> exists|i: int| 0 <= i < s.len() && s[i].0 == k,
        forall|i: int| 0 <= i < s.len() ==> #[trigger] map_of(s)[s[i].0] == s[i].1,
    decreases s.len(),
{
    if s.len() > 0 {
        let t = s.drop_last();
        assert(unique_keys(t));
        lemma_map_of_dom(t);
        let last = s.last();
        assert(!map_of(t).contains_key(last.0)) by {
            if map_of(t).contains_key(last.0) {
                let i = choose|i: int| 0 <= i < t.len() && t[i].0 == last.0;
                assert(s[i].0 == s[s.len() - 1].0);
            }
        }
        assert forall|k: ObjId| map_of(s).contains_key(k) <==> exists|i: int|
            0 <= i < s.len() && s[i].0 == k by {
            if map_of(s).contains_key(k) && k != last.0 {
                let i = choose|i: int| 0 <= i < t.len() && t[i].0 == k;
                assert(s[i] == t[i]);
            }
            if exists|i: int| 0 <= i < s.len() && s[i].0 == k {
                let i = choose|i: int| 0 <= i < s.len() && s[i].0 == k;
                if i < s.len() - 1 {
                    assert(t[i] == s[i]);
                }
            }
        }
        assert forall|i: int| 0 <= i < s.len() implies #[trigger] map_of(s)[s[i].0] == s[i].1 by {
            if i < s.len() - 1 {
                assert(t[i] == s[i]);
                assert(s[i].0 != last.0);
            }
        }
    }
}

proof fn lemma_map_of_update<V>(s: Seq<(ObjId, V)>, k: int, v: V)
    requires
        unique_keys(s),
        0 <= k < s.len(),
    ensures
        unique_keys(s.update(k, (s[k].0, v))),
        map_of(s.update(k, (s[k].0, v))) == map_of(s).insert(s[k].0, v),
{
    let u = s.update(k, (s[k].0, v));
    assert(unique_keys(u)) by {
        assert forall|i: int, j: int| 0 <= i < j < u.len() implies u[i].0 != u[j].0 by {
            assert(u[i].0 == s[i].0 && u[j].0 == s[j].0);
        }
    }
    lemma_map_of_dom(s);
    lemma_map_of_dom(u);
    assert(map_of(u) =~= map_of(s).insert(s[k].0, v)) by {
        assert forall|key: ObjId| map_of(u).contains_key(key) <==> map_of(s).insert(s[k].0, v).contains_key(
            key,
        ) by {
            if map_of(u).contains_key(key) {
                let i = choose|i: int| 0 <= i < u.len() && u[i].0 == key;
                assert(s[i].0 == key);
            }
            if map_of(s).contains_key(key) {
                let i = choose|i: int| 0 <= i < s.len() && s[i].0 == key;
                assert(u[i].0 == key);
            }
            if key == s[k].0 {
                assert(u[k].0 == key);
            }
        }
        assert forall|key: ObjId| #[trigger] map_of(u).contains_key(key) implies map_of(u)[key]
            == map_of(s).insert(s[k].0, v)[key] by {
            let i = choose|i: int| 0 <= i < u.len() && u[i].0 == key;
            assert(map_of(u)[u[i].0] == u[i].1);
            if i != k {
                assert(map_of(s)[s[i].0] == s[i].1);
            }
        }
    }
}

/// A table of definitions: at most one value for each object id.
#[derive(Debug, Clone, PartialEq, Eq, Hash)]
pub struct Defs<V> {
    entries: Vec<(ObjId, V)>,
}

impl<V: Copy> Defs<V> {
    /// The definitions, as a map.
    pub closed spec fn map(&self) -> Map<ObjId, V> {
        map_of(self.entries@)
    }

    pub closed spec fn wf(&self) -> bool {
        unique_keys(self.entries@)
    }

    /// An empty table.
    pub fn new() -> (r: Defs<V>)
        ensures
            r.wf(),
            r.map() == Map::<ObjId, V>::empty(),
    {
        Defs { entries: Vec::new() }
    }

    /// The number of ids defined.
    pub fn len(&self) -> (r: usize)
        requires
            self.wf(),
        ensures
            r == self.map().dom().len(),
    {
        proof {
            lemma_map_of_dom(self.entries@);
        }
        self.entries.len()
    }

    fn find(&self, id: ObjId) -> (r: Option<usize>)
        requires
            self.wf(),
        ensures
            match r {
                Some(k) => k < self.entries@.len() && self.entries@[k as int].0 == id,
                None => !self.map().contains_key(id),
            },
    {
        proof {
            lemma_map_of_dom(self.entries@);
        }
        let mut i: usize = 0;
        while i < self.entries.len()
            invariant
                i <= self.entries@.len(),
                forall|j: int| 0 <= j < i ==> self.entries@[j].0 != id,
            decreases self.entries@.len() - i,
        {
            if self.entries[i].0 == id {
                return Some(i);
            }
            i += 1;
        }
        None
    }

    /// The value defined for `id`, if any.
    pub fn get(&self, id: ObjId) -> (r: Option<V>)
        requires
            self.wf(),
        ensures
            r == if self.map().contains_key(id) {
                Some(self.map()[id])
            } else {
                None::<V>
            },
    {
        proof {
            lemma_map_of_dom(self.entries@);
        }
        match self.find(id) {
            Some(k) => Some(self.entries[k].1),
            None => None,
        }
    }

    /// Whether `id` is defined.
    pub fn contains_key(&self, id: ObjId) -> (r: bool)
        requires
            self.wf(),
        ensures
            r == self.map().contains_key(id),
    {
        proof {
            lemma_map_of_dom(self.entries@);
        }
        self.find(id).is_some()
    }

    /// The ids and values, in the order the ids were first defined.
    pub fn entries(&self) -> (r: &Vec<(ObjId, V)>)
        ensures
            map_of(r@) == self.map(),
    {
        &self.entries
    }

    /// Defines `id` as `v`, as `prompter` decides on a redefinition; returns whether the
    /// redefinition is reported.
    pub fn define(&mut self, id: ObjId, v: V, prompter: Prompter) -> (r: bool)
        requires
            old(self).wf(),
        ensures
            final(self).wf(),
            final(self).map() == spec_define(old(self).map(), id, v, prompter),
            r == spec_define_warns(old(self).map(), id, prompter),
    {
        proof {
            lemma_map_of_dom(self.entries@);
        }
        match self.find(id) {
            Some(k) => {
                proof {
                    assert(self.map().contains_key(id));
                }
                match prompter {
                    Prompter::AlwaysUseOlder => false,
                    _ => {
                        proof {
                            lemma_map_of_update(self.entries@, k as int, v);
                        }
                        self.entries.set(k, (id, v));
                        match prompter {
                            Prompter::AlwaysWarn => true,
                            _ => false,
                        }
                    },
                }
            },
            None => {
                let ghost s = self.entries@;
                self.entries.push((id, v));
                proof {
                    assert(self.entries@.drop_last() =~= s);
                    assert(unique_keys(self.entries@)) by {
                        assert forall|i: int, j: int| 0 <= i < j < self.entries@.len() implies self.entries@[i].0
                            != self.entries@[j].0 by {
                            if j == s.len() {
                                assert(self.entries@[i] == s[i]);
                                assert(map_of(s).contains_key(s[i].0));
                            } else {
                                assert(self.entries@[i] == s[i] && self.entries@[j] == s[j]);
                            }
                        }
                    }
                }
                false
            },
        }
    }
}

} // verus!
