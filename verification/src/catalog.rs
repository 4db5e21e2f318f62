//! The set of zones served, each held by an authority, keyed by the zone's name.

use vstd::prelude::*;

use crate::name::ZoneName;

verus! {

/// The authority that serves `labels`: the value of the longest suffix of `labels`
/// (the name itself first, then its parents up to the root) that is a key of `zones`.
pub open spec fn nearest_zone<A>(zones: Map<Seq<Seq<u8>>, A>, labels: Seq<Seq<u8>>) -> Option<A>
    decreases labels.len(),
{
    if zones.contains_key(labels) {
        Some(zones[labels])
    } else if labels.len() == 0 {
        None
    } else {
        nearest_zone(zones, labels.drop_first())
    }
}

/// The condition under which a search for `name` comes to an end: a name without labels
/// that is not fully qualified never reaches the root, so its own zone must be present.
pub open spec fn search_ends<A>(zones: Map<Seq<Seq<u8>>, A>, name: (Seq<Seq<u8>>, bool)) -> bool {
    name.0.len() > 0 || name.1 || zones.contains_key(Seq::<Seq<u8>>::empty())
}

/// The map that a sequence of (zone, authority) entries stands for.
pub open spec fn entries_map<A>(entries: Seq<(ZoneName, A)>) -> Map<Seq<Seq<u8>>, A> {
    Map::new(
        |k: Seq<Seq<u8>>| exists|i: int| 0 <= i < entries.len() && (#[trigger] entries[i]).0@.0 == k,
        |k: Seq<Seq<u8>>| entries[choose|i: int| 0 <= i < entries.len() && (#[trigger] entries[i]).0@.0 == k].1,
    )
}

/// No two entries share a zone name.
pub open spec fn keys_distinct<A>(entries: Seq<(ZoneName, A)>) -> bool {
    forall|i: int, j: int|
        0 <= i < entries.len() && 0 <= j < entries.len() && i != j
            ==> (#[trigger] entries[i]).0@.0 != (#[trigger] entries[j]).0@.0
}

/// Set of authorities, zones, available to this server.
pub struct Catalog<A> {
    authorities: Vec<(ZoneName, A)>,
}

impl<A> View for Catalog<A> {
    type V = Map<Seq<Seq<u8>>, A>;

    closed spec fn view(&self) -> Map<Seq<Seq<u8>>, A> {
        entries_map(self.authorities@)
    }
}

proof fn lemma_entry_in_map<A>(entries: Seq<(ZoneName, A)>, i: int)
    requires
        keys_distinct(entries),
        0 <= i < entries.len(),
    ensures
        entries_map(entries).contains_key(entries[i].0@.0),
        entries_map(entries)[entries[i].0@.0] == entries[i].1,
{
    let k = entries[i].0@.0;
    assert(exists|j: int| 0 <= j < entries.len() && (#[trigger] entries[j]).0@.0 == k);
    let c: int = choose|j: int| 0 <= j < entries.len() && (#[trigger] entries[j]).0@.0 == k;
    assert(c == i);
}

proof fn lemma_map_push<A>(entries: Seq<(ZoneName, A)>, e: (ZoneName, A))
    requires
        keys_distinct(entries),
        !entries_map(entries).contains_key(e.0@.0),
    ensures
        keys_distinct(entries.push(e)),
        entries_map(entries.push(e)) =~= entries_map(entries).insert(e.0@.0, e.1),
{
    let s = entries.push(e);
    assert forall|i: int, j: int|
        0 <= i < s.len() && 0 <= j < s.len() && i != j implies (#[trigger] s[i]).0@.0
        != (#[trigger] s[j]).0@.0 by {
        if i < entries.len() && j < entries.len() {
            assert(s[i] == entries[i] && s[j] == entries[j]);
        } else if i < entries.len() {
            assert(s[i] == entries[i]);
            lemma_entry_in_map(entries, i);
        } else {
            assert(s[j] == entries[j]);
            lemma_entry_in_map(entries, j);
        }
    }
    let m = entries_map(entries).insert(e.0@.0, e.1);
    let n = entries_map(s);
    assert forall|k: Seq<Seq<u8>>| #[trigger] n.contains_key(k) <==> m.contains_key(k) by {
        if n.contains_key(k) {
            let i: int = choose|i: int| 0 <= i < s.len() && (#[trigger] s[i]).0@.0 == k;
            if i < entries.len() {
                assert(s[i] == entries[i]);
                lemma_entry_in_map(entries, i);
            }
        }
        if m.contains_key(k) {
            if k == e.0@.0 {
                assert(s[s.len() - 1] == e);
            } else {
                let i: int = choose|i: int| 0 <= i < entries.len() && (#[trigger] entries[i]).0@.0 == k;
                assert(s[i] == entries[i]);
            }
        }
    }
    assert forall|k: Seq<Seq<u8>>| #[trigger] n.contains_key(k) implies n[k] == m[k] by {
        let i: int = choose|i: int| 0 <= i < s.len() && (#[trigger] s[i]).0@.0 == k;
        lemma_entry_in_map(s, i);
        if i < entries.len() {
            assert(s[i] == entries[i]);
            lemma_entry_in_map(entries, i);
        }
    }
}

proof fn lemma_map_swap_remove<A>(entries: Seq<(ZoneName, A)>, i: int)
    requires
        keys_distinct(entries),
        0 <= i < entries.len(),
    ensures
        keys_distinct(entries.update(i, entries.last()).drop_last()),
        entries_map(entries.update(i, entries.last()).drop_last()) =~= entries_map(entries).remove(
            entries[i].0@.0,
        ),
{
    let s = entries.update(i, entries.last()).drop_last();
    let last: int = entries.len() - 1;
    assert forall|a: int| 0 <= a < s.len() implies #[trigger] s[a] == (if a == i {
        entries[last]
    } else {
        entries[a]
    }) by {}
    assert forall|a: int, b: int|
        0 <= a < s.len() && 0 <= b < s.len() && a != b implies (#[trigger] s[a]).0@.0
        != (#[trigger] s[b]).0@.0 by {
        let ea: int = if a == i { last } else { a };
        let eb: int = if b == i { last } else { b };
        assert(s[a] == entries[ea] && s[b] == entries[eb]);
    }
    let k = entries[i].0@.0;
    let m = entries_map(entries).remove(k);
    let n = entries_map(s);
    assert forall|key: Seq<Seq<u8>>| #[trigger] n.contains_key(key) <==> m.contains_key(key) by {
        if n.contains_key(key) {
            let a: int = choose|a: int| 0 <= a < s.len() && (#[trigger] s[a]).0@.0 == key;
            let ea: int = if a == i { last } else { a };
            assert(s[a] == entries[ea]);
            lemma_entry_in_map(entries, ea);
        }
        if m.contains_key(key) {
            let a: int = choose|a: int| 0 <= a < entries.len() && (#[trigger] entries[a]).0@.0 == key;
            assert(a != i);
            if a == last {
                assert(s[i] == entries[last]);
            } else {
                assert(s[a] == entries[a]);
            }
        }
    }
    assert forall|key: Seq<Seq<u8>>| #[trigger] n.contains_key(key) implies n[key] == m[key] by {
        let a: int = choose|a: int| 0 <= a < s.len() && (#[trigger] s[a]).0@.0 == key;
        lemma_entry_in_map(s, a);
        let ea: int = if a == i { last } else { a };
        assert(s[a] == entries[ea]);
        lemma_entry_in_map(entries, ea);
    }
}

impl<A> Catalog<A> {
    /// The entries never repeat a zone name.
    #[verifier::type_invariant]
    spec fn wf(&self) -> bool {
        keys_distinct(self.authorities@)
    }

    /// Constructs a new Catalog
    pub fn new() -> (r: Self)
        ensures
            r@ == Map::<Seq<Seq<u8>>, A>::empty(),
    {
        let r = Catalog { authorities: Vec::new() };
        assert(r@ =~= Map::<Seq<Seq<u8>>, A>::empty());
        r
    }

    /// The position of the entry for `name`, if there is one.
    fn position(&self, name: &ZoneName) -> (r: Option<usize>)
        requires
            self.wf(),
        ensures
            match r {
                Some(i) => i < self.authorities@.len() && self.authorities@[i as int].0@.0
                    == name@.0,
                None => !self@.contains_key(name@.0),
            },
    {
        let mut i: usize = 0;
        while i < self.authorities.len()
            invariant
                i <= self.authorities@.len(),
                forall|j: int| 0 <= j < i ==> (#[trigger] self.authorities@[j]).0@.0 != name@.0,
            decreases self.authorities@.len() - i,
        {
            if self.authorities[i].0.same_labels(name) {
                return Some(i);
            }
            i = i + 1;
        }
        None
    }

    /// Insert or update a zone authority
    ///
    /// * `name` - zone name, e.g. example.com.
    /// * `authority` - the zone data
    ///
    /// A zone already present keeps the name it was first inserted under.
    pub fn upsert(&mut self, name: ZoneName, authority: A)
        ensures
            final(self)@ == old(self)@.insert(name@.0, authority),
    {
        proof {
            use_type_invariant(&*self);
        }
        let position = self.position(&name);
        let mut entries: Vec<(ZoneName, A)> = Vec::new();
        std::mem::swap(&mut entries, &mut self.authorities);
        let ghost before = entries@;
        match position {
            Some(i) => {
                let (zone, _replaced) = entries.swap_remove(i);
                proof {
                    lemma_map_swap_remove(before, i as int);
                }
                let ghost middle = entries@;
                entries.push((zone, authority));
                proof {
                    lemma_map_push(middle, (zone, authority));
                    assert(entries_map(before).remove(name@.0).insert(name@.0, authority)
                        =~= entries_map(before).insert(name@.0, authority));
                }
            },
            None => {
                entries.push((name, authority));
                proof {
                    lemma_map_push(before, entries@.last());
                }
            },
        }
        self.authorities = entries;
    }

    /// Remove a zone from the catalog, handing back its authority.
    pub fn remove(&mut self, name: &ZoneName) -> (r: Option<A>)
        ensures
            final(self)@ == old(self)@.remove(name@.0),
            r == (if old(self)@.contains_key(name@.0) {
                Some(old(self)@[name@.0])
            } else {
                None
            }),
    {
        proof {
            use_type_invariant(&*self);
        }
        match self.position(name) {
            Some(i) => {
                let mut entries: Vec<(ZoneName, A)> = Vec::new();
                std::mem::swap(&mut entries, &mut self.authorities);
                let ghost before = entries@;
                proof {
                    lemma_entry_in_map(before, i as int);
                }
                let (_zone, authority) = entries.swap_remove(i);
                proof {
                    lemma_map_swap_remove(before, i as int);
                }
                self.authorities = entries;
                Some(authority)
            },
            None => {
                assert(self@.remove(name@.0) =~= self@);
                None
            },
        }
    }

    /// Checks whether the `Catalog` holds a zone named exactly `name`.
    ///
    /// Unlike `find`, no parent zone is considered.
    pub fn contains(&self, name: &ZoneName) -> (r: bool)
        ensures
            r == self@.contains_key(name@.0),
    {
        proof {
            use_type_invariant(self);
        }
        match self.position(name) {
            Some(i) => {
                proof {
                    lemma_entry_in_map(self.authorities@, i as int);
                }
                true
            },
            None => false,
        }
    }

    /// The authority of the zone named exactly `name`.
    pub(crate) fn get(&self, name: &ZoneName) -> (r: Option<&A>)
        ensures
            match r {
                Some(a) => self@.contains_key(name@.0) && *a == self@[name@.0],
                None => !self@.contains_key(name@.0),
            },
    {
        proof {
            use_type_invariant(self);
        }
        match self.position(name) {
            Some(i) => {
                proof {
                    lemma_entry_in_map(self.authorities@, i as int);
                }
                Some(&self.authorities[i].1)
            },
            None => None,
        }
    }

    /// Recursively searches the catalog for a matching authority: the zone named `name`,
    /// else that of its parent, and so on up to the root.
    pub fn find(&self, name: &ZoneName) -> (r: Option<&A>)
        requires
            search_ends(self@, name@),
        ensures
            match r {
                Some(a) => nearest_zone(self@, name@.0) == Some(*a),
                None => nearest_zone(self@, name@.0) is None,
            },
        decreases name@.0.len(),
    {
        match self.get(name) {
            Some(a) => Some(a),
            None => {
                if !name.is_root() {
                    assert(name@.0.len() > 0) by {
                        if name@.0.len() == 0 {
                            assert(name@.0 =~= Seq::<Seq<u8>>::empty());
                        }
                    }
                    let base = name.base_name();
                    self.find(&base)
                } else {
                    None
                }
            },
        }
    }
}

impl<A> Default for Catalog<A> {
    fn default() -> (r: Self)
        ensures
            r@ == Map::<Seq<Seq<u8>>, A>::empty(),
    {
        Catalog::new()
    }
}

/// A zone that was just inserted answers for its own name.
pub proof fn law_find_after_upsert<A>(zones: Map<Seq<Seq<u8>>, A>, zone: Seq<Seq<u8>>, authority: A)
    ensures
        nearest_zone(zones.insert(zone, authority), zone) == Some(authority),
{
}

/// A name that is itself a zone is answered by that zone, whatever its parents hold.
pub proof fn law_find_exact_zone<A>(zones: Map<Seq<Seq<u8>>, A>, zone: Seq<Seq<u8>>)
    requires
        zones.contains_key(zone),
    ensures
        nearest_zone(zones, zone) == Some(zones[zone]),
{
}

/// The search answers with the closest enclosing zone: the longest suffix of the name that
/// is a zone; it answers nothing exactly when no suffix (the root included) is a zone.
pub proof fn law_find_closest_enclosing_zone<A>(zones: Map<Seq<Seq<u8>>, A>, labels: Seq<Seq<u8>>)
    ensures
        match nearest_zone(zones, labels) {
            Some(a) => exists|i: int|
                0 <= i <= labels.len() && zones.contains_key(#[trigger] labels.skip(i)) && zones[labels.skip(i)] == a
                    && forall|j: int| 0 <= j < i ==> !zones.contains_key(#[trigger] labels.skip(j)),
            None => forall|i: int| 0 <= i <= labels.len() ==> !zones.contains_key(#[trigger] labels.skip(i)),
        },
    decreases labels.len(),
{
    assert(labels.skip(0) =~= labels);
    if zones.contains_key(labels) {
    } else if labels.len() == 0 {
        assert forall|i: int| 0 <= i <= labels.len() implies !zones.contains_key(#[trigger] labels.skip(i)) by {
            assert(i == 0);
        }
    } else {
        let rest = labels.drop_first();
        law_find_closest_enclosing_zone(zones, rest);
        assert forall|i: int| 0 <= i <= rest.len() implies #[trigger] rest.skip(i) == labels.skip(i + 1) by {
            assert(rest.skip(i) =~= labels.skip(i + 1));
        }
        match nearest_zone(zones, rest) {
            Some(a) => {
                let i: int = choose|i: int|
                    0 <= i <= rest.len() && zones.contains_key(#[trigger] rest.skip(i)) && zones[rest.skip(i)] == a
                        && forall|j: int| 0 <= j < i ==> !zones.contains_key(#[trigger] rest.skip(j));
                assert(rest.skip(i) == labels.skip(i + 1));
                assert forall|j: int| 0 <= j < i + 1 implies !zones.contains_key(#[trigger] labels.skip(j)) by {
                    if j > 0 {
                        assert(rest.skip(j - 1) == labels.skip(j));
                    }
                }
            },
            None => {
                assert forall|i: int| 0 <= i <= labels.len() implies !zones.contains_key(#[trigger] labels.skip(i)) by {
                    if i > 0 {
                        assert(rest.skip(i - 1) == labels.skip(i));
                    }
                }
            },
        }
    }
}

/// Every name inside a served zone is answered by some zone (that zone or a closer one).
pub proof fn law_names_under_a_zone_are_served<A>(
    zones: Map<Seq<Seq<u8>>, A>,
    prefix: Seq<Seq<u8>>,
    zone: Seq<Seq<u8>>,
)
    requires
        zones.contains_key(zone),
    ensures
        nearest_zone(zones, prefix + zone) is Some,
{
    let labels = prefix + zone;
    law_find_closest_enclosing_zone(zones, labels);
    assert(labels.skip(prefix.len() as int) =~= zone);
    if nearest_zone(zones, labels) is None {
        assert(!zones.contains_key(labels.skip(prefix.len() as int)));
    }
}

/// Inserting a zone that is not a suffix of a name leaves the search for that name as it was.
pub proof fn law_upsert_elsewhere_keeps_search<A>(
    zones: Map<Seq<Seq<u8>>, A>,
    labels: Seq<Seq<u8>>,
    zone: Seq<Seq<u8>>,
    authority: A,
)
    requires
        forall|i: int| 0 <= i <= labels.len() ==> #[trigger] labels.skip(i) != zone,
    ensures
        nearest_zone(zones.insert(zone, authority), labels) == nearest_zone(zones, labels),
    decreases labels.len(),
{
    assert(labels.skip(0) =~= labels);
    if labels.len() > 0 {
        let rest = labels.drop_first();
        assert forall|i: int| 0 <= i <= rest.len() implies #[trigger] rest.skip(i) != zone by {
            assert(rest.skip(i) =~= labels.skip(i + 1));
        }
        law_upsert_elsewhere_keeps_search(zones, rest, zone, authority);
    }
}

/// Removing a zone that was just inserted under a new name restores the catalog.
pub proof fn law_remove_undoes_upsert<A>(zones: Map<Seq<Seq<u8>>, A>, zone: Seq<Seq<u8>>, authority: A)
    requires
        !zones.contains_key(zone),
    ensures
        zones.insert(zone, authority).remove(zone) == zones,
{
    assert(zones.insert(zone, authority).remove(zone) =~= zones);
}

/// Upserting a zone twice keeps only the second authority.
pub proof fn law_upsert_replaces<A>(zones: Map<Seq<Seq<u8>>, A>, zone: Seq<Seq<u8>>, first: A, second: A)
    ensures
        zones.insert(zone, first).insert(zone, second) == zones.insert(zone, second),
{
    assert(zones.insert(zone, first).insert(zone, second) =~= zones.insert(zone, second));
}

} // verus!
