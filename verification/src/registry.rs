use vstd::prelude::*;

use indexmap::IndexMap;
use std::cmp::Ordering;

use crate::guide::{guide_of, listed_before, text_le, text_le_exec, Guide, IdCounter};
use crate::text::{chars_of, lowercase_text, to_lowercase};

verus! {

#[verifier::external_type_specification]
#[verifier::external_body]
#[verifier::reject_recursive_types(K)]
#[verifier::reject_recursive_types(V)]
#[verifier::reject_recursive_types(S)]
pub struct ExIndexMap<K, V, S>(IndexMap<K, V, S>);

/// The key-value pairs of a map of guides, in the map's order.
pub uninterp spec fn guide_entries(m: IndexMap<u32, Guide>) -> Seq<(u32, Guide)>;

/// Whether some pair of `s` has the key `id`.
pub open spec fn has_key(s: Seq<(u32, Guide)>, id: u32) -> bool {
    exists|k: int| 0 <= k < s.len() && #[trigger] s[k].0 == id
}

/// Whether no two pairs of `s` share a key.
pub open spec fn keys_distinct(s: Seq<(u32, Guide)>) -> bool {
    forall|k: int, l: int| 0 <= k < l < s.len() ==> #[trigger] s[k].0 != #[trigger] s[l].0
}

/// Whether no key occurs in both `a` and `b`.
pub open spec fn keys_disjoint(a: Seq<(u32, Guide)>, b: Seq<(u32, Guide)>) -> bool {
    forall|k: int, l: int| 0 <= k < a.len() && 0 <= l < b.len() ==> #[trigger] a[k].0 != #[trigger] b[l].0
}

/// The text by which guides are sorted: the name in lower case.
pub open spec fn name_key(g: Guide) -> Seq<char> {
    lowercase_text(g.name@)
}

/// Whether the pairs of `s` come in the order of their guides' names.
pub open spec fn sorted_by_name(s: Seq<(u32, Guide)>) -> bool {
    forall|k: int, l: int| 0 <= k < l < s.len() ==> text_le(name_key(#[trigger] s[k].1), name_key(#[trigger] s[l].1))
}

/// `IndexMap::new`: a map with no pairs.
#[verifier::external_body]
fn new_guide_map() -> (r: IndexMap<u32, Guide>)
    ensures
        guide_entries(r) == Seq::<(u32, Guide)>::empty(),
{
    IndexMap::new()
}

/// `IndexMap::insert`: a new key goes last with its guide and nothing is
/// given back; a key that is there keeps its place, takes the new guide, and
/// the guide it had is given back.
#[verifier::external_body]
fn insert_guide(m: &mut IndexMap<u32, Guide>, id: u32, guide: Guide) -> (r: Option<Guide>)
    ensures
        !has_key(guide_entries(*old(m)), id) ==> guide_entries(*final(m)) == guide_entries(*old(m)).push((id, guide))
            && r is None,
        forall|k: int|
            0 <= k < guide_entries(*old(m)).len() && keys_distinct(guide_entries(*old(m)))
                && #[trigger] guide_entries(*old(m))[k].0 == id ==> guide_entries(*final(m)) == guide_entries(
                *old(m),
            ).update(k, (id, guide)) && r == Some(guide_entries(*old(m))[k].1),
{
    m.insert(id, guide)
}

/// The order of two guides by their names in lower case.
fn guide_name_order(a: &Guide, b: &Guide) -> (r: Ordering)
    ensures
        r == Ordering::Less <==> text_le(name_key(*a), name_key(*b)) && !text_le(name_key(*b), name_key(*a)),
        r == Ordering::Greater <==> text_le(name_key(*b), name_key(*a)) && !text_le(name_key(*a), name_key(*b)),
        r == Ordering::Equal <==> text_le(name_key(*a), name_key(*b)) && text_le(name_key(*b), name_key(*a)),
{
    let ka = chars_of(to_lowercase(a.name.as_str()).as_str());
    let kb = chars_of(to_lowercase(b.name.as_str()).as_str());
    let ab = text_le_exec(&ka, &kb);
    let ba = text_le_exec(&kb, &ka);
    if ab && ba {
        Ordering::Equal
    } else if ab {
        Ordering::Less
    } else if ba {
        Ordering::Greater
    } else {
        proof {
            crate::guide::lemma_text_le_total(ka@, kb@);
        }
        Ordering::Equal
    }
}

/// `IndexMap::sort_unstable_by`, comparing the guides by `guide_name_order`:
/// the same pairs come out, ordered by name; pairs whose names are equal in
/// lower case may come in either order.
#[verifier::external_body]
fn sort_guides_by_name(m: &mut IndexMap<u32, Guide>)
    ensures
        guide_entries(*final(m)).to_multiset() == guide_entries(*old(m)).to_multiset(),
        sorted_by_name(guide_entries(*final(m))),
{
    m.sort_unstable_by(|_, a, _, b| guide_name_order(a, b))
}

/// `IndexMap::append`: `other` is left empty; where no key of `other` is in
/// `m`, its pairs follow those of `m` in their order.
#[verifier::external_body]
fn append_guides(m: &mut IndexMap<u32, Guide>, other: &mut IndexMap<u32, Guide>)
    ensures
        guide_entries(*final(other)) == Seq::<(u32, Guide)>::empty(),
        keys_disjoint(guide_entries(*old(m)), guide_entries(*old(other))) ==> guide_entries(*final(m))
            == guide_entries(*old(m)) + guide_entries(*old(other)),
{
    m.append(other)
}

/// `IndexMap::len`: the number of pairs.
#[verifier::external_body]
fn guide_count(m: &IndexMap<u32, Guide>) -> (r: usize)
    ensures
        r == guide_entries(*m).len(),
{
    m.len()
}

/// `IndexMap::get_index`: the pair at place `i`, if there is one.
#[verifier::external_body]
fn guide_at(m: &IndexMap<u32, Guide>, i: usize) -> (r: Option<(u32, Guide)>)
    ensures
        i < guide_entries(*m).len() ==> r == Some(guide_entries(*m)[i as int]),
        i >= guide_entries(*m).len() ==> r is None,
{
    m.get_index(i).map(|(k, v)| (*k, v.clone()))
}

/// Whether every pair of `s` is a guide id with its guide, all pinned or all
/// not pinned as `pinned` says.
pub open spec fn part_of(guides: Seq<Guide>, s: Seq<(u32, Guide)>, pinned: bool) -> bool {
    forall|k: int|
        0 <= k < s.len() ==> 1 <= #[trigger] s[k].0 <= guides.len() && s[k].1 == guide_of(guides, s[k].0)
            && s[k].1.pinned == pinned
}

/// Whether `entries` lists each of `guides` once with its id, the ids
/// counting the guides from 1, in the listing order: pinned guides first,
/// each group by lower-case name.
pub open spec fn is_registry(guides: Seq<Guide>, entries: Seq<(u32, Guide)>) -> bool {
    &&& entries.len() == guides.len()
    &&& forall|k: int|
        0 <= k < entries.len() ==> 1 <= #[trigger] entries[k].0 <= guides.len() && entries[k].1 == guide_of(
            guides,
            entries[k].0,
        )
    &&& keys_distinct(entries)
    &&& forall|k: int, l: int|
        0 <= k < l < entries.len() ==> listed_before(#[trigger] entries[k].1, #[trigger] entries[l].1)
}

/// Sorting a part keeps its pairs, so they stay its guides with their ids,
/// and no id comes twice.
proof fn lemma_sorted_part(guides: Seq<Guide>, before: Seq<(u32, Guide)>, after: Seq<(u32, Guide)>, pinned: bool)
    requires
        after.to_multiset() == before.to_multiset(),
        part_of(guides, before, pinned),
        keys_distinct(before),
    ensures
        after.len() == before.len(),
        part_of(guides, after, pinned),
        keys_distinct(after),
{
    broadcast use vstd::multiset::group_multiset_axioms;
    before.to_multiset_ensures();
    after.to_multiset_ensures();
    assert forall|k: int| 0 <= k < after.len() implies 1 <= #[trigger] after[k].0 <= guides.len()
        && after[k].1 == guide_of(guides, after[k].0) && after[k].1.pinned == pinned by {
        assert(after.contains(after[k]));
        assert(after.to_multiset().count(after[k]) > 0);
        assert(before.contains(after[k]));
        let j = choose|j: int| 0 <= j < before.len() && before[j] == after[k];
        assert(before[j] == after[k]);
    }
    assert forall|i: int, j: int| 0 <= i < before.len() && 0 <= j < before.len() && i != j implies before[i]
        != before[j] by {
        if i < j {
            assert(before[i].0 != before[j].0);
        } else {
            assert(before[j].0 != before[i].0);
        }
    }
    before.lemma_multiset_has_no_duplicates();
    after.lemma_multiset_has_no_duplicates_conv();
    assert forall|k: int, l: int| 0 <= k < l < after.len() implies #[trigger] after[k].0 != #[trigger] after[l].0 by {
        if after[k].0 == after[l].0 {
            assert(after[k] == after[l]);
        }
    }
}

/// The guides, each under its id, in the order in which they are listed.
pub struct GuideRegistry {
    pub guides: IndexMap<u32, Guide>,
}

impl GuideRegistry {
    /// The pairs of ids and guides in listing order.
    pub closed spec fn entries(self) -> Seq<(u32, Guide)> {
        guide_entries(self.guides)
    }

    /// The registry of `guides`: ids count them from 1 in the given order;
    /// pinned guides come first, and each group is sorted by lower-case name.
    pub fn new(guides: Vec<Guide>) -> (r: GuideRegistry)
        requires
            guides@.len() < u32::MAX,
        ensures
            is_registry(guides@, r.entries()),
    {
        let ghost all = guides@;
        let n = guides.len();
        let mut rest = guides;
        let mut pinned = new_guide_map();
        let mut others = new_guide_map();
        let mut ids = IdCounter::new();
        let mut i: usize = 0;
        while i < n
            invariant
                n == all.len(),
                n < u32::MAX,
                i <= n,
                rest@ == all.subrange(i as int, n as int),
                ids.current() == i,
                guide_entries(pinned).len() + guide_entries(others).len() == i,
                part_of(all, guide_entries(pinned), true),
                part_of(all, guide_entries(others), false),
                forall|k: int| 0 <= k < guide_entries(pinned).len() ==> #[trigger] guide_entries(pinned)[k].0 <= i,
                forall|k: int| 0 <= k < guide_entries(others).len() ==> #[trigger] guide_entries(others)[k].0 <= i,
                keys_distinct(guide_entries(pinned)),
                keys_distinct(guide_entries(others)),
            decreases n - i,
        {
            let id = ids.next();
            let g = rest.remove(0);
            assert(g == all[i as int]);
            assert(guide_of(all, id) == g);
            if g.pinned {
                let ghost before = guide_entries(pinned);
                assert(!has_key(before, id));
                insert_guide(&mut pinned, id, g);
                assert(guide_entries(pinned) == before.push((id, all[i as int])));
            } else {
                let ghost before = guide_entries(others);
                assert(!has_key(before, id));
                insert_guide(&mut others, id, g);
                assert(guide_entries(others) == before.push((id, all[i as int])));
            }
            i = i + 1;
            assert(rest@ =~= all.subrange(i as int, n as int));
        }
        let ghost unsorted_pinned = guide_entries(pinned);
        let ghost unsorted_others = guide_entries(others);
        sort_guides_by_name(&mut pinned);
        sort_guides_by_name(&mut others);
        proof {
            lemma_sorted_part(all, unsorted_pinned, guide_entries(pinned), true);
            lemma_sorted_part(all, unsorted_others, guide_entries(others), false);
        }
        let ghost p = guide_entries(pinned);
        let ghost o = guide_entries(others);
        assert(keys_disjoint(p, o)) by {
            assert forall|k: int, l: int| 0 <= k < p.len() && 0 <= l < o.len() implies #[trigger] p[k].0 != #[trigger] o[l].0 by {
                if p[k].0 == o[l].0 {
                    assert(p[k].1 == o[l].1);
                }
            }
        }
        append_guides(&mut pinned, &mut others);
        let ghost e = guide_entries(pinned);
        assert(e == p + o);
        assert forall|k: int| 0 <= k < e.len() implies 1 <= #[trigger] e[k].0 <= all.len() && e[k].1 == guide_of(all, e[k].0) by {
            if k >= p.len() {
                assert(e[k] == o[k - p.len()]);
            }
        }
        assert forall|k: int, l: int| 0 <= k < l < e.len() implies #[trigger] e[k].0 != #[trigger] e[l].0 by {
            if l < p.len() {
            } else if k >= p.len() {
                assert(e[k] == o[k - p.len()] && e[l] == o[l - p.len()]);
            } else {
                assert(e[l] == o[l - p.len()]);
            }
        }
        assert forall|k: int, l: int| 0 <= k < l < e.len() implies listed_before(#[trigger] e[k].1, #[trigger] e[l].1) by {
            if l < p.len() {
                assert(e[k] == p[k] && e[l] == p[l]);
                assert(p[k].0 >= 1 && p[l].0 >= 1);
                assert(text_le(name_key(p[k].1), name_key(p[l].1)));
            } else if k >= p.len() {
                assert(e[k] == o[k - p.len()] && e[l] == o[l - p.len()]);
                assert(o[k - p.len()].0 >= 1 && o[l - p.len()].0 >= 1);
                assert(text_le(name_key(o[k - p.len()].1), name_key(o[l - p.len()].1)));
            } else {
                assert(e[k] == p[k] && e[l] == o[l - p.len()]);
                assert(p[k].0 >= 1 && o[l - p.len()].0 >= 1);
            }
        }
        GuideRegistry { guides: pinned }
    }

    /// The pairs of ids and guides in listing order.
    pub fn listing(&self) -> (r: Vec<(u32, Guide)>)
        ensures
            r@ == self.entries(),
    {
        let n = guide_count(&self.guides);
        let mut r: Vec<(u32, Guide)> = Vec::new();
        let mut i: usize = 0;
        while i < n
            invariant
                n == guide_entries(self.guides).len(),
                i <= n,
                r@ == guide_entries(self.guides).take(i as int),
            decreases n - i,
        {
            match guide_at(&self.guides, i) {
                Some(pair) => r.push(pair),
                None => {},
            }
            assert(r@ =~= guide_entries(self.guides).take(i + 1));
            i = i + 1;
        }
        assert(r@ =~= guide_entries(self.guides));
        r
    }
}

}
