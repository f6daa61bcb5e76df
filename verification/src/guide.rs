use vstd::prelude::*;

use crate::gui::GuideMessage;
use crate::text::{chars_of, contains_chars, lowercase_text, occurs_at, text_contains, to_lowercase};

verus! {

/// Hands out guide ids, counting up from 1.
pub struct IdCounter {
    current: u32,
}

impl IdCounter {
    /// The last id handed out (0 before the first).
    pub closed spec fn current(self) -> u32 {
        self.current
    }

    /// A counter that has handed out no id yet.
    pub fn new() -> (r: IdCounter)
        ensures
            r.current() == 0,
    {
        IdCounter { current: 0 }
    }

    /// The next id: one more than the last.
    pub fn next(&mut self) -> (r: u32)
        requires
            old(self).current() < u32::MAX,
        ensures
            r == old(self).current() + 1,
            final(self).current() == r,
    {
        self.current = self.current + 1;
        self.current
    }
}

/// A guide as the search and the listing see it: its name, whether it is
/// pinned to the top, and its tags.
#[derive(Debug, Clone)]
pub struct Guide {
    pub pinned: bool,
    pub name: String,
    pub tags: Vec<String>,
}

/// Whether a guide matches a search: its name or one of its tags contains
/// the search text, all taken in lower case.
pub open spec fn guide_matches(g: Guide, search: Seq<char>) -> bool {
    text_contains(lowercase_text(g.name@), lowercase_text(search))
        || exists|t: int| 0 <= t < g.tags@.len()
            && text_contains(lowercase_text(#[trigger] g.tags@[t]@), lowercase_text(search))
}

/// The ids of the guides that match a search, in the order of `guides`.
pub open spec fn matching_ids(guides: Seq<(u32, Guide)>, search: Seq<char>) -> Seq<u32>
    decreases guides.len(),
{
    if guides.len() == 0 {
        Seq::<u32>::empty()
    } else {
        let rest = matching_ids(guides.drop_last(), search);
        if guide_matches(guides.last().1, search) {
            rest.push(guides.last().0)
        } else {
            rest
        }
    }
}

/// A search finds every guide whose lower-case name, or any one of whose
/// lower-case tags, contains the lower-case search text: its id is among
/// the ids the search lists.
pub proof fn lemma_search_finds_name_or_any_tag(guides: Seq<(u32, Guide)>, search: Seq<char>, k: int)
    requires
        0 <= k < guides.len(),
        text_contains(lowercase_text(guides[k].1.name@), lowercase_text(search)) || exists|t: int|
            0 <= t < guides[k].1.tags@.len() && text_contains(
                lowercase_text(#[trigger] guides[k].1.tags@[t]@),
                lowercase_text(search),
            ),
    ensures
        matching_ids(guides, search).contains(guides[k].0),
    decreases guides.len(),
{
    let rest = matching_ids(guides.drop_last(), search);
    if k == guides.len() - 1 {
        assert(guide_matches(guides.last().1, search));
        assert(matching_ids(guides, search) == rest.push(guides.last().0));
        assert(matching_ids(guides, search)[rest.len() as int] == guides[k].0);
    } else {
        assert(guides.drop_last()[k] == guides[k]);
        lemma_search_finds_name_or_any_tag(guides.drop_last(), search, k);
        let i = choose|i: int| 0 <= i < rest.len() && rest[i] == guides[k].0;
        if guide_matches(guides.last().1, search) {
            assert(matching_ids(guides, search)[i] == guides[k].0);
        }
    }
}

/// The empty text occurs in every text.
pub proof fn lemma_contains_empty(hay: Seq<char>, needle: Seq<char>)
    requires
        needle.len() == 0,
    ensures
        text_contains(hay, needle),
{
    assert(hay.subrange(0, 0) =~= needle);
    assert(occurs_at(hay, needle, 0));
}

/// A search whose lower-case form is empty matches every guide, so all ids
/// are listed, in order.
pub proof fn lemma_empty_search_matches_all(guides: Seq<(u32, Guide)>, search: Seq<char>)
    requires
        lowercase_text(search).len() == 0,
    ensures
        matching_ids(guides, search) == guides.map_values(|e: (u32, Guide)| e.0),
    decreases guides.len(),
{
    if guides.len() > 0 {
        lemma_empty_search_matches_all(guides.drop_last(), search);
        lemma_contains_empty(lowercase_text(guides.last().1.name@), lowercase_text(search));
        assert(guides.map_values(|e: (u32, Guide)| e.0) =~= guides.drop_last().map_values(
            |e: (u32, Guide)| e.0,
        ).push(guides.last().0));
    } else {
        assert(guides.map_values(|e: (u32, Guide)| e.0) =~= Seq::<u32>::empty());
    }
}

/// The ids a search lists are ids of the guides, in the guides' order: the
/// result is the ids of some of the guides, picked at increasing positions.
pub proof fn lemma_matching_ids_picks(guides: Seq<(u32, Guide)>, search: Seq<char>)
    ensures
        exists|pos: Seq<int>|
            #![trigger pos.len()]
            pos.len() == matching_ids(guides, search).len() && (forall|k: int|
                0 <= k < pos.len() ==> 0 <= #[trigger] pos[k] < guides.len()
                    && guides[pos[k]].0 == matching_ids(guides, search)[k]
                    && guide_matches(guides[pos[k]].1, search)) && (forall|k: int, l: int|
                0 <= k < l < pos.len() ==> #[trigger] pos[k] < #[trigger] pos[l]),
    decreases guides.len(),
{
    if guides.len() == 0 {
        let pos = Seq::<int>::empty();
        assert(pos.len() == matching_ids(guides, search).len());
    } else {
        let init = guides.drop_last();
        lemma_matching_ids_picks(init, search);
        let pos0 = choose|pos: Seq<int>|
            #![trigger pos.len()]
            pos.len() == matching_ids(init, search).len() && (forall|k: int|
                0 <= k < pos.len() ==> 0 <= #[trigger] pos[k] < init.len()
                    && init[pos[k]].0 == matching_ids(init, search)[k]
                    && guide_matches(init[pos[k]].1, search)) && (forall|k: int, l: int|
                0 <= k < l < pos.len() ==> #[trigger] pos[k] < #[trigger] pos[l]);
        if guide_matches(guides.last().1, search) {
            let pos = pos0.push(guides.len() - 1);
            assert forall|k: int| 0 <= k < pos.len() implies 0 <= #[trigger] pos[k] < guides.len()
                && guides[pos[k]].0 == matching_ids(guides, search)[k]
                && guide_matches(guides[pos[k]].1, search) by {
                if k < pos0.len() {
                    assert(pos[k] == pos0[k]);
                    assert(guides[pos[k]] == init[pos0[k]]);
                }
            }
            assert(pos.len() == matching_ids(guides, search).len());
        } else {
            assert forall|k: int| 0 <= k < pos0.len() implies 0 <= #[trigger] pos0[k] < guides.len()
                && guides[pos0[k]].0 == matching_ids(guides, search)[k]
                && guide_matches(guides[pos0[k]].1, search) by {
                assert(guides[pos0[k]] == init[pos0[k]]);
            }
            assert(pos0.len() == matching_ids(guides, search).len());
        }
    }
}

/// Whether a guide matches a search whose lower-case form is `needle`.
fn guide_matches_lowered(g: &Guide, needle: &Vec<char>, Ghost(search): Ghost<Seq<char>>) -> (r: bool)
    requires
        needle@ == lowercase_text(search),
    ensures
        r == guide_matches(*g, search),
{
    let name = chars_of(to_lowercase(g.name.as_str()).as_str());
    if contains_chars(name.as_slice(), needle.as_slice()) {
        return true;
    }
    let mut t: usize = 0;
    while t < g.tags.len()
        invariant
            needle@ == lowercase_text(search),
            t <= g.tags@.len(),
            !text_contains(lowercase_text(g.name@), lowercase_text(search)),
            forall|k: int| 0 <= k < t ==> !text_contains(lowercase_text(#[trigger] g.tags@[k]@), lowercase_text(search)),
        decreases g.tags@.len() - t,
    {
        let tag = chars_of(to_lowercase(g.tags[t].as_str()).as_str());
        if contains_chars(tag.as_slice(), needle.as_slice()) {
            assert(text_contains(lowercase_text(g.tags@[t as int]@), lowercase_text(search)));
            return true;
        }
        t = t + 1;
    }
    false
}

/// The ids, in listing order, of the guides that match the search text.
pub fn search_guides(guides: &Vec<(u32, Guide)>, search: &str) -> (r: Vec<u32>)
    ensures
        r@ == matching_ids(guides@, search@),
        search@.len() == 0 ==> r@ == guides@.map_values(|e: (u32, Guide)| e.0),
{
    let needle = chars_of(to_lowercase(search).as_str());
    proof {
        if search@.len() == 0 {
            lemma_empty_search_matches_all(guides@, search@);
        }
    }
    let mut r: Vec<u32> = Vec::new();
    let mut i: usize = 0;
    while i < guides.len()
        invariant
            i <= guides@.len(),
            needle@ == lowercase_text(search@),
            r@ == matching_ids(guides@.take(i as int), search@),
        decreases guides@.len() - i,
    {
        assert(guides@.take(i + 1).drop_last() =~= guides@.take(i as int));
        assert(guides@.take(i + 1).last() == guides@[i as int]);
        if guide_matches_lowered(&guides[i].1, &needle, Ghost(search@)) {
            r.push(guides[i].0);
        }
        i = i + 1;
    }
    assert(guides@.take(i as int) =~= guides@);
    r
}

}

verus! {

/// Whether `a` comes no later than `b` in the order of `String`s: character
/// by character, a prefix first.
pub open spec fn text_le(a: Seq<char>, b: Seq<char>) -> bool
    decreases a.len(),
{
    if a.len() == 0 {
        true
    } else if b.len() == 0 {
        false
    } else if a[0] != b[0] {
        a[0] < b[0]
    } else {
        text_le(a.drop_first(), b.drop_first())
    }
}

/// Of two texts, one comes no later than the other.
pub proof fn lemma_text_le_total(a: Seq<char>, b: Seq<char>)
    ensures
        text_le(a, b) || text_le(b, a),
    decreases a.len(),
{
    if a.len() > 0 && b.len() > 0 && a[0] == b[0] {
        lemma_text_le_total(a.drop_first(), b.drop_first());
    }
}

/// The order in which guides are listed: pinned guides first, and within
/// each group by lower-case name.
pub open spec fn listed_before(a: Guide, b: Guide) -> bool {
    (a.pinned && !b.pinned) || (a.pinned == b.pinned && text_le(
        lowercase_text(a.name@),
        lowercase_text(b.name@),
    ))
}

/// The guide that id `id` stands for: ids count the guides from 1.
pub open spec fn guide_of(guides: Seq<Guide>, id: u32) -> Guide {
    guides[id - 1]
}

/// Whether `a` comes no later than `b` in the order of texts.
pub(crate) fn text_le_exec(a: &Vec<char>, b: &Vec<char>) -> (r: bool)
    ensures
        r == text_le(a@, b@),
{
    let mut i: usize = 0;
    assert(a@.subrange(0, a@.len() as int) =~= a@);
    assert(b@.subrange(0, b@.len() as int) =~= b@);
    while i < a.len() && i < b.len()
        invariant
            i <= a@.len(),
            i <= b@.len(),
            forall|j: int| 0 <= j < i ==> a@[j] == b@[j],
            text_le(a@, b@) == text_le(a@.subrange(i as int, a@.len() as int), b@.subrange(i as int, b@.len() as int)),
        decreases a@.len() - i,
    {
        let ghost sa = a@.subrange(i as int, a@.len() as int);
        let ghost sb = b@.subrange(i as int, b@.len() as int);
        assert(sa[0] == a@[i as int]);
        assert(sb[0] == b@[i as int]);
        if a[i] != b[i] {
            return a[i] < b[i];
        }
        assert(sa.drop_first() =~= a@.subrange(i + 1, a@.len() as int));
        assert(sb.drop_first() =~= b@.subrange(i + 1, b@.len() as int));
        i = i + 1;
    }
    i == a.len()
}

}

verus! {

/// The positions, in listing order, of the guides whose ids are among `ids`.
pub open spec fn shown_positions(guides: Seq<(u32, Guide)>, ids: Seq<u32>) -> Seq<int>
    decreases guides.len(),
{
    if guides.len() == 0 {
        Seq::<int>::empty()
    } else {
        let rest = shown_positions(guides.drop_last(), ids);
        if ids.contains(guides.last().0) {
            rest.push(guides.len() - 1)
        } else {
            rest
        }
    }
}

/// The positions, in listing order, of the guides the home page shows: those
/// whose ids the search matched.
pub fn visible_guides(guides: &Vec<(u32, Guide)>, ids: &Vec<u32>) -> (r: Vec<usize>)
    ensures
        r@.len() == shown_positions(guides@, ids@).len(),
        forall|k: int| 0 <= k < r@.len() ==> #[trigger] r@[k] as int == shown_positions(guides@, ids@)[k],
{
    let mut r: Vec<usize> = Vec::new();
    let mut i: usize = 0;
    while i < guides.len()
        invariant
            i <= guides@.len(),
            r@.len() == shown_positions(guides@.take(i as int), ids@).len(),
            forall|k: int| 0 <= k < r@.len() ==> #[trigger] r@[k] as int == shown_positions(guides@.take(i as int), ids@)[k],
        decreases guides@.len() - i,
    {
        assert(guides@.take(i + 1).drop_last() =~= guides@.take(i as int));
        let id = guides[i].0;
        let mut found = false;
        let mut j: usize = 0;
        while j < ids.len()
            invariant
                j <= ids@.len(),
                found == (exists|k: int| 0 <= k < j && ids@[k] == id),
            decreases ids@.len() - j,
        {
            if ids[j] == id {
                found = true;
            }
            j = j + 1;
        }
        assert(found == ids@.contains(id));
        if found {
            r.push(i);
        }
        i = i + 1;
    }
    assert(guides@.take(i as int) =~= guides@);
    r
}

}

verus! {

/// One entry of the guide list on the home page: the guide's id, the label
/// and tags it shows, whether it shows the pin icon, what pressing it
/// sends, and whether a rule separates it from the entry above.
#[derive(Debug)]
pub struct GuideEntryView {
    pub id: u32,
    pub label: String,
    pub tags: Vec<String>,
    pub show_pin: bool,
    pub on_press: GuideMessage,
    pub rule_before: bool,
}

/// Whether `e` is the entry the home page shows, at place `k`, for the
/// guide `g` with id `id`.
pub open spec fn is_entry_for(e: GuideEntryView, id: u32, g: Guide, k: int) -> bool {
    &&& e.id == id
    &&& e.label@ == g.name@
    &&& e.tags@.len() == g.tags@.len()
    &&& (forall|t: int| 0 <= t < g.tags@.len() ==> (#[trigger] e.tags@[t])@ == g.tags@[t]@)
    &&& e.show_pin == g.pinned
    &&& e.on_press == GuideMessage::OpenGuide(id)
    &&& e.rule_before == (k > 0)
}

fn copy_tags(tags: &Vec<String>) -> (r: Vec<String>)
    ensures
        r@.len() == tags@.len(),
        forall|t: int| 0 <= t < tags@.len() ==> (#[trigger] r@[t])@ == tags@[t]@,
{
    let mut r: Vec<String> = Vec::new();
    let mut i: usize = 0;
    while i < tags.len()
        invariant
            i <= tags@.len(),
            r@.len() == i,
            forall|t: int| 0 <= t < i ==> (#[trigger] r@[t])@ == tags@[t]@,
        decreases tags@.len() - i,
    {
        r.push(tags[i].clone());
        i = i + 1;
    }
    r
}

/// The guide list of the home page: for each guide, in listing order, whose
/// id the search matched, an entry that shows its name and tags, shows the
/// pin exactly when the guide is pinned, and opens the guide when pressed;
/// a rule stands between entries.
pub fn home_entries(guides: &Vec<(u32, Guide)>, ids: &Vec<u32>) -> (r: Vec<GuideEntryView>)
    ensures
        r@.len() == shown_positions(guides@, ids@).len(),
        forall|k: int|
            0 <= k < r@.len() ==> {
                let p = shown_positions(guides@, ids@)[k];
                0 <= p < guides@.len() && is_entry_for(#[trigger] r@[k], guides@[p].0, guides@[p].1, k)
            },
{
    let positions = visible_guides(guides, ids);
    proof {
        lemma_shown_positions_in_range(guides@, ids@);
    }
    let mut r: Vec<GuideEntryView> = Vec::new();
    let mut k: usize = 0;
    while k < positions.len()
        invariant
            k <= positions@.len(),
            positions@.len() == shown_positions(guides@, ids@).len(),
            forall|j: int| 0 <= j < positions@.len() ==> #[trigger] positions@[j] as int == shown_positions(guides@, ids@)[j],
            forall|j: int| 0 <= j < positions@.len() ==> 0 <= #[trigger] shown_positions(guides@, ids@)[j] < guides@.len(),
            r@.len() == k,
            forall|j: int|
                0 <= j < k ==> {
                    let p = shown_positions(guides@, ids@)[j];
                    0 <= p < guides@.len() && is_entry_for(#[trigger] r@[j], guides@[p].0, guides@[p].1, j)
                },
        decreases positions@.len() - k,
    {
        let p = positions[k];
        assert(0 <= shown_positions(guides@, ids@)[k as int] < guides@.len());
        let (id, g) = (guides[p].0, &guides[p].1);
        r.push(GuideEntryView {
            id,
            label: g.name.clone(),
            tags: copy_tags(&g.tags),
            show_pin: g.pinned,
            on_press: GuideMessage::OpenGuide(id),
            rule_before: k > 0,
        });
        k = k + 1;
    }
    r
}

/// The shown positions are positions of guides.
pub proof fn lemma_shown_positions_in_range(guides: Seq<(u32, Guide)>, ids: Seq<u32>)
    ensures
        forall|j: int|
            0 <= j < shown_positions(guides, ids).len() ==> 0 <= #[trigger] shown_positions(guides, ids)[j]
                < guides.len(),
    decreases guides.len(),
{
    if guides.len() > 0 {
        lemma_shown_positions_in_range(guides.drop_last(), ids);
        let rest = shown_positions(guides.drop_last(), ids);
        assert forall|j: int| 0 <= j < shown_positions(guides, ids).len() implies 0 <= #[trigger] shown_positions(guides, ids)[j]
            < guides.len() by {
            if j < rest.len() {
                assert(shown_positions(guides, ids)[j] == rest[j]);
            }
        }
    }
}

}
