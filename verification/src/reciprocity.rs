//! Reciprocal engagement bookkeeping for engagement-pod detection: how many
//! distinct pieces of content each pair of actors engaged with together, the
//! number of strong reciprocal partners of an actor, and the size of the
//! ring of likely pod members.

use vstd::prelude::*;

verus! {

/// A pair of actors and how many distinct pieces of content both engaged with.
#[derive(Debug, Clone)]
pub struct PairCount {
    pub first: String,
    pub second: String,
    pub count: u32,
}

/// `p` records the unordered pair {a, b}.
pub open spec fn links(p: PairCount, a: Seq<char>, b: Seq<char>) -> bool {
    ||| p.first@ == a && p.second@ == b
    ||| p.first@ == b && p.second@ == a
}

/// The recorded pairs are pairs of distinct actors, each recorded once, with a positive count.
pub open spec fn pairs_wf(m: Seq<PairCount>) -> bool {
    &&& forall|i: int| 0 <= i < m.len() ==> (#[trigger] m[i]).first@ != m[i].second@ && m[i].count >= 1
    &&& forall|i: int, j: int| 0 <= i < j < m.len() ==> !links(#[trigger] m[j], (#[trigger] m[i]).first@, m[i].second@)
}

/// The number of distinct contents on which `a` and `b` engaged together (0 when not recorded).
pub open spec fn pair_count(m: Seq<PairCount>, a: Seq<char>, b: Seq<char>) -> int {
    if exists|i: int| 0 <= i < m.len() && links(#[trigger] m[i], a, b) {
        m[choose|i: int| 0 <= i < m.len() && links(#[trigger] m[i], a, b)].count as int
    } else {
        0
    }
}

/// The entry that records {a, b} carries its count.
pub proof fn lemma_pair_count_at(m: Seq<PairCount>, a: Seq<char>, b: Seq<char>, i: int)
    requires
        pairs_wf(m),
        0 <= i < m.len(),
        links(m[i], a, b),
    ensures
        pair_count(m, a, b) == m[i].count,
{
    let k = choose|k: int| 0 <= k < m.len() && links(#[trigger] m[k], a, b);
    if k < i {
        assert(!links(m[i], m[k].first@, m[k].second@));
    } else if i < k {
        assert(!links(m[k], m[i].first@, m[i].second@));
    }
}

/// `s` is the text of one of the strings of `v`.
pub open spec fn has_str(v: Seq<String>, s: Seq<char>) -> bool {
    exists|i: int| 0 <= i < v.len() && (#[trigger] v[i])@ == s
}

/// No two strings of `v` have the same text.
pub open spec fn distinct_strs(v: Seq<String>) -> bool {
    forall|i: int, j: int| 0 <= i < j < v.len() ==> (#[trigger] v[i])@ != (#[trigger] v[j])@
}

/// {a, b} and {x, y} are the same unordered pair.
pub open spec fn same_pair(a: Seq<char>, b: Seq<char>, x: Seq<char>, y: Seq<char>) -> bool {
    (a == x && b == y) || (a == y && b == x)
}

/// The pair {x, y} is among the index pairs p < q of `u` enumerated before (i, j).
spec fn pair_done(u: Seq<String>, x: Seq<char>, y: Seq<char>, i: int, j: int) -> bool {
    exists|p: int, q: int| #![trigger u[p], u[q]]
        0 <= p < q < u.len() && (p < i || (p == i && q < j)) && same_pair(u[p]@, u[q]@, x, y)
}

proof fn lemma_done_start(u: Seq<String>, x: Seq<char>, y: Seq<char>)
    ensures
        !pair_done(u, x, y, 0, 1),
{
}

proof fn lemma_done_step(u: Seq<String>, x: Seq<char>, y: Seq<char>, i: int, j: int)
    requires
        distinct_strs(u),
        0 <= i < j < u.len(),
    ensures
        pair_done(u, x, y, i, j + 1) == (pair_done(u, x, y, i, j) || same_pair(u[i]@, u[j]@, x, y)),
        same_pair(u[i]@, u[j]@, x, y) ==> !pair_done(u, x, y, i, j),
{
    if pair_done(u, x, y, i, j + 1) && !same_pair(u[i]@, u[j]@, x, y) {
        let (p, q) = choose|p: int, q: int| #![trigger u[p], u[q]]
            0 <= p < q < u.len() && (p < i || (p == i && q < j + 1)) && same_pair(u[p]@, u[q]@, x, y);
        assert(q != j || p != i);
    }
    if same_pair(u[i]@, u[j]@, x, y) {
        assert(pair_done(u, x, y, i, j + 1));
        if pair_done(u, x, y, i, j) {
            let (p, q) = choose|p: int, q: int| #![trigger u[p], u[q]]
                0 <= p < q < u.len() && (p < i || (p == i && q < j)) && same_pair(u[p]@, u[q]@, x, y);
            if u[p]@ == u[i]@ {
                assert(p == i) by {
                    if p < i { assert(u[p]@ != u[i]@); }
                    if i < p { assert(u[i]@ != u[p]@); }
                }
                assert(u[q]@ == u[j]@);
                if q < j { assert(u[q]@ != u[j]@); }
            } else {
                assert(u[p]@ == u[j]@);
                if p < j { assert(u[p]@ != u[j]@); }
            }
        }
    }
}

proof fn lemma_done_row(u: Seq<String>, x: Seq<char>, y: Seq<char>, i: int)
    requires
        0 <= i < u.len(),
    ensures
        pair_done(u, x, y, i, u.len() as int) == pair_done(u, x, y, i + 1, i + 2),
{
    if pair_done(u, x, y, i, u.len() as int) {
        let (p, q) = choose|p: int, q: int| #![trigger u[p], u[q]]
            0 <= p < q < u.len() && (p < i || (p == i && q < u.len())) && same_pair(u[p]@, u[q]@, x, y);
        assert(pair_done(u, x, y, i + 1, i + 2));
    }
    if pair_done(u, x, y, i + 1, i + 2) {
        let (p, q) = choose|p: int, q: int| #![trigger u[p], u[q]]
            0 <= p < q < u.len() && (p < i + 1 || (p == i + 1 && q < i + 2)) && same_pair(u[p]@, u[q]@, x, y);
        assert(pair_done(u, x, y, i, u.len() as int));
    }
}

proof fn lemma_done_all(u: Seq<String>, x: Seq<char>, y: Seq<char>)
    requires
        distinct_strs(u),
    ensures
        pair_done(u, x, y, u.len() as int, u.len() + 1int) == (x != y && has_str(u, x) && has_str(u, y)),
{
    if pair_done(u, x, y, u.len() as int, u.len() + 1int) {
        let (p, q) = choose|p: int, q: int| #![trigger u[p], u[q]]
            0 <= p < q < u.len() && (p < u.len() || (p == u.len() && q < u.len() + 1)) && same_pair(u[p]@, u[q]@, x, y);
        assert(u[p]@ != u[q]@);
        assert(has_str(u, u[p]@) && has_str(u, u[q]@));
    }
    if x != y && has_str(u, x) && has_str(u, y) {
        let a = choose|a: int| 0 <= a < u.len() && (#[trigger] u[a])@ == x;
        let b = choose|b: int| 0 <= b < u.len() && (#[trigger] u[b])@ == y;
        if a < b {
            assert(same_pair(u[a]@, u[b]@, x, y));
        } else {
            assert(a != b);
            assert(same_pair(u[b]@, u[a]@, x, y));
        }
    }
}

/// Whether some string of `v` has the text of `s`.
fn contains_str(v: &Vec<String>, s: &String) -> (r: bool)
    ensures
        r == has_str(v@, s@),
{
    let n = v.len();
    for i in 0..n
        invariant
            n == v@.len(),
            forall|j: int| 0 <= j < i ==> (#[trigger] v@[j])@ != s@,
    {
        if v[i] == *s {
            return true;
        }
    }
    false
}

/// The strings of `v` with repeated texts left out, in order of first occurrence.
fn distinct_texts(v: &Vec<String>) -> (r: Vec<String>)
    ensures
        distinct_strs(r@),
        forall|s: Seq<char>| #[trigger] has_str(r@, s) == has_str(v@, s),
{
    let mut out: Vec<String> = Vec::new();
    let n = v.len();
    for i in 0..n
        invariant
            n == v@.len(),
            distinct_strs(out@),
            forall|s: Seq<char>| #[trigger] has_str(out@, s) == has_str(v@.take(i as int), s),
    {
        let ghost before = out@;
        if !contains_str(&out, &v[i]) {
            out.push(v[i].clone());
        }
        assert forall|s: Seq<char>| #[trigger] has_str(out@, s) == has_str(v@.take(i + 1), s) by {
            let t = v@.take(i + 1);
            if has_str(out@, s) {
                let k = choose|k: int| 0 <= k < out@.len() && (#[trigger] out@[k])@ == s;
                if k < before.len() {
                    assert(before[k] == out@[k]);
                    assert(has_str(before, s));
                    let w = choose|w: int| 0 <= w < i && (#[trigger] v@.take(i as int)[w])@ == s;
                    assert(t[w] == v@[w]);
                } else {
                    assert(t[i as int] == v@[i as int]);
                }
            }
            if has_str(t, s) {
                let w = choose|w: int| 0 <= w < t.len() && (#[trigger] t[w])@ == s;
                if w < i {
                    assert(v@.take(i as int)[w] == t[w]);
                    assert(has_str(before, s));
                    let k = choose|k: int| 0 <= k < before.len() && (#[trigger] before[k])@ == s;
                    assert(out@[k] == before[k]);
                } else {
                    if has_str(before, s) {
                        let k = choose|k: int| 0 <= k < before.len() && (#[trigger] before[k])@ == s;
                        assert(out@[k] == before[k]);
                    } else {
                        assert(out@[before.len() as int]@ == s);
                    }
                }
            }
        }
    }
    assert(v@.take(n as int) =~= v@);
    out
}

/// One engagement: an actor engaged with a piece of content.
#[derive(Debug, Clone)]
pub struct Engagement {
    pub actor_id: String,
    pub content_id: String,
}

/// The texts of a list of strings.
pub open spec fn texts(v: Seq<String>) -> Seq<Seq<char>> {
    v.map_values(|s: String| s@)
}

/// `actor` engaged with `content` in `events`.
pub open spec fn engaged(events: Seq<Engagement>, actor: Seq<char>, content: Seq<char>) -> bool {
    exists|i: int| 0 <= i < events.len() && (#[trigger] events[i]).actor_id@ == actor && events[i].content_id@ == content
}

/// `d` with `s` appended unless already present.
pub open spec fn add_text(d: Seq<Seq<char>>, s: Seq<char>) -> Seq<Seq<char>> {
    if d.contains(s) { d } else { d.push(s) }
}

/// The distinct content ids of `events`, in order of first occurrence.
pub open spec fn distinct_contents(events: Seq<Engagement>) -> Seq<Seq<char>>
    decreases events.len(),
{
    if events.len() == 0 {
        Seq::empty()
    } else {
        add_text(distinct_contents(events.drop_last()), events.last().content_id@)
    }
}

/// How many of `contents` both `x` and `y` engaged with.
pub open spec fn count_shared(contents: Seq<Seq<char>>, events: Seq<Engagement>, x: Seq<char>, y: Seq<char>) -> int
    decreases contents.len(),
{
    if contents.len() == 0 {
        0
    } else {
        count_shared(contents.drop_last(), events, x, y)
            + (if engaged(events, x, contents.last()) && engaged(events, y, contents.last()) { 1int } else { 0int })
    }
}

/// The number of distinct pieces of content that two distinct actors `x`
/// and `y` both engaged with in `events` (0 when `x` and `y` are the same actor).
pub open spec fn co_engaged(events: Seq<Engagement>, x: Seq<char>, y: Seq<char>) -> int {
    if x == y {
        0
    } else {
        count_shared(distinct_contents(events), events, x, y)
    }
}

/// The pieces of content that both `x` and `y` engaged with.
pub open spec fn shared_contents(events: Seq<Engagement>, x: Seq<char>, y: Seq<char>) -> Set<Seq<char>> {
    Set::new(|c: Seq<char>| engaged(events, x, c) && engaged(events, y, c))
}

proof fn lemma_distinct_contents(events: Seq<Engagement>)
    ensures
        distinct_contents(events).no_duplicates(),
        forall|c: Seq<char>| #[trigger] distinct_contents(events).contains(c)
            == (exists|i: int| 0 <= i < events.len() && (#[trigger] events[i]).content_id@ == c),
    decreases events.len(),
{
    if events.len() > 0 {
        let dl = events.drop_last();
        lemma_distinct_contents(dl);
        lemma_add_text(distinct_contents(dl), events.last().content_id@);
        assert forall|c: Seq<char>| #[trigger] distinct_contents(events).contains(c)
            == (exists|i: int| 0 <= i < events.len() && (#[trigger] events[i]).content_id@ == c) by {
            if exists|i: int| 0 <= i < events.len() && (#[trigger] events[i]).content_id@ == c {
                let i = choose|i: int| 0 <= i < events.len() && (#[trigger] events[i]).content_id@ == c;
                if i < dl.len() {
                    assert(dl[i] == events[i]);
                }
            }
            if exists|i: int| 0 <= i < dl.len() && (#[trigger] dl[i]).content_id@ == c {
                let i = choose|i: int| 0 <= i < dl.len() && (#[trigger] dl[i]).content_id@ == c;
                assert(events[i] == dl[i]);
            }
        }
    }
}

proof fn lemma_count_shared_set(s: Seq<Seq<char>>, events: Seq<Engagement>, x: Seq<char>, y: Seq<char>)
    requires
        s.no_duplicates(),
    ensures
        s.to_set().filter(|c: Seq<char>| engaged(events, x, c) && engaged(events, y, c)).finite(),
        count_shared(s, events, x, y)
            == s.to_set().filter(|c: Seq<char>| engaged(events, x, c) && engaged(events, y, c)).len(),
    decreases s.len(),
{
    let p = |c: Seq<char>| engaged(events, x, c) && engaged(events, y, c);
    if s.len() == 0 {
        assert(s.to_set().filter(p) =~= Set::<Seq<char>>::empty());
    } else {
        let dl = s.drop_last();
        assert(dl.no_duplicates()) by {
            assert forall|i: int, j: int| 0 <= i < dl.len() && 0 <= j < dl.len() && i != j implies dl[i] != dl[j] by {
                assert(dl[i] == s[i] && dl[j] == s[j]);
            }
        }
        lemma_count_shared_set(dl, events, x, y);
        let c = s.last();
        assert(!dl.contains(c)) by {
            if dl.contains(c) {
                let i = choose|i: int| 0 <= i < dl.len() && dl[i] == c;
                assert(s[i] == s[s.len() - 1]);
            }
        }
        assert(s.to_set() =~= dl.to_set().insert(c)) by {
            assert forall|z: Seq<char>| s.to_set().contains(z) == dl.to_set().insert(c).contains(z) by {
                if s.contains(z) {
                    let i = choose|i: int| 0 <= i < s.len() && s[i] == z;
                    if i < dl.len() {
                        assert(dl[i] == z);
                    }
                }
                if dl.contains(z) {
                    let i = choose|i: int| 0 <= i < dl.len() && dl[i] == z;
                    assert(s[i] == z);
                }
                if z == c {
                    assert(s[s.len() - 1] == c);
                }
            }
        }
        assert(!dl.to_set().contains(c));
        if p(c) {
            assert(s.to_set().filter(p) =~= dl.to_set().filter(p).insert(c));
        } else {
            assert(s.to_set().filter(p) =~= dl.to_set().filter(p));
        }
    }
}

/// The co-engagement of two distinct actors is the number of distinct pieces
/// of content that both engaged with; an actor has no co-engagement with
/// itself; and co-engagement does not depend on the order of the two actors.
pub proof fn law_co_engaged_counts_shared_contents(events: Seq<Engagement>, x: Seq<char>, y: Seq<char>)
    ensures
        x != y ==> shared_contents(events, x, y).finite()
            && co_engaged(events, x, y) == shared_contents(events, x, y).len(),
        co_engaged(events, x, x) == 0,
        co_engaged(events, x, y) == co_engaged(events, y, x),
{
    let d = distinct_contents(events);
    let p = |c: Seq<char>| engaged(events, x, c) && engaged(events, y, c);
    let q = |c: Seq<char>| engaged(events, y, c) && engaged(events, x, c);
    lemma_distinct_contents(events);
    lemma_count_shared_set(d, events, x, y);
    lemma_count_shared_set(d, events, y, x);
    assert(shared_contents(events, x, y) =~= d.to_set().filter(p)) by {
        assert forall|c: Seq<char>| shared_contents(events, x, y).contains(c) implies d.to_set().contains(c) by {
            let i = choose|i: int| 0 <= i < events.len() && (#[trigger] events[i]).actor_id@ == x && events[i].content_id@ == c;
            assert(d.contains(c));
        }
    }
    assert(d.to_set().filter(p) =~= d.to_set().filter(q));
}

/// `p` involves actor `a`.
pub open spec fn involves(p: PairCount, a: Seq<char>) -> bool {
    p.first@ == a || p.second@ == a
}

/// Minimum co-engagement count for a reciprocal pair to be strong.
pub open spec fn strong_threshold() -> u32 {
    3
}

/// The number of recorded strong pairs (count at least 3) that involve `a`.
pub open spec fn strong_partners(m: Seq<PairCount>, a: Seq<char>) -> int
    decreases m.len(),
{
    if m.len() == 0 {
        0
    } else {
        strong_partners(m.drop_last(), a)
            + (if involves(m.last(), a) && m.last().count >= strong_threshold() { 1int } else { 0int })
    }
}

/// The actors with whom `a` co-engaged on at least 3 pieces of content.
pub open spec fn strong_partner_set(m: Seq<PairCount>, a: Seq<char>) -> Set<Seq<char>> {
    Set::new(|b: Seq<char>| b != a && pair_count(m, a, b) >= strong_threshold())
}

proof fn lemma_pairs_wf_drop_last(m: Seq<PairCount>)
    requires
        pairs_wf(m),
        m.len() > 0,
    ensures
        pairs_wf(m.drop_last()),
{
    let dl = m.drop_last();
    assert forall|i: int| 0 <= i < dl.len() implies (#[trigger] dl[i]).first@ != dl[i].second@ && dl[i].count >= 1 by {
        assert(dl[i] == m[i]);
    }
    assert forall|i: int, j: int| 0 <= i < j < dl.len() implies !links(#[trigger] dl[j], (#[trigger] dl[i]).first@, dl[i].second@) by {
        assert(dl[i] == m[i] && dl[j] == m[j]);
    }
}

/// The count of a pair is carried by the last entry when it records the
/// pair, and by the earlier entries otherwise.
proof fn lemma_pair_count_last(m: Seq<PairCount>, a: Seq<char>, b: Seq<char>)
    requires
        pairs_wf(m),
        m.len() > 0,
    ensures
        links(m.last(), a, b) ==> pair_count(m, a, b) == m.last().count && pair_count(m.drop_last(), a, b) == 0,
        !links(m.last(), a, b) ==> pair_count(m, a, b) == pair_count(m.drop_last(), a, b),
{
    let dl = m.drop_last();
    let n = m.len() - 1;
    lemma_pairs_wf_drop_last(m);
    if links(m.last(), a, b) {
        lemma_pair_count_at(m, a, b, n);
        if exists|k: int| 0 <= k < dl.len() && links(#[trigger] dl[k], a, b) {
            let k = choose|k: int| 0 <= k < dl.len() && links(#[trigger] dl[k], a, b);
            assert(dl[k] == m[k]);
            assert(!links(m[n], m[k].first@, m[k].second@));
        }
    } else if exists|k: int| 0 <= k < dl.len() && links(#[trigger] dl[k], a, b) {
        let k = choose|k: int| 0 <= k < dl.len() && links(#[trigger] dl[k], a, b);
        assert(dl[k] == m[k]);
        lemma_pair_count_at(m, a, b, k);
        lemma_pair_count_at(dl, a, b, k);
    } else {
        if exists|k: int| 0 <= k < m.len() && links(#[trigger] m[k], a, b) {
            let k = choose|k: int| 0 <= k < m.len() && links(#[trigger] m[k], a, b);
            if k < n {
                assert(dl[k] == m[k]);
            }
        }
    }
}

/// The strong partner count of an actor is the number of distinct actors
/// with whom it co-engaged on at least 3 pieces of content.
pub proof fn law_strong_partners_distinct(m: Seq<PairCount>, a: Seq<char>)
    requires
        pairs_wf(m),
    ensures
        strong_partner_set(m, a).finite(),
        strong_partners(m, a) == strong_partner_set(m, a).len(),
    decreases m.len(),
{
    if m.len() == 0 {
        assert(strong_partner_set(m, a) =~= Set::<Seq<char>>::empty());
    } else {
        let dl = m.drop_last();
        let last = m.last();
        lemma_pairs_wf_drop_last(m);
        law_strong_partners_distinct(dl, a);
        assert(last == m[m.len() - 1]);
        let partner = if last.first@ == a { last.second@ } else { last.first@ };
        if involves(last, a) {
            lemma_pair_count_last(m, a, partner);
            assert(links(last, a, partner));
            if last.count >= strong_threshold() {
                assert(strong_partner_set(m, a) =~= strong_partner_set(dl, a).insert(partner)) by {
                    assert forall|b: Seq<char>| strong_partner_set(m, a).contains(b)
                        == strong_partner_set(dl, a).insert(partner).contains(b) by {
                        lemma_pair_count_last(m, a, b);
                    }
                }
                assert(!strong_partner_set(dl, a).contains(partner));
            } else {
                assert(strong_partner_set(m, a) =~= strong_partner_set(dl, a)) by {
                    assert forall|b: Seq<char>| strong_partner_set(m, a).contains(b)
                        == strong_partner_set(dl, a).contains(b) by {
                        lemma_pair_count_last(m, a, b);
                    }
                }
            }
        } else {
            assert(strong_partner_set(m, a) =~= strong_partner_set(dl, a)) by {
                assert forall|b: Seq<char>| strong_partner_set(m, a).contains(b)
                    == strong_partner_set(dl, a).contains(b) by {
                    lemma_pair_count_last(m, a, b);
                }
            }
        }
    }
}

/// The actors with at least 3 distinct strong reciprocal partners.
pub open spec fn pod_member_set(m: Seq<PairCount>) -> Set<Seq<char>> {
    Set::new(|a: Seq<char>| strong_partners(m, a) >= 3)
}

/// Some strong pair involves `a`.
spec fn in_strong_pair(m: Seq<PairCount>, a: Seq<char>) -> bool {
    exists|i: int| 0 <= i < m.len() && involves(#[trigger] m[i], a) && m[i].count >= strong_threshold()
}

proof fn lemma_strong_partners_positive(m: Seq<PairCount>, a: Seq<char>)
    ensures
        strong_partners(m, a) >= 0,
        strong_partners(m, a) >= 1 <==> in_strong_pair(m, a),
    decreases m.len(),
{
    if m.len() > 0 {
        let dl = m.drop_last();
        lemma_strong_partners_positive(dl, a);
        if in_strong_pair(dl, a) {
            let i = choose|i: int| 0 <= i < dl.len() && involves(#[trigger] dl[i], a) && dl[i].count >= strong_threshold();
            assert(m[i] == dl[i]);
        }
        if in_strong_pair(m, a) {
            let i = choose|i: int| 0 <= i < m.len() && involves(#[trigger] m[i], a) && m[i].count >= strong_threshold();
            if i < dl.len() {
                assert(dl[i] == m[i]);
            }
        }
        assert(m.last() == m[m.len() - 1]);
    }
}

proof fn lemma_add_text(d: Seq<Seq<char>>, s: Seq<char>)
    requires
        d.no_duplicates(),
    ensures
        add_text(d, s).no_duplicates(),
        forall|x: Seq<char>| #[trigger] add_text(d, s).contains(x) == (d.contains(x) || x == s),
{
    if !d.contains(s) {
        let e = d.push(s);
        assert forall|x: Seq<char>| #[trigger] e.contains(x) == (d.contains(x) || x == s) by {
            if d.contains(x) {
                let i = choose|i: int| 0 <= i < d.len() && d[i] == x;
                assert(e[i] == x);
            }
            if x == s {
                assert(e[d.len() as int] == s);
            }
        }
    }
}

proof fn lemma_strong_actors(m: Seq<PairCount>)
    ensures
        strong_actors(m).no_duplicates(),
        forall|a: Seq<char>| #[trigger] strong_actors(m).contains(a) == in_strong_pair(m, a),
    decreases m.len(),
{
    if m.len() > 0 {
        let dl = m.drop_last();
        let last = m.last();
        lemma_strong_actors(dl);
        assert(last == m[m.len() - 1]);
        if last.count >= strong_threshold() {
            lemma_add_text(strong_actors(dl), last.first@);
            lemma_add_text(add_text(strong_actors(dl), last.first@), last.second@);
        }
        assert forall|a: Seq<char>| #[trigger] strong_actors(m).contains(a) == in_strong_pair(m, a) by {
            if in_strong_pair(dl, a) {
                let i = choose|i: int| 0 <= i < dl.len() && involves(#[trigger] dl[i], a) && dl[i].count >= strong_threshold();
                assert(m[i] == dl[i]);
            }
            if in_strong_pair(m, a) {
                let i = choose|i: int| 0 <= i < m.len() && involves(#[trigger] m[i], a) && m[i].count >= strong_threshold();
                if i < dl.len() {
                    assert(dl[i] == m[i]);
                    assert(in_strong_pair(dl, a));
                }
            }
            assert(strong_actors(dl).contains(a) == in_strong_pair(dl, a));
        }
    }
}

proof fn lemma_member_count_set(s: Seq<Seq<char>>, m: Seq<PairCount>)
    requires
        s.no_duplicates(),
    ensures
        s.to_set().filter(|a: Seq<char>| strong_partners(m, a) >= 3).finite(),
        pod_member_count(s, m) == s.to_set().filter(|a: Seq<char>| strong_partners(m, a) >= 3).len(),
    decreases s.len(),
{
    let p = |a: Seq<char>| strong_partners(m, a) >= 3;
    if s.len() == 0 {
        assert(s.to_set().filter(p) =~= Set::<Seq<char>>::empty());
    } else {
        let dl = s.drop_last();
        assert(dl.no_duplicates()) by {
            assert forall|i: int, j: int| 0 <= i < dl.len() && 0 <= j < dl.len() && i != j implies dl[i] != dl[j] by {
                assert(dl[i] == s[i] && dl[j] == s[j]);
            }
        }
        lemma_member_count_set(dl, m);
        let x = s.last();
        assert(!dl.contains(x)) by {
            if dl.contains(x) {
                let i = choose|i: int| 0 <= i < dl.len() && dl[i] == x;
                assert(s[i] == s[s.len() - 1]);
            }
        }
        assert(s =~= dl.push(x));
        assert(s.to_set() =~= dl.to_set().insert(x)) by {
            assert forall|y: Seq<char>| s.to_set().contains(y) == dl.to_set().insert(x).contains(y) by {
                if s.contains(y) {
                    let i = choose|i: int| 0 <= i < s.len() && s[i] == y;
                    if i < dl.len() {
                        assert(dl[i] == y);
                    }
                }
                if dl.contains(y) {
                    let i = choose|i: int| 0 <= i < dl.len() && dl[i] == y;
                    assert(s[i] == y);
                }
                if y == x {
                    assert(s[s.len() - 1] == x);
                }
            }
        }
        assert(!dl.to_set().contains(x));
        if p(x) {
            assert(s.to_set().filter(p) =~= dl.to_set().filter(p).insert(x));
        } else {
            assert(s.to_set().filter(p) =~= dl.to_set().filter(p));
        }
    }
}

/// The estimated ring holds exactly the actors with at least 3 strong
/// reciprocal partners: its size is the number of such actors (none: no ring).
pub proof fn law_ring_is_pod_members(m: Seq<PairCount>)
    ensures
        pod_member_set(m).finite(),
        ring_sizes_of(m) == (if pod_member_set(m).len() == 0 {
            Seq::<u32>::empty()
        } else {
            seq![pod_member_set(m).len() as u32]
        }),
{
    let s = strong_actors(m);
    let p = |a: Seq<char>| strong_partners(m, a) >= 3;
    lemma_strong_actors(m);
    lemma_member_count_set(s, m);
    assert(pod_member_set(m) =~= s.to_set().filter(p)) by {
        assert forall|a: Seq<char>| pod_member_set(m).contains(a) == s.to_set().filter(p).contains(a) by {
            lemma_strong_partners_positive(m, a);
            assert(s.contains(a) == in_strong_pair(m, a));
        }
    }
}

/// The distinct actors of the strong pairs, in order of first occurrence.
pub open spec fn strong_actors(m: Seq<PairCount>) -> Seq<Seq<char>>
    decreases m.len(),
{
    if m.len() == 0 {
        Seq::empty()
    } else if m.last().count >= strong_threshold() {
        add_text(add_text(strong_actors(m.drop_last()), m.last().first@), m.last().second@)
    } else {
        strong_actors(m.drop_last())
    }
}

/// How many of `actors` have at least 3 strong partners in `m`.
pub open spec fn pod_member_count(actors: Seq<Seq<char>>, m: Seq<PairCount>) -> int
    decreases actors.len(),
{
    if actors.len() == 0 {
        0
    } else {
        pod_member_count(actors.drop_last(), m)
            + (if strong_partners(m, actors.last()) >= 3 { 1int } else { 0int })
    }
}

/// The estimated pod ring sizes: one ring holding every actor with at least
/// 3 strong partners, or no ring when there is no such actor.
pub open spec fn ring_sizes_of(m: Seq<PairCount>) -> Seq<u32> {
    let c = pod_member_count(strong_actors(m), m);
    if c == 0 { Seq::empty() } else { seq![c as u32] }
}

proof fn lemma_count_shared_take(d: Seq<Seq<char>>, e: Seq<Engagement>, x: Seq<char>, y: Seq<char>, k: int)
    requires
        0 <= k <= d.len(),
    ensures
        count_shared(d.take(k), e, x, y) <= count_shared(d, e, x, y),
    decreases d.len() - k,
{
    if k < d.len() {
        lemma_count_shared_take(d, e, x, y, k + 1);
        assert(d.take(k + 1).drop_last() =~= d.take(k));
    } else {
        assert(d.take(k) =~= d);
    }
}

proof fn lemma_distinct_contents_len(events: Seq<Engagement>)
    ensures
        distinct_contents(events).len() <= events.len(),
    decreases events.len(),
{
    if events.len() > 0 {
        lemma_distinct_contents_len(events.drop_last());
    }
}

proof fn lemma_has_str_texts(v: Seq<String>, s: Seq<char>)
    ensures
        has_str(v, s) == texts(v).contains(s),
{
    if has_str(v, s) {
        let i = choose|i: int| 0 <= i < v.len() && (#[trigger] v[i])@ == s;
        assert(texts(v)[i] == s);
    }
    if texts(v).contains(s) {
        let i = choose|i: int| 0 <= i < texts(v).len() && texts(v)[i] == s;
        assert(v[i]@ == s);
    }
}

/// The actors that engaged with `content`, in event order.
fn actors_of(events: &Vec<Engagement>, content: &String) -> (r: Vec<String>)
    ensures
        forall|x: Seq<char>| #[trigger] has_str(r@, x) == engaged(events@, x, content@),
{
    let mut out: Vec<String> = Vec::new();
    let n = events.len();
    for i in 0..n
        invariant
            n == events@.len(),
            forall|x: Seq<char>| #[trigger] has_str(out@, x) == engaged(events@.take(i as int), x, content@),
    {
        let ghost before = out@;
        let hit = events[i].content_id == *content;
        if hit {
            out.push(events[i].actor_id.clone());
        }
        assert(hit ==> out@ == before.push(events@[i as int].actor_id));
        assert(!hit ==> out@ == before);
        assert forall|x: Seq<char>| #[trigger] has_str(out@, x) == engaged(events@.take(i + 1), x, content@) by {
            let t = events@.take(i + 1);
            let t0 = events@.take(i as int);
            if has_str(out@, x) {
                let k = choose|k: int| 0 <= k < out@.len() && (#[trigger] out@[k])@ == x;
                if k < before.len() {
                    assert(out@[k] == before[k]);
                    assert(has_str(before, x));
                    let w = choose|w: int| 0 <= w < t0.len() && (#[trigger] t0[w]).actor_id@ == x && t0[w].content_id@ == content@;
                    assert(t[w] == t0[w]);
                } else {
                    assert(t[i as int] == events@[i as int]);
                }
            }
            if engaged(t, x, content@) {
                let w = choose|w: int| 0 <= w < t.len() && (#[trigger] t[w]).actor_id@ == x && t[w].content_id@ == content@;
                if w < i {
                    assert(t0[w] == t[w]);
                    assert(engaged(t0, x, content@));
                    assert(has_str(before, x));
                    let k = choose|k: int| 0 <= k < before.len() && (#[trigger] before[k])@ == x;
                    assert(out@[k] == before[k]);
                } else {
                    assert(out@[before.len() as int]@ == x);
                }
            }
        }
    }
    assert(events@.take(n as int) =~= events@);
    out
}

/// Counts of co-engagement between pairs of actors.
pub struct ReciprocalCounts {
    pairs: Vec<PairCount>,
}

impl View for ReciprocalCounts {
    type V = Seq<PairCount>;

    closed spec fn view(&self) -> Seq<PairCount> {
        self.pairs@
    }
}

impl ReciprocalCounts {
    /// The recorded pairs are well formed.
    pub open spec fn wf(&self) -> bool {
        pairs_wf(self@)
    }

    /// No pair recorded.
    pub fn new() -> (r: Self)
        ensures
            r.wf(),
            r@ == Seq::<PairCount>::empty(),
    {
        ReciprocalCounts { pairs: Vec::new() }
    }

    /// Forget every recorded pair.
    pub fn clear(&mut self)
        ensures
            final(self).wf(),
            final(self)@ == Seq::<PairCount>::empty(),
    {
        self.pairs.clear();
    }

    /// Record a batch of engagements: every pair of distinct actors gains the
    /// number of distinct pieces of content that both engaged with.
    pub fn record_events(&mut self, events: &Vec<Engagement>)
        requires
            old(self).wf(),
            forall|x: Seq<char>, y: Seq<char>| #[trigger] pair_count(old(self)@, x, y) + co_engaged(events@, x, y)
                <= u32::MAX,
        ensures
            final(self).wf(),
            forall|x: Seq<char>, y: Seq<char>| #[trigger] pair_count(final(self)@, x, y)
                == pair_count(old(self)@, x, y) + co_engaged(events@, x, y),
    {
        let ghost m0 = self.pairs@;
        assert(m0 == old(self)@);
        let ghost e = events@;
        let n = events.len();
        let mut contents: Vec<String> = Vec::new();
        for i in 0..n
            invariant
                n == e.len(),
                e == events@,
                texts(contents@) == distinct_contents(e.take(i as int)),
        {
            let ghost before = contents@;
            proof { lemma_has_str_texts(contents@, events@[i as int].content_id@); }
            if !contains_str(&contents, &events[i].content_id) {
                contents.push(events[i].content_id.clone());
            }
            assert(e.take(i + 1).drop_last() =~= e.take(i as int));
            assert(texts(contents@) =~= distinct_contents(e.take(i + 1)));
        }
        assert(e.take(n as int) =~= e);
        let ghost d = distinct_contents(e);
        proof { lemma_distinct_contents_len(e); }
        let nc = contents.len();
        for c in 0..nc
            invariant
                nc == d.len(),
                d == distinct_contents(e),
                d.len() <= e.len(),
                e == events@,
                texts(contents@) == d,
                self.wf(),
                pairs_wf(m0),
                forall|x: Seq<char>, y: Seq<char>| #[trigger] pair_count(m0, x, y) + co_engaged(e, x, y) <= u32::MAX,
                forall|x: Seq<char>, y: Seq<char>| #[trigger] pair_count(self@, x, y)
                    == pair_count(m0, x, y) + (if x != y { count_shared(d.take(c as int), e, x, y) } else { 0int }),
        {
            let ghost before = self@;
            let actors = actors_of(events, &contents[c]);
            assert(contents@[c as int]@ == d[c as int]);
            assert(d.take(c + 1).drop_last() =~= d.take(c as int));
            assert forall|x: Seq<char>, y: Seq<char>| x != y && has_str(actors@, x) && has_str(actors@, y)
                implies #[trigger] pair_count(self@, x, y) < u32::MAX by {
                lemma_count_shared_take(d, e, x, y, c + 1);
                assert(engaged(e, x, d[c as int]) && engaged(e, y, d[c as int]));
                assert(d.take(c + 1).last() == d[c as int]);
                assert(count_shared(d.take(c + 1), e, x, y) == count_shared(d.take(c as int), e, x, y) + 1);
                assert(pair_count(m0, x, y) + co_engaged(e, x, y) <= u32::MAX);
                assert(pair_count(self@, x, y) == pair_count(m0, x, y) + count_shared(d.take(c as int), e, x, y));
                assert(d.take(c + 1).last() == d[c as int]);
            }
            self.record_content(&actors);
            assert(d.take(c + 1).drop_last() =~= d.take(c as int));
            assert forall|x: Seq<char>, y: Seq<char>| #[trigger] pair_count(self@, x, y)
                == pair_count(m0, x, y) + (if x != y { count_shared(d.take(c + 1), e, x, y) } else { 0int }) by {
                assert(pair_count(before, x, y) == pair_count(m0, x, y)
                    + (if x != y { count_shared(d.take(c as int), e, x, y) } else { 0int }));
                assert(d.take(c + 1).last() == d[c as int]);
            }
        }
        assert(d.take(nc as int) =~= d);
    }

    /// The number of strong reciprocal partners of `actor`: recorded pairs
    /// involving `actor` that co-engaged on at least 3 pieces of content.
    pub fn strong_partner_count(&self, actor: &str) -> (r: usize)
        ensures
            r == strong_partners(self@, actor@),
    {
        let a = String::from_str(actor);
        let n = self.pairs.len();
        let mut count: usize = 0;
        for i in 0..n
            invariant
                n == self.pairs@.len(),
                a@ == actor@,
                count <= i,
                count == strong_partners(self.pairs@.take(i as int), actor@),
        {
            assert(self.pairs@.take(i + 1).drop_last() =~= self.pairs@.take(i as int));
            if (self.pairs[i].first == a || self.pairs[i].second == a) && self.pairs[i].count >= 3 {
                count = count + 1;
            }
        }
        assert(self.pairs@.take(n as int) =~= self.pairs@);
        count
    }

    /// Estimated pod ring sizes: one ring made of every actor with at least
    /// 3 strong reciprocal partners, or none.
    pub fn ring_sizes(&self) -> (r: Vec<u32>)
        ensures
            r@ == ring_sizes_of(self@),
    {
        let ghost m = self.pairs@;
        let n = self.pairs.len();
        let mut actors: Vec<String> = Vec::new();
        for i in 0..n
            invariant
                n == m.len(),
                m == self.pairs@,
                texts(actors@) == strong_actors(m.take(i as int)),
        {
            assert(m.take(i + 1).drop_last() =~= m.take(i as int));
            if self.pairs[i].count >= 3 {
                proof { lemma_has_str_texts(actors@, m[i as int].first@); }
                if !contains_str(&actors, &self.pairs[i].first) {
                    actors.push(self.pairs[i].first.clone());
                }
                assert(texts(actors@) =~= add_text(strong_actors(m.take(i as int)), m[i as int].first@));
                proof { lemma_has_str_texts(actors@, m[i as int].second@); }
                if !contains_str(&actors, &self.pairs[i].second) {
                    actors.push(self.pairs[i].second.clone());
                }
                assert(texts(actors@) =~= add_text(add_text(strong_actors(m.take(i as int)), m[i as int].first@), m[i as int].second@));
            }
        }
        assert(m.take(n as int) =~= m);
        let ghost sa = strong_actors(m);
        let k = actors.len();
        let mut members: usize = 0;
        for j in 0..k
            invariant
                k == sa.len(),
                texts(actors@) == sa,
                m == self@,
                members <= j,
                members == pod_member_count(sa.take(j as int), m),
        {
            assert(sa.take(j + 1).drop_last() =~= sa.take(j as int));
            assert(actors@[j as int]@ == sa[j as int]);
            if self.strong_partner_count(actors[j].as_str()) >= 3 {
                members = members + 1;
            }
        }
        assert(sa.take(k as int) =~= sa);
        if members == 0 {
            Vec::new()
        } else {
            let mut out: Vec<u32> = Vec::new();
            out.push(members as u32);
            assert(out@ =~= seq![members as u32]);
            out
        }
    }

    /// Record one piece of content: every unordered pair of distinct actors
    /// among `actors` (repetitions ignored) gains one co-engagement.
    fn record_content(&mut self, actors: &Vec<String>)
        requires
            old(self).wf(),
            forall|x: Seq<char>, y: Seq<char>| x != y && has_str(actors@, x) && has_str(actors@, y)
                ==> #[trigger] pair_count(old(self)@, x, y) < u32::MAX,
        ensures
            final(self).wf(),
            forall|x: Seq<char>, y: Seq<char>| #[trigger] pair_count(final(self)@, x, y)
                == pair_count(old(self)@, x, y)
                + (if x != y && has_str(actors@, x) && has_str(actors@, y) { 1int } else { 0int }),
    {
        let ghost m0 = self.pairs@;
        assert(m0 == old(self)@);
        let uniq = distinct_texts(actors);
        let k = uniq.len();
        proof {
            assert forall|x: Seq<char>, y: Seq<char>| #[trigger] pair_count(self@, x, y)
                == pair_count(m0, x, y) + (if pair_done(uniq@, x, y, 0, 1) { 1int } else { 0int }) by {
                lemma_done_start(uniq@, x, y);
            }
        }
        for i in 0..k
            invariant
                k == uniq@.len(),
                distinct_strs(uniq@),
                self.wf(),
                pairs_wf(m0),
                forall|s: Seq<char>| #[trigger] has_str(uniq@, s) == has_str(actors@, s),
                forall|x: Seq<char>, y: Seq<char>| x != y && has_str(actors@, x) && has_str(actors@, y)
                    ==> #[trigger] pair_count(m0, x, y) < u32::MAX,
                forall|x: Seq<char>, y: Seq<char>| #[trigger] pair_count(self@, x, y)
                    == pair_count(m0, x, y) + (if pair_done(uniq@, x, y, i as int, i + 1) { 1int } else { 0int }),
        {
            for j in (i + 1)..k
                invariant
                    k == uniq@.len(),
                    i < k,
                    distinct_strs(uniq@),
                    self.wf(),
                    pairs_wf(m0),
                    forall|s: Seq<char>| #[trigger] has_str(uniq@, s) == has_str(actors@, s),
                    forall|x: Seq<char>, y: Seq<char>| x != y && has_str(actors@, x) && has_str(actors@, y)
                        ==> #[trigger] pair_count(m0, x, y) < u32::MAX,
                    forall|x: Seq<char>, y: Seq<char>| #[trigger] pair_count(self@, x, y)
                        == pair_count(m0, x, y) + (if pair_done(uniq@, x, y, i as int, j as int) { 1int } else { 0int }),
            {
                let ghost before = self.pairs@;
                proof {
                    lemma_done_step(uniq@, uniq@[i as int]@, uniq@[j as int]@, i as int, j as int);
                    assert(has_str(uniq@, uniq@[i as int]@) && has_str(uniq@, uniq@[j as int]@));
                    assert(pair_count(self@, uniq@[i as int]@, uniq@[j as int]@) == pair_count(m0, uniq@[i as int]@, uniq@[j as int]@)
                        + (if pair_done(uniq@, uniq@[i as int]@, uniq@[j as int]@, i as int, j as int) { 1int } else { 0int }));
                    assert(before == self@);
                }
                self.increment(&uniq[i], &uniq[j]);
                proof {
                    assert forall|x: Seq<char>, y: Seq<char>| #[trigger] pair_count(self@, x, y)
                        == pair_count(m0, x, y) + (if pair_done(uniq@, x, y, i as int, j + 1) { 1int } else { 0int }) by {
                        lemma_done_step(uniq@, x, y, i as int, j as int);
                        assert(pair_count(before, x, y) == pair_count(m0, x, y)
                            + (if pair_done(uniq@, x, y, i as int, j as int) { 1int } else { 0int }));
                    }
                }
            }
            proof {
                assert forall|x: Seq<char>, y: Seq<char>| #[trigger] pair_count(self@, x, y)
                    == pair_count(m0, x, y) + (if pair_done(uniq@, x, y, i + 1, i + 2) { 1int } else { 0int }) by {
                    lemma_done_row(uniq@, x, y, i as int);
                    if i + 1 == k {
                        assert(pair_count(self@, x, y) == pair_count(m0, x, y)
                            + (if pair_done(uniq@, x, y, i as int, i + 1) { 1int } else { 0int }));
                        assert(pair_done(uniq@, x, y, i as int, i + 1) == pair_done(uniq@, x, y, i as int, k as int));
                    }
                }
            }
        }
        proof {
            assert forall|x: Seq<char>, y: Seq<char>| #[trigger] pair_count(self@, x, y)
                == pair_count(m0, x, y) + (if x != y && has_str(actors@, x) && has_str(actors@, y) { 1int } else { 0int }) by {
                lemma_done_all(uniq@, x, y);
                assert(has_str(uniq@, x) == has_str(actors@, x));
                assert(has_str(uniq@, y) == has_str(actors@, y));
            }
        }
    }

    /// Add one to the count of the unordered pair {a, b}.
    fn increment(&mut self, a: &String, b: &String)
        requires
            old(self).wf(),
            a@ != b@,
            pair_count(old(self)@, a@, b@) < u32::MAX,
        ensures
            final(self).wf(),
            forall|x: Seq<char>, y: Seq<char>| #[trigger] pair_count(final(self)@, x, y)
                == pair_count(old(self)@, x, y) + (if (x == a@ && y == b@) || (x == b@ && y == a@) { 1int } else { 0int }),
    {
        let ghost m = self.pairs@;
        let n = self.pairs.len();
        let mut i: usize = 0;
        while i < n
            invariant
                n == m.len(),
                self.pairs@ == m,
                old(self)@ == m,
                pairs_wf(m),
                a@ != b@,
                pair_count(m, a@, b@) < u32::MAX,
                0 <= i <= n,
                forall|j: int| 0 <= j < i ==> !links(#[trigger] m[j], a@, b@),
            decreases n - i,
        {
            let found = (self.pairs[i].first == *a && self.pairs[i].second == *b)
                || (self.pairs[i].first == *b && self.pairs[i].second == *a);
            if found {
                proof { lemma_pair_count_at(m, a@, b@, i as int); }
                let mut p = self.pairs.remove(i);
                p.count = p.count + 1;
                self.pairs.insert(i, p);
                let ghost m2 = self.pairs@;
                assert(m2 =~= m.update(i as int, PairCount { count: (m[i as int].count + 1) as u32, ..m[i as int] }));
                assert(pairs_wf(m2)) by {
                    assert forall|p: int, q: int| 0 <= p < q < m2.len() implies !links(#[trigger] m2[q], (#[trigger] m2[p]).first@, m2[p].second@) by {
                        assert(!links(m[q], m[p].first@, m[p].second@));
                    }
                }
                assert forall|x: Seq<char>, y: Seq<char>| #[trigger] pair_count(m2, x, y)
                    == pair_count(m, x, y) + (if (x == a@ && y == b@) || (x == b@ && y == a@) { 1int } else { 0int }) by {
                    if links(m[i as int], x, y) {
                        lemma_pair_count_at(m, x, y, i as int);
                        lemma_pair_count_at(m2, x, y, i as int);
                    } else if exists|k: int| 0 <= k < m.len() && links(#[trigger] m[k], x, y) {
                        let k = choose|k: int| 0 <= k < m.len() && links(#[trigger] m[k], x, y);
                        lemma_pair_count_at(m, x, y, k);
                        lemma_pair_count_at(m2, x, y, k);
                    } else {
                        assert(!exists|k: int| 0 <= k < m2.len() && links(#[trigger] m2[k], x, y)) by {
                            if exists|k: int| 0 <= k < m2.len() && links(#[trigger] m2[k], x, y) {
                                let k = choose|k: int| 0 <= k < m2.len() && links(#[trigger] m2[k], x, y);
                                assert(links(m[k], x, y));
                            }
                        }
                    }
                }
                return;
            }
            i = i + 1;
        }
        self.pairs.push(PairCount { first: a.clone(), second: b.clone(), count: 1 });
        let ghost m2 = self.pairs@;
        assert(m2 =~= m.push(PairCount { first: *a, second: *b, count: 1 }));
        assert(pairs_wf(m2)) by {
            assert forall|p: int, q: int| 0 <= p < q < m2.len() implies !links(#[trigger] m2[q], (#[trigger] m2[p]).first@, m2[p].second@) by {
                if q < m.len() {
                    assert(!links(m[q], m[p].first@, m[p].second@));
                } else {
                    assert(!links(m[p], a@, b@));
                }
            }
        }
        assert forall|x: Seq<char>, y: Seq<char>| #[trigger] pair_count(m2, x, y)
            == pair_count(m, x, y) + (if (x == a@ && y == b@) || (x == b@ && y == a@) { 1int } else { 0int }) by {
            if (x == a@ && y == b@) || (x == b@ && y == a@) {
                lemma_pair_count_at(m2, x, y, m.len() as int);
                assert(!exists|k: int| 0 <= k < m.len() && links(#[trigger] m[k], x, y));
            } else if exists|k: int| 0 <= k < m.len() && links(#[trigger] m[k], x, y) {
                let k = choose|k: int| 0 <= k < m.len() && links(#[trigger] m[k], x, y);
                lemma_pair_count_at(m, x, y, k);
                lemma_pair_count_at(m2, x, y, k);
            } else {
                assert(!exists|k: int| 0 <= k < m2.len() && links(#[trigger] m2[k], x, y)) by {
                    if exists|k: int| 0 <= k < m2.len() && links(#[trigger] m2[k], x, y) {
                        let k = choose|k: int| 0 <= k < m2.len() && links(#[trigger] m2[k], x, y);
                        assert(links(m[k], x, y));
                    }
                }
            }
        }
    }
}

} // verus!
