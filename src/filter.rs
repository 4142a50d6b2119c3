//! Fuzzy filtering of a list of items: each item is scored against the query
//! by the skim algorithm, non-matching items drop out, and the rest are
//! ordered by descending score, equal scores keeping their list order.
use crate::text::string_views;
use fuzzy_matcher::skim::SkimMatcherV2;
use fuzzy_matcher::FuzzyMatcher;
use vstd::prelude::*;

verus! {

/// The score that the skim algorithm, with its default settings, gives
/// `choice` for `pattern`, or `None` where `pattern` does not match.
pub uninterp spec fn skim_score(choice: Seq<char>, pattern: Seq<char>) -> Option<i64>;

/// Relies on `fuzzy_matcher::skim::SkimMatcherV2::default()` and its
/// `fuzzy_match`: the result depends on the two strings alone, and an empty
/// pattern matches every choice with score 0.
#[verifier::external_body]
fn fuzzy_score(choice: &str, pattern: &str) -> (r: Option<i64>)
    ensures
        r == skim_score(choice@, pattern@),
        pattern@.len() == 0 ==> r == Some(0i64),
{
    SkimMatcherV2::default().fuzzy_match(choice, pattern)
}

/// An item with its score.
pub type Entry = (Seq<char>, i64);

pub open spec fn entry_views(v: Seq<(String, i64)>) -> Seq<Entry> {
    v.map_values(|e: (String, i64)| (e.0@, e.1))
}

/// `sorted` with `x` placed after every entry whose score is at least that
/// of `x`.
pub open spec fn insert_desc(sorted: Seq<Entry>, x: Entry) -> Seq<Entry>
    decreases sorted.len(),
{
    if sorted.len() == 0 {
        seq![x]
    } else if sorted.last().1 >= x.1 {
        sorted.push(x)
    } else {
        insert_desc(sorted.drop_last(), x).push(sorted.last())
    }
}

/// `s` sorted by descending score; entries of equal score keep their order.
pub open spec fn ranked(s: Seq<Entry>) -> Seq<Entry>
    decreases s.len(),
{
    if s.len() == 0 {
        s
    } else {
        insert_desc(ranked(s.drop_last()), s.last())
    }
}

/// The items whose score is `Some`, each with its score, in list order.
pub open spec fn scored(items: Seq<Seq<char>>, scores: Seq<Option<i64>>) -> Seq<Entry>
    decreases items.len(),
{
    if items.len() == 0 || scores.len() == 0 {
        Seq::<Entry>::empty()
    } else {
        let rest = scored(items.drop_last(), scores.drop_last());
        match scores.last() {
            Some(v) => rest.push((items.last(), v)),
            None => rest,
        }
    }
}

/// Every item with score 0, in list order.
pub open spec fn unscored(items: Seq<Seq<char>>) -> Seq<Entry> {
    items.map_values(|it: Seq<char>| (it, 0i64))
}

/// The skim score of each item for `query`.
pub open spec fn item_scores(items: Seq<Seq<char>>, query: Seq<char>) -> Seq<Option<i64>> {
    items.map_values(|it: Seq<char>| skim_score(it, query))
}

/// What the list shows for `query`: the whole list with score 0 for an empty
/// query, else the matching items ranked by score.
pub open spec fn filtered(items: Seq<Seq<char>>, query: Seq<char>) -> Seq<Entry> {
    if query.len() == 0 {
        unscored(items)
    } else {
        ranked(scored(items, item_scores(items, query)))
    }
}

pub open spec fn sorted_desc(s: Seq<Entry>) -> bool {
    forall|i: int, j: int| 0 <= i < j < s.len() ==> s[i].1 >= s[j].1
}

proof fn lemma_insert_at(s: Seq<Entry>, x: Entry, k: int)
    requires
        0 <= k <= s.len(),
        forall|j: int| k <= j < s.len() ==> s[j].1 < x.1,
        k > 0 ==> s[k - 1].1 >= x.1,
    ensures
        insert_desc(s, x) == s.subrange(0, k).push(x) + s.subrange(k, s.len() as int),
    decreases s.len(),
{
    if s.len() == 0 {
        assert(s.subrange(0, k).push(x) + s.subrange(k, s.len() as int) =~= seq![x]);
    } else if s.len() == k {
        assert(s.subrange(0, k).push(x) + s.subrange(k, s.len() as int) =~= s.push(x));
    } else {
        let d = s.drop_last();
        lemma_insert_at(d, x, k);
        assert(d.subrange(0, k) =~= s.subrange(0, k));
        assert(s.subrange(0, k).push(x) + s.subrange(k, s.len() as int) =~= (d.subrange(
            0,
            k,
        ).push(x) + d.subrange(k, d.len() as int)).push(s.last()));
    }
}

proof fn lemma_insert_sorted(s: Seq<Entry>, x: Entry)
    requires
        sorted_desc(s),
    ensures
        sorted_desc(insert_desc(s, x)),
        insert_desc(s, x).len() == s.len() + 1,
        insert_desc(s, x).to_multiset() == s.to_multiset().insert(x),
        forall|i: int| 0 <= i < insert_desc(s, x).len() ==> insert_desc(s, x)[i].1 >= x.1 || (
        s.len() > 0 && insert_desc(s, x)[i] == s[i - 1] && i > 0),
    decreases s.len(),
{
    broadcast use vstd::seq_lib::group_to_multiset_ensures;
    if s.len() == 0 {
        assert(seq![x] =~= Seq::<Entry>::empty().push(x));
    } else if s.last().1 >= x.1 {
    } else {
        let d = s.drop_last();
        lemma_insert_sorted(d, x);
        let r = insert_desc(d, x);
        assert(s =~= d.push(s.last()));
        assert(forall|i: int| 0 <= i < r.len() ==> r[i].1 >= s.last().1) by {
            assert forall|i: int| 0 <= i < r.len() implies r[i].1 >= s.last().1 by {
                if r[i].1 >= x.1 {
                } else {
                    assert(r[i] == d[i - 1]);
                }
            }
        }
        assert forall|i: int| 0 <= i < r.push(s.last()).len() implies r.push(s.last())[i].1
            >= x.1 || (s.len() > 0 && r.push(s.last())[i] == s[i - 1] && i > 0) by {
            if i < r.len() {
                if r[i].1 < x.1 {
                    assert(r[i] == d[i - 1]);
                }
            } else {
                assert(r.push(s.last())[i] == s[i - 1]);
            }
        }
    }
}

/// The ranking is sorted by descending score, and holds the same entries as
/// its input, each as often.
pub proof fn lemma_ranked(s: Seq<Entry>)
    ensures
        sorted_desc(ranked(s)),
        ranked(s).len() == s.len(),
        ranked(s).to_multiset() == s.to_multiset(),
    decreases s.len(),
{
    broadcast use vstd::seq_lib::group_to_multiset_ensures;
    if s.len() > 0 {
        lemma_ranked(s.drop_last());
        lemma_insert_sorted(ranked(s.drop_last()), s.last());
        assert(s =~= s.drop_last().push(s.last()));
    }
}

/// The entries of `s` with score `v`, in order.
pub open spec fn with_score(s: Seq<Entry>, v: i64) -> Seq<Entry>
    decreases s.len(),
{
    if s.len() == 0 {
        s
    } else if s.last().1 == v {
        with_score(s.drop_last(), v).push(s.last())
    } else {
        with_score(s.drop_last(), v)
    }
}

proof fn lemma_insert_keeps_ties(t: Seq<Entry>, x: Entry, v: i64)
    ensures
        with_score(insert_desc(t, x), v) == if x.1 == v {
            with_score(t, v).push(x)
        } else {
            with_score(t, v)
        },
    decreases t.len(),
{
    if t.len() == 0 {
        assert(seq![x].drop_last() =~= t);
    } else if t.last().1 >= x.1 {
        assert(t.push(x).drop_last() =~= t);
    } else {
        let d = t.drop_last();
        lemma_insert_keeps_ties(d, x, v);
        let r = insert_desc(d, x);
        assert(r.push(t.last()).drop_last() =~= r);
    }
}

/// The ranking is stable: the entries of any one score come out in the
/// order in which they stood in the list.
pub proof fn lemma_ranked_stable(s: Seq<Entry>, v: i64)
    ensures
        with_score(ranked(s), v) == with_score(s, v),
    decreases s.len(),
{
    if s.len() > 0 {
        lemma_ranked_stable(s.drop_last(), v);
        lemma_insert_keeps_ties(ranked(s.drop_last()), s.last(), v);
    }
}

/// What the list shows for a non-empty query is sorted by descending score,
/// holds each matching item once per occurrence in the list, and lists items
/// of equal score in list order.
pub proof fn lemma_filtered_ordering(items: Seq<Seq<char>>, query: Seq<char>, v: i64)
    requires
        query.len() > 0,
    ensures
        sorted_desc(filtered(items, query)),
        filtered(items, query).to_multiset() == scored(items, item_scores(items, query)).to_multiset(),
        with_score(filtered(items, query), v) == with_score(scored(items, item_scores(items, query)), v),
{
    let s = scored(items, item_scores(items, query));
    lemma_ranked(s);
    lemma_ranked_stable(s, v);
}

/// An empty query shows every item in list order, each with score 0.
pub proof fn lemma_empty_query_keeps_order(items: Seq<Seq<char>>)
    ensures
        filtered(items, Seq::<char>::empty()).len() == items.len(),
        forall|i: int| 0 <= i < items.len() ==> filtered(items, Seq::<char>::empty())[i] == (items[i], 0i64),
{
}

/// Places `x` into the ranking `v`.
fn insert_ranked(v: &mut Vec<(String, i64)>, x: (String, i64))
    ensures
        entry_views(final(v)@) == insert_desc(entry_views(old(v)@), (x.0@, x.1)),
{
    let ghost s = entry_views(v@);
    let mut k = v.len();
    while k > 0 && v[k - 1].1 < x.1
        invariant
            k <= v@.len(),
            s == entry_views(v@),
            forall|j: int| k <= j < v@.len() ==> v@[j].1 < x.1,
        decreases k,
    {
        k -= 1;
    }
    proof {
        lemma_insert_at(s, (x.0@, x.1), k as int);
    }
    v.insert(k, x);
    proof {
        assert(entry_views(v@) =~= s.subrange(0, k as int).push((x.0@, x.1)) + s.subrange(
            k as int,
            s.len() as int,
        ));
    }
}

/// Ranks the items that have a score: `scores[i]` is the score of `items[i]`.
pub fn rank_matches(items: &Vec<String>, scores: &Vec<Option<i64>>) -> (r: Vec<(String, i64)>)
    requires
        items@.len() == scores@.len(),
    ensures
        entry_views(r@) == ranked(scored(string_views(items@), scores@)),
{
    let mut out: Vec<(String, i64)> = Vec::new();
    let mut i: usize = 0;
    while i < items.len()
        invariant
            i <= items@.len(),
            items@.len() == scores@.len(),
            entry_views(out@) == ranked(
                scored(string_views(items@).subrange(0, i as int), scores@.subrange(0, i as int)),
            ),
        decreases items@.len() - i,
    {
        let ghost is = string_views(items@).subrange(0, i as int + 1);
        let ghost ss = scores@.subrange(0, i as int + 1);
        proof {
            assert(is.drop_last() =~= string_views(items@).subrange(0, i as int));
            assert(ss.drop_last() =~= scores@.subrange(0, i as int));
            assert(is.last() == items@[i as int]@);
        }
        match scores[i] {
            Some(v) => {
                let item = items[i].clone();
                proof {
                    let sc = scored(is, ss);
                    assert(sc.drop_last() =~= scored(is.drop_last(), ss.drop_last()));
                }
                insert_ranked(&mut out, (item, v));
            },
            None => {},
        }
        i += 1;
    }
    proof {
        assert(string_views(items@).subrange(0, i as int) =~= string_views(items@));
        assert(scores@.subrange(0, i as int) =~= scores@);
    }
    out
}

/// The items that match `query`, ranked; every item, with score 0, for an
/// empty query.
pub fn filter_entries(items: &Vec<String>, query: &str) -> (r: Vec<(String, i64)>)
    ensures
        entry_views(r@) == filtered(string_views(items@), query@),
{
    if query.unicode_len() == 0 {
        let mut out: Vec<(String, i64)> = Vec::new();
        let mut i: usize = 0;
        while i < items.len()
            invariant
                i <= items@.len(),
                entry_views(out@) == unscored(string_views(items@).subrange(0, i as int)),
            decreases items@.len() - i,
        {
            let item = items[i].clone();
            proof {
                assert(entry_views(out@.push((item, 0i64))) =~= entry_views(out@).push(
                    (item@, 0i64),
                ));
                assert(unscored(string_views(items@).subrange(0, i as int + 1)) =~= unscored(
                    string_views(items@).subrange(0, i as int),
                ).push((items@[i as int]@, 0i64)));
                assert(entry_views(out@.push((item, 0i64))) =~= unscored(
                    string_views(items@).subrange(0, i as int + 1),
                ));
            }
            out.push((item, 0i64));
            i += 1;
        }
        proof {
            assert(string_views(items@).subrange(0, i as int) =~= string_views(items@));
        }
        out
    } else {
        let mut scores: Vec<Option<i64>> = Vec::new();
        let mut i: usize = 0;
        while i < items.len()
            invariant
                i <= items@.len(),
                scores@ == item_scores(string_views(items@).subrange(0, i as int), query@),
            decreases items@.len() - i,
        {
            let s = fuzzy_score(items[i].as_str(), query);
            proof {
                assert(scores@.push(s) =~= item_scores(
                    string_views(items@).subrange(0, i as int + 1),
                    query@,
                ));
            }
            scores.push(s);
            i += 1;
        }
        proof {
            assert(string_views(items@).subrange(0, i as int) =~= string_views(items@));
        }
        rank_matches(items, &scores)
    }
}

} // verus!
