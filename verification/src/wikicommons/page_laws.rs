//! What holds of the order in which pages come out of an answer.

use crate::wikicommons::pages::{
    in_rank_order, is_ranking, lemma_ranking_is_complete, ordered_pages, outranks, pages_at, rank,
    ranked, MediawikiPage, MediawikiResponse,
};
use vstd::prelude::*;
use vstd::relations::total_ordering;

verus! {

/// The pages of any answer can be put in the order of their ranks.
pub proof fn pages_can_be_ranked(pages: Seq<MediawikiPage>)
    ensures
        in_rank_order(pages, ranked(pages)),
{
    let leq = |a: int, b: int| a == b || outranks(pages, a, b);
    let places = Seq::new(pages.len(), |i: int| i);
    let order = places.sort_by(leq);
    assert(total_ordering(leq));
    places.lemma_sort_by_ensures(leq);
    places.lemma_multiset_has_no_duplicates();
    order.lemma_multiset_has_no_duplicates_conv();
    places.to_multiset_ensures();
    order.to_multiset_ensures();
    assert(order.len() == pages.len());
    assert forall|i: int| 0 <= i < order.len() implies 0 <= #[trigger] order[i] < pages.len() by {
        assert(order.contains(order[i]));
        assert(places.contains(order[i]));
    }
    assert forall|i: int, j: int| 0 <= i < j < order.len() implies outranks(
        pages,
        #[trigger] order[i],
        #[trigger] order[j],
    ) by {
        assert(leq(order[i], order[j]));
    }
    assert(is_ranking(pages, order));
    assert(in_rank_order(pages, pages_at(pages, order)));
}

/// No page is lost, none is made up, and a page comes after every page of a better
/// rank.
pub proof fn ranked_pages_are_the_pages_by_rank(pages: Seq<MediawikiPage>)
    ensures
        ranked(pages).len() == pages.len(),
        forall|page: MediawikiPage| #[trigger]
            ranked(pages).contains(page) <==> pages.contains(page),
        forall|i: int, j: int|
            0 <= i < j < ranked(pages).len() ==> rank(#[trigger] ranked(pages)[i]) <= rank(
                #[trigger] ranked(pages)[j],
            ),
{
    pages_can_be_ranked(pages);
    let out = ranked(pages);
    let order = choose|order: Seq<int>| #[trigger]
        is_ranking(pages, order) && out == pages_at(pages, order);
    assert forall|page: MediawikiPage| #[trigger] out.contains(page) <==> pages.contains(page) by {
        if out.contains(page) {
            let i = choose|i: int| 0 <= i < out.len() && out[i] == page;
            assert(pages[order[i]] == page);
        }
        if pages.contains(page) {
            let p = choose|p: int| 0 <= p < pages.len() && pages[p] == page;
            lemma_ranking_is_complete(pages, order, p);
            let i = choose|i: int| 0 <= i < order.len() && order[i] == p;
            assert(out[i] == page);
        }
    }
    assert forall|i: int, j: int| 0 <= i < j < out.len() implies rank(#[trigger] out[i]) <= rank(
        #[trigger] out[j],
    ) by {
        assert(outranks(pages, order[i], order[j]));
    }
}

/// Whether no two pages have the same rank.
pub open spec fn ranks_differ(pages: Seq<MediawikiPage>) -> bool {
    forall|i: int, j: int|
        0 <= i < j < pages.len() ==> rank(#[trigger] pages[i]) != rank(#[trigger] pages[j])
}

proof fn lemma_ranked_ranks_differ(pages: Seq<MediawikiPage>)
    requires
        ranks_differ(pages),
    ensures
        forall|i: int, j: int|
            0 <= i < j < ranked(pages).len() ==> rank(#[trigger] ranked(pages)[i]) < rank(
                #[trigger] ranked(pages)[j],
            ),
{
    pages_can_be_ranked(pages);
    let out = ranked(pages);
    let order = choose|order: Seq<int>| #[trigger]
        is_ranking(pages, order) && out == pages_at(pages, order);
    assert forall|i: int, j: int| 0 <= i < j < out.len() implies rank(#[trigger] out[i]) < rank(
        #[trigger] out[j],
    ) by {
        assert(outranks(pages, order[i], order[j]));
        if order[i] < order[j] {
            assert(rank(pages[order[i]]) != rank(pages[order[j]]));
        }
    }
}

proof fn lemma_same_place(a: Seq<MediawikiPage>, b: Seq<MediawikiPage>, i: int)
    requires
        forall|j: int, k: int|
            0 <= j < k < a.len() ==> rank(#[trigger] a[j]) < rank(#[trigger] a[k]),
        forall|j: int, k: int|
            0 <= j < k < b.len() ==> rank(#[trigger] b[j]) < rank(#[trigger] b[k]),
        forall|page: MediawikiPage| #[trigger] a.contains(page) <==> b.contains(page),
        0 <= i < a.len(),
        i < b.len(),
    ensures
        a[i] == b[i],
    decreases i,
{
    assert forall|k: int| 0 <= k < i implies a[k] == b[k] by {
        lemma_same_place(a, b, k);
    }
    if a[i] != b[i] {
        assert(a.contains(a[i]) && b.contains(b[i]));
        assert(b.contains(a[i]) && a.contains(b[i]));
        let t = choose|t: int| 0 <= t < b.len() && b[t] == a[i];
        let u = choose|u: int| 0 <= u < a.len() && a[u] == b[i];
        if t < i {
            assert(rank(a[t]) < rank(a[i]));
        } else if u < i {
            assert(rank(b[u]) < rank(b[i]));
        } else {
            assert(rank(b[i]) < rank(b[t]));
            assert(rank(a[i]) < rank(a[u]));
        }
    }
}

/// Where no two pages have the same rank, the order of the pages in an answer has no
/// part in the order in which they come out.
pub proof fn ranking_ignores_the_order_of_arrival(a: Seq<MediawikiPage>, b: Seq<MediawikiPage>)
    requires
        ranks_differ(a),
        ranks_differ(b),
        forall|page: MediawikiPage| #[trigger] a.contains(page) <==> b.contains(page),
    ensures
        ranked(a) == ranked(b),
{
    ranked_pages_are_the_pages_by_rank(a);
    ranked_pages_are_the_pages_by_rank(b);
    lemma_ranked_ranks_differ(a);
    lemma_ranked_ranks_differ(b);
    let x = ranked(a);
    let y = ranked(b);
    assert forall|page: MediawikiPage| #[trigger] x.contains(page) <==> y.contains(page) by {
        assert(a.contains(page) <==> b.contains(page));
    }
    if x.len() > y.len() {
        lemma_not_longer(x, y);
    }
    if y.len() > x.len() {
        lemma_not_longer(y, x);
    }
    assert forall|i: int| 0 <= i < x.len() implies x[i] == y[i] by {
        lemma_same_place(x, y, i);
    }
    assert(x =~= y);
}

proof fn lemma_not_longer(a: Seq<MediawikiPage>, b: Seq<MediawikiPage>)
    requires
        forall|j: int, k: int|
            0 <= j < k < a.len() ==> rank(#[trigger] a[j]) < rank(#[trigger] a[k]),
        forall|j: int, k: int|
            0 <= j < k < b.len() ==> rank(#[trigger] b[j]) < rank(#[trigger] b[k]),
        forall|page: MediawikiPage| #[trigger] a.contains(page) <==> b.contains(page),
    ensures
        a.len() <= b.len(),
{
    if a.len() > b.len() {
        let n = b.len() as int;
        assert(a.contains(a[n]));
        let t = choose|t: int| 0 <= t < b.len() && b[t] == a[n];
        lemma_same_place(a, b, t);
        assert(rank(a[t]) < rank(a[n]));
    }
}

/// Whether positions below `n` are listed, each of them once.
pub open spec fn lists_each_once(order: Seq<int>, n: nat) -> bool {
    &&& order.len() == n
    &&& order.no_duplicates()
    &&& forall|i: int| 0 <= i < order.len() ==> 0 <= #[trigger] order[i] < n
}

/// The pages of an answer come out each once, as they are. A page with a place among the hits
/// comes before those whose place is behind it, and a page without a place comes before none
/// that has one, but for one with the last place that there can be.
pub proof fn pages_come_out_once_and_by_place(response: MediawikiResponse)
    ensures
        response.query is None ==> ordered_pages(response).len() == 0,
        response.query matches Some(query) ==> exists|order: Seq<int>| #[trigger]
            lists_each_once(order, query.pages@.len()) && ordered_pages(response) == Seq::new(
                order.len(),
                |i: int| query.pages@[order[i]],
            ),
        forall|i: int, j: int|
            #![trigger ordered_pages(response)[i], ordered_pages(response)[j]]
            0 <= i < j < ordered_pages(response).len() ==> match (
                ordered_pages(response)[i].index,
                ordered_pages(response)[j].index,
            ) {
                (Some(a), Some(b)) => a <= b,
                (None, Some(b)) => b == 0xffff_ffff,
                (_, None) => true,
            },
{
    if let Some(query) = response.query {
        let pages = query.pages@;
        let out = ranked(pages);
        pages_can_be_ranked(pages);
        ranked_pages_are_the_pages_by_rank(pages);
        let order = choose|order: Seq<int>| #[trigger]
            is_ranking(pages, order) && out == pages_at(pages, order);
        assert(order.no_duplicates()) by {
            assert forall|i: int, j: int| 0 <= i < order.len() && 0 <= j < order.len() && i
                != j implies order[i] != order[j] by {
                if i < j {
                    assert(outranks(pages, order[i], order[j]));
                } else {
                    assert(outranks(pages, order[j], order[i]));
                }
            }
        }
        assert(lists_each_once(order, pages.len()));
        assert(out =~= Seq::new(order.len(), |i: int| pages[order[i]]));
        assert forall|i: int, j: int|
            #![trigger out[i], out[j]]
            0 <= i < j < out.len() implies match (out[i].index, out[j].index) {
            (Some(a), Some(b)) => a <= b,
            (None, Some(b)) => b == 0xffff_ffff,
            (_, None) => true,
        } by {
            assert(rank(out[i]) <= rank(out[j]));
        }
    }
}

} // verus!
