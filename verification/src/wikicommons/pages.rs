//! The responses of the MediaWiki Action API, as far as the feeder reads them, and
//! the order of the pages in them.

use vstd::prelude::*;
use vstd::set_lib::{lemma_int_range, lemma_subset_equality, set_int_range};

verus! {

/// The answer to a query.
pub struct MediawikiResponse {
    pub query: Option<MediawikiQuery>,
}

/// The pages that a query found, in no order that means anything.
pub struct MediawikiQuery {
    pub pages: Vec<MediawikiPage>,
}

/// A page of the wiki. A title that is not known comes back as a page that has
/// neither a number nor a file.
pub struct MediawikiPage {
    pub pageid: Option<u64>,
    pub title: Option<String>,
    /// The place of the page among the hits of a search, the best hit first.
    pub index: Option<u32>,
    pub imageinfo: Option<Vec<MediawikiImageInfo>>,
}

/// What is known of the file behind a page.
pub struct MediawikiImageInfo {
    pub url: String,
    pub mime: Option<String>,
    pub size: Option<u64>,
    /// The address of a small picture of the file, where it has one.
    pub thumburl: Option<String>,
    pub extmetadata: Option<MediawikiExtMetadata>,
}

/// What the authors of a file say of it.
pub struct MediawikiExtMetadata {
    pub artist: Option<ExtValue>,
    pub license_short_name: Option<ExtValue>,
    pub image_description: Option<ExtValue>,
    pub date_time_original: Option<ExtValue>,
    pub credit: Option<ExtValue>,
}

/// The text of one entry of the metadata.
pub struct ExtValue {
    pub value: String,
}

/// The rank of a page among the hits of a search; a page without one comes last.
pub open spec fn rank(page: MediawikiPage) -> u32 {
    match page.index {
        Some(i) => i,
        None => u32::MAX,
    }
}

/// Whether the page at position `a` comes before the page at position `b`: the
/// better rank first, and of two equal ranks the earlier position.
pub open spec fn outranks(pages: Seq<MediawikiPage>, a: int, b: int) -> bool {
    rank(pages[a]) < rank(pages[b]) || (rank(pages[a]) == rank(pages[b]) && a < b)
}

/// Whether `order` lists the position of every page, each before those that it
/// outranks.
pub open spec fn is_ranking(pages: Seq<MediawikiPage>, order: Seq<int>) -> bool {
    &&& order.len() == pages.len()
    &&& forall|i: int| 0 <= i < order.len() ==> 0 <= #[trigger] order[i] < pages.len()
    &&& forall|i: int, j: int|
        0 <= i < j < order.len() ==> outranks(pages, #[trigger] order[i], #[trigger] order[j])
}

/// The pages at the positions that `order` lists.
pub open spec fn pages_at(pages: Seq<MediawikiPage>, order: Seq<int>) -> Seq<MediawikiPage> {
    Seq::new(order.len(), |i: int| pages[order[i]])
}

/// Whether `out` holds the pages in the order of their ranks.
pub open spec fn in_rank_order(pages: Seq<MediawikiPage>, out: Seq<MediawikiPage>) -> bool {
    exists|order: Seq<int>| #[trigger] is_ranking(pages, order) && out == pages_at(pages, order)
}

/// The pages in the order of their ranks.
pub open spec fn ranked(pages: Seq<MediawikiPage>) -> Seq<MediawikiPage> {
    choose|out: Seq<MediawikiPage>| in_rank_order(pages, out)
}

/// The pages of an answer in the order of their ranks.
pub open spec fn ordered_pages(response: MediawikiResponse) -> Seq<MediawikiPage> {
    match response.query {
        None => Seq::empty(),
        Some(q) => ranked(q.pages@),
    }
}

fn rank_of(page: &MediawikiPage) -> (r: u32)
    ensures
        r == rank(*page),
{
    match page.index {
        Some(i) => i,
        None => u32::MAX,
    }
}

impl MediawikiResponse {
    /// Puts the pages of the answer in the order of their ranks: the hits of a
    /// search come in the order of their relevance, whatever order they were in.
    pub fn into_ordered_pages(self) -> (r: Vec<MediawikiPage>)
        ensures
            r@ == ordered_pages(self),
            self.query matches Some(q) ==> in_rank_order(q.pages@, r@),
    {
        let mut pages: Vec<MediawikiPage> = match self.query {
            None => {
                return Vec::new();
            },
            Some(q) => q.pages,
        };
        let ghost all = pages@;
        let ghost mut order: Seq<int> = Seq::empty();
        let mut out: Vec<MediawikiPage> = Vec::new();
        while pages.len() > 0
            invariant
                pages@ == all.take(pages@.len() as int),
                pages@.len() <= all.len(),
                order.len() == all.len() - pages@.len(),
                forall|i: int|
                    0 <= i < order.len() ==> pages@.len() <= #[trigger] order[i] < all.len(),
                forall|i: int, j: int|
                    0 <= i < j < order.len() ==> outranks(
                        all,
                        #[trigger] order[i],
                        #[trigger] order[j],
                    ),
                out@ == pages_at(all, order),
            decreases pages@.len(),
        {
            let ghost m = pages@.len() - 1;
            let page: MediawikiPage = pages.pop().unwrap();
            let own: u32 = rank_of(&page);
            let mut i: usize = 0;
            while i < out.len() && rank_of(&out[i]) < own
                invariant
                    i <= out@.len(),
                    forall|k: int| 0 <= k < i ==> rank(#[trigger] out@[k]) < own,
                decreases out@.len() - i,
            {
                i += 1;
            }
            let ghost before = order;
            assert forall|k: int| 0 <= k < before.len() implies rank(
                all[#[trigger] before[k]],
            ) == rank(out@[k]) by {}
            assert(i < before.len() ==> rank(all[before[i as int]]) >= own);
            out.insert(i, page);
            proof {
                order = before.insert(i as int, m);
                assert(page == all[m]);
                assert forall|a: int, b: int| 0 <= a < b < order.len() implies outranks(
                    all,
                    #[trigger] order[a],
                    #[trigger] order[b],
                ) by {
                    let a0 = if a < i {
                        a
                    } else {
                        a - 1
                    };
                    let b0 = if b < i {
                        b
                    } else {
                        b - 1
                    };
                    if a == i {
                        assert(order[b] == before[b0]);
                        if b0 > i {
                            assert(outranks(all, before[i as int], before[b0]));
                        }
                    } else if b == i {
                        assert(order[a] == before[a0]);
                        assert(rank(all[before[a0]]) < own);
                    } else {
                        assert(order[a] == before[a0] && order[b] == before[b0]);
                        assert(outranks(all, before[a0], before[b0]));
                    }
                }
                assert(out@ =~= pages_at(all, order));
            }
        }
        proof {
            assert(is_ranking(all, order));
            assert(in_rank_order(all, out@));
            ranking_is_unique(all, out@, ranked(all));
        }
        out
    }
}

/// A ranking lists every position.
pub proof fn lemma_ranking_is_complete(pages: Seq<MediawikiPage>, order: Seq<int>, p: int)
    requires
        is_ranking(pages, order),
        0 <= p < pages.len(),
    ensures
        order.contains(p),
{
    let n = pages.len() as int;
    assert(order.no_duplicates()) by {
        assert forall|i: int, j: int| 0 <= i < order.len() && 0 <= j < order.len() && i
            != j implies order[i] != order[j] by {
            if i < j {
                assert(outranks(pages, order[i], order[j]));
            } else {
                assert(outranks(pages, order[j], order[i]));
            }
        }
    }
    order.unique_seq_to_set();
    lemma_int_range(0, n);
    assert(order.to_set().subset_of(set_int_range(0, n)));
    lemma_subset_equality(order.to_set(), set_int_range(0, n));
    assert(order.to_set().contains(p));
}

proof fn lemma_rankings_agree(pages: Seq<MediawikiPage>, x: Seq<int>, y: Seq<int>, i: int)
    requires
        is_ranking(pages, x),
        is_ranking(pages, y),
        0 <= i < pages.len(),
    ensures
        x[i] == y[i],
    decreases i,
{
    assert forall|k: int| 0 <= k < i implies x[k] == y[k] by {
        lemma_rankings_agree(pages, x, y, k);
    }
    if x[i] != y[i] {
        lemma_ranking_is_complete(pages, y, x[i]);
        lemma_ranking_is_complete(pages, x, y[i]);
        let t = choose|t: int| 0 <= t < y.len() && y[t] == x[i];
        let u = choose|u: int| 0 <= u < x.len() && x[u] == y[i];
        if t < i {
            assert(outranks(pages, x[t], x[i]));
        } else if u < i {
            assert(outranks(pages, y[u], y[i]));
        } else {
            assert(outranks(pages, y[i], y[t]));
            assert(outranks(pages, x[i], x[u]));
        }
    }
}

/// There is one way to put pages in the order of their ranks.
pub proof fn ranking_is_unique(
    pages: Seq<MediawikiPage>,
    a: Seq<MediawikiPage>,
    b: Seq<MediawikiPage>,
)
    requires
        in_rank_order(pages, a),
        in_rank_order(pages, b),
    ensures
        a == b,
{
    let x = choose|x: Seq<int>| #[trigger] is_ranking(pages, x) && a == pages_at(pages, x);
    let y = choose|y: Seq<int>| #[trigger] is_ranking(pages, y) && b == pages_at(pages, y);
    assert forall|i: int| 0 <= i < pages.len() implies x[i] == y[i] by {
        lemma_rankings_agree(pages, x, y, i);
    }
    assert(a =~= b);
}

} // verus!
