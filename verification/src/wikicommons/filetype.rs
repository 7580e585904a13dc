//! The file types that a search asks for, in the words of the search engine of
//! Commons.

use crate::gateway::GatewayQuery;
use crate::text::{ascii_lower, same_text, to_ascii_lower};
use vstd::prelude::*;

verus! {

/// What Commons calls a file type that the gateway asks for, in whatever case; of
/// most types it has no notion.
pub open spec fn commons_types(requested: Seq<char>) -> Seq<Seq<char>> {
    if ascii_lower(requested) == "image"@ {
        seq!["bitmap"@, "drawing"@]
    } else if ascii_lower(requested) == "audio"@ {
        seq!["audio"@]
    } else if ascii_lower(requested) == "video"@ {
        seq!["video"@]
    } else if ascii_lower(requested) == "document"@ {
        seq!["office"@]
    } else {
        seq![]
    }
}

/// What Commons calls each of the file types asked for, one after the other.
pub open spec fn all_commons_types(requested: Seq<Seq<char>>) -> Seq<Seq<char>>
    decreases requested.len(),
{
    if requested.len() == 0 {
        seq![]
    } else {
        all_commons_types(requested.drop_last()) + commons_types(requested.last())
    }
}

/// The texts with each kept only where it occurs first.
pub open spec fn distinct(texts: Seq<Seq<char>>) -> Seq<Seq<char>>
    decreases texts.len(),
{
    if texts.len() == 0 {
        seq![]
    } else if texts.drop_last().contains(texts.last()) {
        distinct(texts.drop_last())
    } else {
        distinct(texts.drop_last()).push(texts.last())
    }
}

/// The texts one after the other, with `|` between each two.
pub open spec fn piped(texts: Seq<Seq<char>>) -> Seq<char>
    decreases texts.len(),
{
    if texts.len() == 0 {
        seq![]
    } else if texts.len() == 1 {
        texts[0]
    } else {
        piped(texts.drop_last()) + "|"@ + texts.last()
    }
}

/// The clause that narrows a search to the file types asked for. There is none
/// where no type is asked for that Commons has a word for.
pub open spec fn filetype_clause(filters: Map<Seq<char>, Seq<Seq<char>>>) -> Option<Seq<char>> {
    if filters.contains_key("fileType"@) && all_commons_types(filters["fileType"@]).len() > 0 {
        Some("filetype:"@ + piped(distinct(all_commons_types(filters["fileType"@]))))
    } else {
        None
    }
}

/// What each of a list of texts holds.
spec fn texts_of(texts: Seq<&'static str>) -> Seq<Seq<char>> {
    texts.map_values(|t: &'static str| t@)
}

/// The distinct texts are those that occur.
pub proof fn distinct_keeps_every_text(texts: Seq<Seq<char>>)
    ensures
        forall|t: Seq<char>| #[trigger] distinct(texts).contains(t) <==> texts.contains(t),
    decreases texts.len(),
{
    if texts.len() > 0 {
        let front = texts.drop_last();
        let last = texts.last();
        distinct_keeps_every_text(front);
        assert forall|t: Seq<char>| #[trigger] distinct(texts).contains(t) <==> texts.contains(
            t,
        ) by {
            assert(distinct(front).contains(t) <==> front.contains(t));
            if texts.contains(t) {
                let i = choose|i: int| 0 <= i < texts.len() && texts[i] == t;
                if i < front.len() {
                    assert(front[i] == t);
                    assert(distinct(front).contains(t));
                    let k = choose|k: int| 0 <= k < distinct(front).len() && distinct(front)[k] == t;
                    assert(distinct(texts)[k] == t);
                } else if !front.contains(last) {
                    assert(distinct(texts)[distinct(front).len() as int] == t);
                }
            }
            if distinct(texts).contains(t) {
                let k = choose|k: int| 0 <= k < distinct(texts).len() && distinct(texts)[k] == t;
                if k < distinct(front).len() {
                    assert(distinct(front)[k] == t);
                    let i = choose|i: int| 0 <= i < front.len() && front[i] == t;
                    assert(texts[i] == t);
                } else {
                    assert(texts[texts.len() - 1] == t);
                }
            }
        }
    }
}

/// Adds a type to the distinct ones found so far.
fn add_type(types: &mut Vec<&'static str>, t: &'static str, Ghost(all): Ghost<Seq<Seq<char>>>)
    requires
        texts_of(old(types)@) == distinct(all),
    ensures
        texts_of(final(types)@) == distinct(all.push(t@)),
{
    assert(all.push(t@).drop_last() == all);
    let mut i: usize = 0;
    while i < types.len()
        invariant
            i <= types@.len(),
            forall|k: int| 0 <= k < i ==> (#[trigger] types@[k])@ != t@,
            types@ == old(types)@,
            texts_of(types@) == distinct(all),
            all.push(t@).drop_last() == all,
        decreases types@.len() - i,
    {
        if same_text(types[i], t) {
            proof {
                distinct_keeps_every_text(all);
                assert(distinct(all)[i as int] == t@);
                assert(distinct(all).contains(t@));
            }
            return;
        }
        i += 1;
    }
    let ghost before = types@;
    types.push(t);
    proof {
        distinct_keeps_every_text(all);
        if all.contains(t@) {
            assert(distinct(all).contains(t@));
            let k = choose|k: int| 0 <= k < distinct(all).len() && distinct(all)[k] == t@;
            assert(before[k]@ == t@);
        }
        assert(texts_of(types@) =~= texts_of(before).push(t@));
    }
}

fn write_piped(types: &Vec<&'static str>) -> (r: String)
    ensures
        r@ == piped(texts_of(types@)),
{
    let ghost texts = texts_of(types@);
    let mut r: String = String::new();
    let mut i: usize = 0;
    while i < types.len()
        invariant
            i <= types@.len(),
            texts == texts_of(types@),
            r@ == piped(texts.take(i as int)),
        decreases types@.len() - i,
    {
        if i > 0 {
            r.append("|");
        }
        r.append(types[i]);
        assert(texts.take(i + 1).drop_last() == texts.take(i as int));
        assert(texts.take(i + 1).last() == types@[i as int]@);
        assert(r@ == piped(texts.take(i + 1)));
        i += 1;
    }
    assert(texts.take(i as int) == texts);
    r
}

/// Writes the clause that narrows a search to the file types that the query asks
/// for.
pub fn mediawiki_filetype_clause(query: &GatewayQuery) -> (r: Option<String>)
    ensures
        r.deep_view() == filetype_clause(query.filters@),
{
    let requested: &Vec<String> = match query.filters.get("fileType") {
        None => {
            return None;
        },
        Some(v) => v,
    };
    let ghost want = requested.deep_view();
    let ghost mut all: Seq<Seq<char>> = seq![];
    let mut types: Vec<&'static str> = Vec::new();
    let mut i: usize = 0;
    assert(texts_of(types@) =~= distinct(all));
    assert(want.take(0) =~= seq![]);
    while i < requested.len()
        invariant
            i <= requested@.len(),
            want == requested.deep_view(),
            all == all_commons_types(want.take(i as int)),
            texts_of(types@) == distinct(all),
        decreases requested@.len() - i,
    {
        let v: String = to_ascii_lower(requested[i].as_str());
        let ghost before = all;
        if same_text(v.as_str(), "image") {
            add_type(&mut types, "bitmap", Ghost(before));
            add_type(&mut types, "drawing", Ghost(before.push("bitmap"@)));
            proof {
                all = before.push("bitmap"@).push("drawing"@);
            }
        } else if same_text(v.as_str(), "audio") {
            add_type(&mut types, "audio", Ghost(before));
            proof {
                all = before.push("audio"@);
            }
        } else if same_text(v.as_str(), "video") {
            add_type(&mut types, "video", Ghost(before));
            proof {
                all = before.push("video"@);
            }
        } else if same_text(v.as_str(), "document") {
            add_type(&mut types, "office", Ghost(before));
            proof {
                all = before.push("office"@);
            }
        }
        proof {
            assert(want[i as int] == requested@[i as int]@);
            assert(want.take(i + 1).drop_last() == want.take(i as int));
            assert(all =~= before + commons_types(want[i as int]));
        }
        i += 1;
    }
    assert(want.take(i as int) =~= want);
    proof {
        distinct_keeps_every_text(all);
        if all.len() > 0 {
            assert(all.contains(all[0]));
            assert(distinct(all).contains(all[0]));
        }
        if distinct(all).len() > 0 {
            assert(distinct(all).contains(distinct(all)[0]));
        }
        assert(types@.len() == distinct(all).len());
    }
    if types.len() == 0 {
        return None;
    }
    let mut clause: String = "filetype:".to_owned();
    let list: String = write_piped(&types);
    clause.append(list.as_str());
    Some(clause)
}

proof fn lemma_distinct_has_no_duplicates(texts: Seq<Seq<char>>)
    ensures
        distinct(texts).no_duplicates(),
    decreases texts.len(),
{
    if texts.len() > 0 {
        let front = texts.drop_last();
        lemma_distinct_has_no_duplicates(front);
        distinct_keeps_every_text(front);
        if !front.contains(texts.last()) {
            assert(!distinct(front).contains(texts.last()));
        }
    }
}

/// Whether a text is one of the words that the clause may hold.
pub open spec fn is_commons_type(t: Seq<char>) -> bool {
    t == "bitmap"@ || t == "drawing"@ || t == "audio"@ || t == "video"@ || t == "office"@
}

/// A clause names no type twice, and none that is not a word of Commons.
pub proof fn clause_names_each_type_once(requested: Seq<Seq<char>>)
    ensures
        distinct(all_commons_types(requested)).no_duplicates(),
        forall|i: int|
            0 <= i < distinct(all_commons_types(requested)).len() ==> is_commons_type(
                #[trigger] distinct(all_commons_types(requested))[i],
            ),
{
    let all = all_commons_types(requested);
    lemma_distinct_has_no_duplicates(all);
    distinct_keeps_every_text(all);
    lemma_all_commons_types(requested);
    assert forall|i: int| 0 <= i < distinct(all).len() implies is_commons_type(
        #[trigger] distinct(all)[i],
    ) by {
        assert(distinct(all).contains(distinct(all)[i]));
        assert(all.contains(distinct(all)[i]));
    }
}

proof fn lemma_all_commons_types(requested: Seq<Seq<char>>)
    ensures
        forall|i: int|
            0 <= i < all_commons_types(requested).len() ==> is_commons_type(
                #[trigger] all_commons_types(requested)[i],
            ),
    decreases requested.len(),
{
    if requested.len() > 0 {
        let front = all_commons_types(requested.drop_last());
        let end = commons_types(requested.last());
        lemma_all_commons_types(requested.drop_last());
        assert forall|i: int| 0 <= i < all_commons_types(requested).len() implies is_commons_type(
            #[trigger] all_commons_types(requested)[i],
        ) by {
            if i < front.len() {
                assert(is_commons_type(front[i]));
            } else {
                assert(is_commons_type(end[i - front.len()]));
            }
        }
    }
}

/// Asking for a type once more, in whatever case, changes nothing.
pub proof fn repeated_type_changes_nothing(requested: Seq<Seq<char>>, again: Seq<char>, i: int)
    requires
        0 <= i < requested.len(),
        ascii_lower(requested[i]) == ascii_lower(again),
    ensures
        distinct(all_commons_types(requested.push(again))) == distinct(
            all_commons_types(requested),
        ),
{
    let all = all_commons_types(requested);
    let more = commons_types(again);
    assert(requested.push(again).drop_last() == requested);
    assert(more == commons_types(requested[i]));
    lemma_type_is_included(requested, i);
    lemma_distinct_drops_known(all, more);
}

proof fn lemma_type_is_included(requested: Seq<Seq<char>>, i: int)
    requires
        0 <= i < requested.len(),
    ensures
        forall|k: int|
            0 <= k < commons_types(requested[i]).len() ==> all_commons_types(requested).contains(
                #[trigger] commons_types(requested[i])[k],
            ),
    decreases requested.len(),
{
    let all = all_commons_types(requested);
    let front = all_commons_types(requested.drop_last());
    let own = commons_types(requested[i]);
    if i < requested.len() - 1 {
        lemma_type_is_included(requested.drop_last(), i);
        assert(requested.drop_last()[i] == requested[i]);
    }
    assert forall|k: int| 0 <= k < own.len() implies all.contains(#[trigger] own[k]) by {
        if i < requested.len() - 1 {
            assert(front.contains(commons_types(requested.drop_last()[i])[k]));
            let j = choose|j: int| 0 <= j < front.len() && front[j] == own[k];
            assert(all[j] == own[k]);
        } else {
            assert(all[front.len() + k] == own[k]);
        }
    }
}

proof fn lemma_distinct_drops_known(all: Seq<Seq<char>>, more: Seq<Seq<char>>)
    requires
        forall|k: int| 0 <= k < more.len() ==> all.contains(#[trigger] more[k]),
    ensures
        distinct(all + more) == distinct(all),
    decreases more.len(),
{
    if more.len() == 0 {
        assert(all + more =~= all);
    } else {
        let front = more.drop_last();
        assert forall|k: int| 0 <= k < front.len() implies all.contains(#[trigger] front[k]) by {
            assert(all.contains(more[k]));
        }
        lemma_distinct_drops_known(all, front);
        assert((all + more).drop_last() =~= all + front);
        let last = more[more.len() - 1];
        assert(all.contains(last));
        let j = choose|j: int| 0 <= j < all.len() && all[j] == last;
        assert((all + front)[j] == last);
    }
}

} // verus!
