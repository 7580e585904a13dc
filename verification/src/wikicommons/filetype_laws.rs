//! What holds of every clause that narrows a search to file types.

use crate::text::ascii_lower;
use crate::wikicommons::filetype::{
    all_commons_types, commons_types, distinct, distinct_keeps_every_text, filetype_clause, piped,
};
use vstd::prelude::*;

verus! {

/// Whether a file type that is asked for, in whatever case, takes in a word of Commons.
pub open spec fn asks_for(requested: Seq<char>, word: Seq<char>) -> bool {
    ||| ascii_lower(requested) == "image"@ && (word == "bitmap"@ || word == "drawing"@)
    ||| ascii_lower(requested) == "audio"@ && word == "audio"@
    ||| ascii_lower(requested) == "video"@ && word == "video"@
    ||| ascii_lower(requested) == "document"@ && word == "office"@
}

/// Whether one of the file types asked for takes in a word of Commons.
pub open spec fn is_asked_for(requested: Seq<Seq<char>>, word: Seq<char>) -> bool {
    exists|p: int| 0 <= p < requested.len() && asks_for(#[trigger] requested[p], word)
}

/// Whether a file type that is asked for takes in the word `a`, and none before it takes in
/// the word `b`.
pub open spec fn is_asked_for_first(
    requested: Seq<Seq<char>>,
    a: Seq<char>,
    b: Seq<char>,
) -> bool {
    exists|p: int|
        0 <= p < requested.len() && asks_for(#[trigger] requested[p], a) && forall|q: int|
            0 <= q < p ==> !asks_for(#[trigger] requested[q], b)
}

/// The parts of a text between its separators, and before the first and behind the last.
pub open spec fn split(s: Seq<char>, at: char) -> Seq<Seq<char>>
    decreases s.len(),
{
    if s.len() == 0 {
        seq![seq![]]
    } else if s.last() == at {
        split(s.drop_last(), at).push(seq![])
    } else {
        let front = split(s.drop_last(), at);
        front.drop_last().push(front.last().push(s.last()))
    }
}

proof fn lemma_split_is_not_empty(s: Seq<char>, at: char)
    ensures
        split(s, at).len() >= 1,
    decreases s.len(),
{
    if s.len() > 0 {
        lemma_split_is_not_empty(s.drop_last(), at);
    }
}

proof fn lemma_split_word(word: Seq<char>, at: char)
    requires
        !word.contains(at),
    ensures
        split(word, at) == seq![word],
    decreases word.len(),
{
    if word.len() == 0 {
        assert(word =~= seq![]);
    } else {
        let front = word.drop_last();
        assert(!front.contains(at)) by {
            if front.contains(at) {
                let i = choose|i: int| 0 <= i < front.len() && front[i] == at;
                assert(word[i] == at);
            }
        }
        lemma_split_word(front, at);
        assert(word[word.len() - 1] == word.last());
        assert(front.push(word.last()) =~= word);
        assert(split(word, at) =~= seq![word]);
    }
}

proof fn lemma_split_behind_separator(s: Seq<char>, at: char, word: Seq<char>)
    requires
        !word.contains(at),
    ensures
        split(s.push(at) + word, at) == split(s, at).push(word),
    decreases word.len(),
{
    let whole = s.push(at) + word;
    if word.len() == 0 {
        assert(whole =~= s.push(at));
        assert(s.push(at).drop_last() =~= s);
        assert(word =~= seq![]);
    } else {
        let front = word.drop_last();
        assert(!front.contains(at)) by {
            if front.contains(at) {
                let i = choose|i: int| 0 <= i < front.len() && front[i] == at;
                assert(word[i] == at);
            }
        }
        lemma_split_behind_separator(s, at, front);
        assert(whole.drop_last() =~= s.push(at) + front);
        assert(whole.last() == word[word.len() - 1]);
        assert(front.push(word.last()) =~= word);
        assert(split(whole, at) =~= split(s, at).push(word));
    }
}

proof fn lemma_split_piped(texts: Seq<Seq<char>>)
    requires
        texts.len() > 0,
        forall|i: int| 0 <= i < texts.len() ==> !(#[trigger] texts[i]).contains('|'),
    ensures
        split(piped(texts), '|') == texts,
    decreases texts.len(),
{
    reveal_strlit("|");
    if texts.len() == 1 {
        lemma_split_word(texts[0], '|');
        assert(texts =~= seq![texts[0]]);
    } else {
        let front = texts.drop_last();
        assert forall|i: int| 0 <= i < front.len() implies !(#[trigger] front[i]).contains('|') by {
            assert(front[i] == texts[i]);
        }
        lemma_split_piped(front);
        let last = texts[texts.len() - 1];
        lemma_split_behind_separator(piped(front), '|', last);
        assert(piped(front) + "|"@ =~= piped(front).push('|'));
        assert(front.push(last) =~= texts);
    }
}

proof fn lemma_words_have_no_separator(word: Seq<char>)
    requires
        word == "bitmap"@ || word == "drawing"@ || word == "audio"@ || word == "video"@ || word
            == "office"@,
    ensures
        !word.contains('|'),
{
    reveal_strlit("bitmap");
    reveal_strlit("drawing");
    reveal_strlit("audio");
    reveal_strlit("video");
    reveal_strlit("office");
}

proof fn lemma_kinds_differ()
    ensures
        "image"@ != "audio"@,
        "image"@ != "video"@,
        "image"@ != "document"@,
        "audio"@ != "video"@,
        "audio"@ != "document"@,
        "video"@ != "document"@,
        "bitmap"@ != "drawing"@,
        "bitmap"@ != "audio"@,
        "bitmap"@ != "video"@,
        "bitmap"@ != "office"@,
        "drawing"@ != "audio"@,
        "drawing"@ != "video"@,
        "drawing"@ != "office"@,
        "audio"@ != "office"@,
        "video"@ != "office"@,
{
    reveal_strlit("image");
    reveal_strlit("audio");
    reveal_strlit("video");
    reveal_strlit("document");
    reveal_strlit("bitmap");
    reveal_strlit("drawing");
    reveal_strlit("office");
    assert("image"@.len() == 5 && "image"@[0] == 'i');
    assert("audio"@.len() == 5 && "audio"@[0] == 'a');
    assert("video"@.len() == 5 && "video"@[0] == 'v');
    assert("document"@.len() == 8);
    assert("bitmap"@.len() == 6 && "bitmap"@[0] == 'b');
    assert("drawing"@.len() == 7);
    assert("office"@.len() == 6 && "office"@[0] == 'o');
}

/// Whether words are those of the file types asked for: each of them once and no others, in
/// the order in which they are first asked for, and the two words for images side by side.
pub open spec fn are_the_words_asked_for(
    requested: Seq<Seq<char>>,
    words: Seq<Seq<char>>,
) -> bool {
    &&& words.no_duplicates()
    &&& forall|word: Seq<char>| #[trigger] words.contains(word) <==> is_asked_for(requested, word)
    &&& forall|i: int, j: int|
        0 <= i < j < words.len() ==> is_asked_for_first(
            requested,
            #[trigger] words[i],
            #[trigger] words[j],
        )
    &&& forall|i: int|
        0 <= i < words.len() && #[trigger] words[i] == "bitmap"@ ==> i + 1 < words.len()
            && words[i + 1] == "drawing"@
}

proof fn lemma_asking_once_more(requested: Seq<Seq<char>>, again: Seq<char>)
    ensures
        forall|word: Seq<char>| #[trigger]
            is_asked_for(requested.push(again), word) <==> is_asked_for(requested, word)
                || asks_for(again, word),
        forall|a: Seq<char>, b: Seq<char>| #[trigger]
            is_asked_for_first(requested, a, b) ==> is_asked_for_first(
                requested.push(again),
                a,
                b,
            ),
{
    let more = requested.push(again);
    assert forall|word: Seq<char>| #[trigger] is_asked_for(more, word) <==> is_asked_for(
        requested,
        word,
    ) || asks_for(again, word) by {
        if is_asked_for(more, word) {
            let p = choose|p: int| 0 <= p < more.len() && asks_for(#[trigger] more[p], word);
            if p < requested.len() {
                assert(asks_for(requested[p], word));
            }
        }
        if is_asked_for(requested, word) {
            let p = choose|p: int|
                0 <= p < requested.len() && asks_for(#[trigger] requested[p], word);
            assert(asks_for(more[p], word));
        }
        if asks_for(again, word) {
            assert(asks_for(more[requested.len() as int], word));
        }
    }
    assert forall|a: Seq<char>, b: Seq<char>| #[trigger]
        is_asked_for_first(requested, a, b) implies is_asked_for_first(more, a, b) by {
        let p = choose|p: int|
            0 <= p < requested.len() && asks_for(#[trigger] requested[p], a) && forall|q: int|
                0 <= q < p ==> !asks_for(#[trigger] requested[q], b);
        assert(asks_for(more[p], a));
        assert forall|q: int| 0 <= q < p implies !asks_for(#[trigger] more[q], b) by {
            assert(more[q] == requested[q]);
        }
    }
}

/// One word more, which is asked for at the end and was not before.
proof fn lemma_new_word(
    requested: Seq<Seq<char>>,
    again: Seq<char>,
    words: Seq<Seq<char>>,
    word: Seq<char>,
    i: int,
)
    requires
        0 <= i < words.len(),
        is_asked_for(requested, words[i]) || asks_for(again, words[i]),
        !is_asked_for(requested, word),
    ensures
        is_asked_for_first(requested.push(again), words[i], word),
{
    let more = requested.push(again);
    let p = if is_asked_for(requested, words[i]) {
        choose|p: int| 0 <= p < requested.len() && asks_for(#[trigger] requested[p], words[i])
    } else {
        requested.len() as int
    };
    assert(asks_for(more[p], words[i]));
    assert forall|q: int| 0 <= q < p implies !asks_for(#[trigger] more[q], word) by {
        assert(more[q] == requested[q]);
    }
}

proof fn lemma_words_asked_for(requested: Seq<Seq<char>>)
    ensures
        are_the_words_asked_for(requested, distinct(all_commons_types(requested))),
    decreases requested.len(),
{
    lemma_kinds_differ();
    if requested.len() == 0 {
        assert(distinct(all_commons_types(requested)) =~= seq![]);
    } else {
        let r = requested.drop_last();
        let again = requested.last();
        assert(requested =~= r.push(again));
        lemma_words_asked_for(r);
        lemma_asking_once_more(r, again);
        let all = all_commons_types(r);
        let words = distinct(all);
        distinct_keeps_every_text(all);
        let new = commons_types(again);
        let now = distinct(all_commons_types(requested));
        if new.len() == 0 {
            assert(all + new =~= all);
            assert(now == words);
            assert forall|word: Seq<char>| !asks_for(again, word) by {}
        } else if new.len() == 1 {
            let w = new[0];
            assert((all + new).drop_last() =~= all);
            assert((all + new).last() == w);
            assert forall|word: Seq<char>| asks_for(again, word) <==> word == w by {}
            lemma_add_word(r, again, words, now, w);
        } else {
            assert((all + new).drop_last() =~= all.push("bitmap"@));
            assert((all + new).last() == "drawing"@);
            assert(all.push("bitmap"@).drop_last() =~= all);
            assert(words.contains("bitmap"@) <==> is_asked_for(r, "bitmap"@));
            assert(words.contains("drawing"@) <==> is_asked_for(r, "drawing"@));
            assert(is_asked_for(r, "bitmap"@) <==> is_asked_for(r, "drawing"@)) by {
                if is_asked_for(r, "bitmap"@) {
                    let p = choose|p: int| 0 <= p < r.len() && asks_for(#[trigger] r[p], "bitmap"@);
                    assert(asks_for(r[p], "drawing"@));
                }
                if is_asked_for(r, "drawing"@) {
                    let p = choose|p: int|
                        0 <= p < r.len() && asks_for(#[trigger] r[p], "drawing"@);
                    assert(asks_for(r[p], "bitmap"@));
                }
            }
            assert forall|word: Seq<char>| asks_for(again, word) <==> (word == "bitmap"@ || word
                == "drawing"@) by {}
            lemma_contains_push(all, "bitmap"@, "drawing"@);
            let mid = all.push("bitmap"@);
            assert(all.contains("bitmap"@) <==> words.contains("bitmap"@));
            assert(all.contains("drawing"@) <==> words.contains("drawing"@));
            assert(mid.last() == "bitmap"@);
            assert(distinct(mid) == if all.contains("bitmap"@) {
                words
            } else {
                words.push("bitmap"@)
            });
            assert(all_commons_types(requested) == all + new);
            assert(now == if mid.contains("drawing"@) {
                distinct(mid)
            } else {
                distinct(mid).push("drawing"@)
            });
            if words.contains("bitmap"@) {
                assert(now == words);
                lemma_same_words(r, again, words);
            } else {
                assert(now == words.push("bitmap"@).push("drawing"@));
                lemma_add_image_words(r, again, words, now);
            }
        }
    }
}

proof fn lemma_contains_push(all: Seq<Seq<char>>, added: Seq<char>, word: Seq<char>)
    requires
        added != word,
    ensures
        all.push(added).contains(word) <==> all.contains(word),
{
    if all.contains(word) {
        let i = choose|i: int| 0 <= i < all.len() && all[i] == word;
        assert(all.push(added)[i] == word);
    }
}

proof fn lemma_same_words(r: Seq<Seq<char>>, again: Seq<char>, words: Seq<Seq<char>>)
    requires
        are_the_words_asked_for(r, words),
        forall|word: Seq<char>| asks_for(again, word) ==> #[trigger] words.contains(word),
    ensures
        are_the_words_asked_for(r.push(again), words),
{
    lemma_asking_once_more(r, again);
    assert forall|word: Seq<char>| #[trigger] words.contains(word) <==> is_asked_for(
        r.push(again),
        word,
    ) by {
        assert(words.contains(word) <==> is_asked_for(r, word));
    }
    assert forall|i: int, j: int| 0 <= i < j < words.len() implies is_asked_for_first(
        r.push(again),
        #[trigger] words[i],
        #[trigger] words[j],
    ) by {
        assert(is_asked_for_first(r, words[i], words[j]));
    }
}

proof fn lemma_add_word(
    r: Seq<Seq<char>>,
    again: Seq<char>,
    words: Seq<Seq<char>>,
    now: Seq<Seq<char>>,
    w: Seq<char>,
)
    requires
        are_the_words_asked_for(r, words),
        forall|word: Seq<char>| #[trigger] asks_for(again, word) <==> word == w,
        w != "bitmap"@,
        words.contains(w) ==> now == words,
        !words.contains(w) ==> now == words.push(w),
    ensures
        are_the_words_asked_for(r.push(again), now),
{
    if words.contains(w) {
        lemma_same_words(r, again, words);
    } else {
        let n = words.len() as int;
        lemma_asking_once_more(r, again);
        assert forall|word: Seq<char>| #[trigger] now.contains(word) <==> is_asked_for(
            r.push(again),
            word,
        ) by {
            assert(words.contains(word) <==> is_asked_for(r, word));
            assert(asks_for(again, word) <==> word == w);
            if words.contains(word) {
                let i = choose|i: int| 0 <= i < n && words[i] == word;
                assert(now[i] == word);
            }
            if word == w {
                assert(now[n] == word);
            }
        }
        assert forall|i: int, j: int| 0 <= i < j < now.len() implies is_asked_for_first(
            r.push(again),
            #[trigger] now[i],
            #[trigger] now[j],
        ) by {
            assert(words.contains(words[i]));
            if j < n {
                assert(is_asked_for_first(r, words[i], words[j]));
            } else {
                lemma_new_word(r, again, now, w, i);
            }
        }
        assert forall|i: int| 0 <= i < now.len() && #[trigger] now[i] == "bitmap"@ implies i + 1
            < now.len() && now[i + 1] == "drawing"@ by {
            assert(words[i] == "bitmap"@);
            assert(words[i + 1] == "drawing"@);
        }
    }
}

proof fn lemma_add_image_words(
    r: Seq<Seq<char>>,
    again: Seq<char>,
    words: Seq<Seq<char>>,
    now: Seq<Seq<char>>,
)
    requires
        are_the_words_asked_for(r, words),
        forall|word: Seq<char>| #[trigger]
            asks_for(again, word) <==> (word == "bitmap"@ || word == "drawing"@),
        "bitmap"@ != "drawing"@,
        !words.contains("bitmap"@),
        !words.contains("drawing"@),
        now == words.push("bitmap"@).push("drawing"@),
    ensures
        are_the_words_asked_for(r.push(again), now),
{
    let n = words.len() as int;
    lemma_asking_once_more(r, again);
    assert forall|word: Seq<char>| #[trigger] now.contains(word) <==> is_asked_for(
        r.push(again),
        word,
    ) by {
        assert(words.contains(word) <==> is_asked_for(r, word));
        assert(asks_for(again, word) <==> (word == "bitmap"@ || word == "drawing"@));
        if words.contains(word) {
            let i = choose|i: int| 0 <= i < n && words[i] == word;
            assert(now[i] == word);
        }
        assert(now[n] == "bitmap"@ && now[n + 1] == "drawing"@);
    }
    assert forall|i: int, j: int| 0 <= i < j < now.len() implies is_asked_for_first(
        r.push(again),
        #[trigger] now[i],
        #[trigger] now[j],
    ) by {
        if j < n {
            assert(is_asked_for_first(r, words[i], words[j]));
        } else {
            if i < n {
                assert(words.contains(words[i]));
            } else {
                assert(asks_for(again, "bitmap"@));
            }
            lemma_new_word(r, again, now, now[j], i);
        }
    }
    assert forall|i: int| 0 <= i < now.len() && #[trigger] now[i] == "bitmap"@ implies i + 1
        < now.len() && now[i + 1] == "drawing"@ by {
        if i < n {
            assert(words.contains(words[i]));
        }
    }
}

/// There is a clause exactly where a file type is asked for that Commons has a word for. It
/// says `filetype:`, and what stands behind that, taken apart at every `|`, is the words of the
/// file types asked for: each once, none missing, in the order in which they are first asked
/// for.
pub proof fn clause_is_the_words_asked_for(filters: Map<Seq<char>, Seq<Seq<char>>>)
    ensures
        filetype_clause(filters) is Some <==> filters.contains_key("fileType"@) && exists|
            word: Seq<char>,
        | #[trigger] is_asked_for(filters["fileType"@], word),
        filetype_clause(filters) matches Some(clause) ==> "filetype:"@.is_prefix_of(clause)
            && are_the_words_asked_for(filters["fileType"@], split(clause.skip(9), '|')),
{
    if filters.contains_key("fileType"@) {
        let requested = filters["fileType"@];
        let all = all_commons_types(requested);
        let words = distinct(all);
        lemma_words_asked_for(requested);
        distinct_keeps_every_text(all);
        if all.len() > 0 {
            assert(all.contains(all[0]));
            assert(words.contains(all[0]));
            assert(is_asked_for(requested, all[0]));
            assert forall|i: int| 0 <= i < words.len() implies !(#[trigger] words[i]).contains(
                '|',
            ) by {
                assert(words.contains(words[i]));
                assert(is_asked_for(requested, words[i]));
                lemma_words_have_no_separator(words[i]);
            }
            lemma_split_piped(words);
            reveal_strlit("filetype:");
            let clause = "filetype:"@ + piped(words);
            assert(clause.skip(9) =~= piped(words));
            assert(clause.subrange(0, 9) =~= "filetype:"@);
        } else {
            assert forall|word: Seq<char>| !#[trigger] is_asked_for(requested, word) by {
                assert(words.contains(word) <==> is_asked_for(requested, word));
            }
        }
    }
}

} // verus!
