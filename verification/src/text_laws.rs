//! What holds of every text.

use crate::text::{
    ascii_lower, decimal, digit, is_alphanumeric, is_digit, without_prefix, without_trailing,
};
use crate::text_map::{text_before, text_before_irreflexive};
use vstd::prelude::*;

verus! {

/// The number that decimal digits stand for.
pub open spec fn decimal_value(s: Seq<char>) -> int
    decreases s.len(),
{
    if s.len() == 0 {
        0
    } else {
        decimal_value(s.drop_last()) * 10 + (s.last() as int - 48)
    }
}

/// A number in decimal is made of digits, has no zero in front of it but where it is zero,
/// and reads back as the number.
pub proof fn decimal_reads_back(n: nat)
    ensures
        decimal_value(decimal(n)) == n,
        decimal(n).len() >= 1,
        decimal(n).len() > 1 ==> decimal(n)[0] as int != 48,
        forall|i: int| 0 <= i < decimal(n).len() ==> 48 <= #[trigger] decimal(n)[i] as int <= 57,
    decreases n,
{
    if n < 10 {
        assert(decimal(n).drop_last() =~= seq![]);
        assert(decimal(n).last() as int == 48 + n);
        assert(decimal_value(seq![]) == 0);
        assert(decimal_value(decimal(n)) == n);
    } else {
        let front = decimal(n / 10);
        decimal_reads_back(n / 10);
        assert(decimal(n).drop_last() =~= front);
        assert(digit(n % 10) as int == 48 + n % 10);
        assert(decimal(n)[0] == front[0]);
        if front.len() == 1 {
            assert(decimal_value(front.drop_last()) == 0) by {
                assert(front.drop_last() =~= seq![]);
            }
        }
        assert forall|i: int| 0 <= i < decimal(n).len() implies 48 <= #[trigger] decimal(
            n,
        )[i] as int <= 57 by {
            if i < front.len() {
                assert(decimal(n)[i] == front[i]);
            }
        }
    }
}

/// A prefix that is there is taken away once, and nothing else is.
pub proof fn prefix_is_dropped_once(s: Seq<char>, prefix: Seq<char>)
    ensures
        prefix.is_prefix_of(s) ==> prefix + without_prefix(s, prefix) == s,
        !prefix.is_prefix_of(s) ==> without_prefix(s, prefix) == s,
        without_prefix(prefix + s, prefix) == s,
{
    if prefix.is_prefix_of(s) {
        assert(prefix + without_prefix(s, prefix) =~= s);
    }
    assert((prefix + s).subrange(0, prefix.len() as int) =~= prefix);
    assert(without_prefix(prefix + s, prefix) =~= s);
}

/// What is taken away at the end of a text is every `c` there, and nothing else.
pub proof fn trailing_characters_are_dropped(s: Seq<char>, c: char)
    ensures
        without_trailing(s, c).is_prefix_of(s),
        forall|i: int| without_trailing(s, c).len() <= i < s.len() ==> #[trigger] s[i] == c,
        without_trailing(s, c).len() > 0 ==> without_trailing(s, c).last() != c,
    decreases s.len(),
{
    if s.len() > 0 && s.last() == c {
        let front = s.drop_last();
        let r = without_trailing(s, c);
        trailing_characters_are_dropped(front, c);
        assert(front.subrange(0, r.len() as int) =~= s.subrange(0, r.len() as int));
        assert forall|i: int| r.len() <= i < s.len() implies #[trigger] s[i] == c by {
            if i < front.len() {
                assert(front[i] == c);
            }
        }
    } else {
        assert(s.subrange(0, s.len() as int) =~= s);
    }
}

/// A text that does not end in `c` is what is left of it with any number of `c` behind it.
pub proof fn dropping_undoes_appending(s: Seq<char>, c: char, tail: Seq<char>)
    requires
        s.len() > 0 ==> s.last() != c,
        forall|i: int| 0 <= i < tail.len() ==> #[trigger] tail[i] == c,
    ensures
        without_trailing(s + tail, c) == s,
    decreases tail.len(),
{
    if tail.len() == 0 {
        assert(s + tail =~= s);
    } else {
        let front = tail.drop_last();
        assert forall|i: int| 0 <= i < front.len() implies #[trigger] front[i] == c by {
            assert(tail[i] == c);
        }
        dropping_undoes_appending(s, c, front);
        assert((s + tail).drop_last() =~= s + front);
        assert(tail[tail.len() - 1] == c);
    }
}

/// In lower case, the letters from `A` to `Z` move by thirty-two, and every other character
/// stays.
pub proof fn only_ascii_letters_are_lowered(s: Seq<char>)
    ensures
        ascii_lower(s).len() == s.len(),
        forall|i: int|
            #![trigger ascii_lower(s)[i]]
            0 <= i < s.len() ==> ascii_lower(s)[i] as int == (if 65 <= s[i] as int <= 90 {
                s[i] as int + 32
            } else {
                s[i] as int
            }),
{
}

/// The digits and the letters and digits of ASCII, by their numbers.
pub proof fn ascii_classes(c: char)
    ensures
        is_digit(c) <==> 48 <= c as int <= 57,
        is_alphanumeric(c) <==> (48 <= c as int <= 57 || 65 <= c as int <= 90 || 97 <= c as int
            <= 122),
{
}

/// Whether two texts agree before position `i`, and `a` ends there or has the smaller
/// character.
pub open spec fn is_smaller_at(a: Seq<char>, b: Seq<char>, i: int) -> bool {
    &&& 0 <= i <= a.len()
    &&& i < b.len()
    &&& forall|k: int| 0 <= k < i ==> #[trigger] a[k] == b[k]
    &&& i == a.len() || a[i] < b[i]
}

/// One text comes before another exactly where it is the smaller one at the first place where
/// they differ.
pub proof fn order_goes_by_the_first_difference(a: Seq<char>, b: Seq<char>)
    ensures
        text_before(a, b) <==> exists|i: int| is_smaller_at(a, b, i),
    decreases a.len(),
{
    if a.len() > 0 && b.len() > 0 {
        let x = a.drop_first();
        let y = b.drop_first();
        order_goes_by_the_first_difference(x, y);
        if text_before(a, b) {
            if a[0] < b[0] {
                assert(is_smaller_at(a, b, 0));
            } else {
                let i = choose|i: int| is_smaller_at(x, y, i);
                assert forall|k: int| 0 <= k < i + 1 implies #[trigger] a[k] == b[k] by {
                    if k > 0 {
                        assert(x[k - 1] == y[k - 1]);
                    }
                }
                assert(is_smaller_at(a, b, i + 1));
            }
        }
        if exists|i: int| is_smaller_at(a, b, i) {
            let i = choose|i: int| is_smaller_at(a, b, i);
            if i > 0 {
                assert(a[0] == b[0]);
                assert forall|k: int| 0 <= k < i - 1 implies #[trigger] x[k] == y[k] by {
                    assert(a[k + 1] == b[k + 1]);
                }
                assert(is_smaller_at(x, y, i - 1));
            }
        }
    } else if b.len() > 0 {
        assert(is_smaller_at(a, b, 0));
    }
}

/// Of two texts that differ, one comes before the other.
pub proof fn order_is_total(a: Seq<char>, b: Seq<char>)
    ensures
        a == b || text_before(a, b) || text_before(b, a),
        !(text_before(a, b) && text_before(b, a)),
    decreases a.len(),
{
    if a.len() > 0 && b.len() > 0 {
        order_is_total(a.drop_first(), b.drop_first());
        if a[0] == b[0] && a.drop_first() == b.drop_first() {
            assert(a =~= seq![a[0]] + a.drop_first());
            assert(b =~= seq![b[0]] + b.drop_first());
        }
    } else if a.len() == 0 && b.len() == 0 {
        assert(a =~= b);
    }
    text_before_irreflexive(a);
}

} // verus!
