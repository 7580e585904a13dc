//! What holds of every title, media type and file extension.

use crate::text::{ascii_lower, is_alphanumeric, is_digit};
use crate::wikicommons::title::{
    encode_char, encode_title, extension, hex_digit, is_extension, is_url_safe, media_type,
    percent_byte, percent_bytes, underscore, underscored,
};
use crate::wikicommons::file_types;
use vstd::prelude::*;
use vstd::utf8::{decode_utf8, encode_scalar, encode_utf8};

verus! {

/// Whether a character may stand in an encoded title.
pub open spec fn is_encoded_char(c: char) -> bool {
    is_url_safe(c) || c == '%'
}

proof fn lemma_percent_bytes_chars(bytes: Seq<u8>)
    ensures
        forall|i: int|
            0 <= i < percent_bytes(bytes).len() ==> is_encoded_char(
                #[trigger] percent_bytes(bytes)[i],
            ),
    decreases bytes.len(),
{
    if bytes.len() > 0 {
        let front = percent_bytes(bytes.drop_last());
        let end = percent_byte(bytes.last());
        lemma_percent_bytes_chars(bytes.drop_last());
        assert forall|i: int| 0 <= i < percent_bytes(bytes).len() implies is_encoded_char(
            #[trigger] percent_bytes(bytes)[i],
        ) by {
            if i < front.len() {
                assert(is_encoded_char(front[i]));
            } else {
                assert(percent_bytes(bytes)[i] == end[i - front.len()]);
            }
        }
    }
}

/// An encoded title holds nothing but characters that are safe in the address of a
/// wiki page, and the percent signs of the encoding.
pub proof fn encoded_title_is_url_safe(title: Seq<char>)
    ensures
        forall|i: int|
            0 <= i < encode_title(title).len() ==> is_encoded_char(
                #[trigger] encode_title(title)[i],
            ),
    decreases title.len(),
{
    if title.len() > 0 {
        let front = encode_title(title.drop_last());
        let end = encode_char(title.last());
        encoded_title_is_url_safe(title.drop_last());
        lemma_percent_bytes_chars(encode_utf8(seq![title.last()]));
        assert forall|i: int| 0 <= i < encode_title(title).len() implies is_encoded_char(
            #[trigger] encode_title(title)[i],
        ) by {
            if i < front.len() {
                assert(is_encoded_char(front[i]));
            } else {
                assert(encode_title(title)[i] == end[i - front.len()]);
            }
        }
    }
}

/// The value of an upper-case hexadecimal digit.
pub open spec fn hex_value(c: char) -> int {
    if is_digit(c) {
        c as int - 48
    } else {
        c as int - 55
    }
}

/// The bytes that a percent-encoded text stands for: each `%` with the two digits
/// behind it is one byte, and any other character is its own.
pub open spec fn percent_decode(s: Seq<char>) -> Seq<u8>
    decreases s.len(),
{
    if s.len() == 0 {
        Seq::empty()
    } else if s[0] == '%' && s.len() >= 3 {
        seq![(hex_value(s[1]) * 16 + hex_value(s[2])) as u8] + percent_decode(s.skip(3))
    } else {
        seq![s[0] as u8] + percent_decode(s.skip(1))
    }
}

proof fn lemma_decode_percent_byte(b: u8, rest: Seq<char>)
    ensures
        percent_decode(percent_byte(b) + rest) == seq![b] + percent_decode(rest),
{
    let s = percent_byte(b) + rest;
    assert(s.skip(3) == rest);
    assert(hex_value(hex_digit(b as int / 16)) == b as int / 16);
    assert(hex_value(hex_digit(b as int % 16)) == b as int % 16);
    assert((b as int / 16) * 16 + b as int % 16 == b);
}

proof fn lemma_decode_percent_bytes(bytes: Seq<u8>, rest: Seq<char>)
    ensures
        percent_decode(percent_bytes(bytes) + rest) == bytes + percent_decode(rest),
    decreases bytes.len(),
{
    if bytes.len() == 0 {
        assert(percent_bytes(bytes) + rest == rest);
        assert(bytes + percent_decode(rest) == percent_decode(rest));
    } else {
        let tail = percent_byte(bytes.last()) + rest;
        lemma_decode_percent_bytes(bytes.drop_last(), tail);
        lemma_decode_percent_byte(bytes.last(), rest);
        assert(percent_bytes(bytes) + rest == percent_bytes(bytes.drop_last()) + tail);
        assert(bytes.drop_last() + (seq![bytes.last()] + percent_decode(rest)) == bytes
            + percent_decode(rest));
    }
}

proof fn lemma_encode_one(c: char)
    ensures
        encode_utf8(seq![c]) == encode_scalar(c as u32),
{
    reveal_with_fuel(encode_utf8, 2);
    assert(seq![c].drop_first() == Seq::<char>::empty());
    assert(encode_scalar(c as u32) + Seq::<u8>::empty() == encode_scalar(c as u32));
}

proof fn lemma_decode_char(c: char, rest: Seq<char>)
    ensures
        percent_decode(encode_char(c) + rest) == encode_utf8(seq![underscore(c)])
            + percent_decode(rest),
{
    let u = underscore(c);
    if is_url_safe(u) {
        let s = encode_char(c) + rest;
        assert(s.skip(1) == rest);
        lemma_encode_one(u);
        assert(encode_scalar(u as u32) == seq![u as u8]) by {
            let v = u as u32;
            assert(v <= 0x7f ==> (v & 0x7f) as u8 == v as u8) by (bit_vector);
        }
    } else {
        lemma_decode_percent_bytes(encode_utf8(seq![c]), rest);
    }
}

proof fn lemma_encode_title_front(title: Seq<char>)
    requires
        title.len() > 0,
    ensures
        encode_title(title) == encode_char(title[0]) + encode_title(title.drop_first()),
    decreases title.len(),
{
    reveal_with_fuel(encode_title, 2);
    if title.len() == 1 {
        assert(title.drop_last() == Seq::<char>::empty());
        assert(title.drop_first() == Seq::<char>::empty());
    } else {
        lemma_encode_title_front(title.drop_last());
        assert(title.drop_last().drop_first() == title.drop_first().drop_last());
        assert(title.drop_first().last() == title.last());
    }
}

/// Percent-decoding an encoded title gives back the UTF-8 bytes of the title with
/// underscores for its spaces.
pub proof fn encoded_title_decodes(title: Seq<char>)
    ensures
        percent_decode(encode_title(title)) == encode_utf8(underscored(title)),
    decreases title.len(),
{
    if title.len() > 0 {
        let rest = title.drop_first();
        encoded_title_decodes(rest);
        lemma_encode_title_front(title);
        lemma_decode_char(title[0], encode_title(rest));
        lemma_encode_one(underscore(title[0]));
        assert(underscored(title).drop_first() == underscored(rest));
    }
}

/// Two titles have the same encoding exactly where they differ in nothing but
/// spaces and underscores.
pub proof fn encoded_titles_differ(a: Seq<char>, b: Seq<char>)
    ensures
        encode_title(a) == encode_title(b) <==> underscored(a) == underscored(b),
{
    encoded_title_decodes(a);
    encoded_title_decodes(b);
    if encode_title(a) == encode_title(b) {
        vstd::utf8::encode_utf8_decode_utf8(underscored(a));
        vstd::utf8::encode_utf8_decode_utf8(underscored(b));
        assert(decode_utf8(encode_utf8(underscored(a))) == underscored(a));
    }
    if underscored(a) == underscored(b) {
        lemma_encode_underscored(a);
        lemma_encode_underscored(b);
    }
}

/// A title and the same title with underscores for its spaces have one encoding.
proof fn lemma_encode_underscored(title: Seq<char>)
    ensures
        encode_title(underscored(title)) == encode_title(title),
    decreases title.len(),
{
    if title.len() > 0 {
        lemma_encode_underscored(title.drop_last());
        assert(underscored(title).drop_last() == underscored(title.drop_last()));
        assert(encode_char(underscore(title.last())) == encode_char(title.last()));
    }
}

/// Every media type falls into one of the kinds that Commons has.
pub proof fn media_type_is_a_known_kind(mime: Option<Seq<char>>)
    ensures
        file_types().contains(media_type(mime)),
{
    let kinds = file_types();
    assert(kinds[0] == "image"@ && kinds[1] == "audio"@ && kinds[2] == "video"@ && kinds[3]
        == "document"@ && kinds[4] == "other"@);
}

/// A file extension is one to five ASCII letters and digits, none of them upper-case
/// letters.
pub proof fn extension_is_short_and_lower_case(record_id: Seq<char>)
    ensures
        extension(record_id) matches Some(ext) ==> is_extension(ext) && forall|i: int|
            0 <= i < ext.len() ==> !('A' <= #[trigger] ext[i] <= 'Z'),
{
}

/// A title of two parts is encoded part by part.
pub proof fn encoding_goes_part_by_part(a: Seq<char>, b: Seq<char>)
    ensures
        encode_title(a + b) == encode_title(a) + encode_title(b),
        encode_title(seq![]) == Seq::<char>::empty(),
    decreases b.len(),
{
    if b.len() == 0 {
        assert(a + b =~= a);
        assert(encode_title(a) + encode_title(b) =~= encode_title(a));
    } else {
        encoding_goes_part_by_part(a, b.drop_last());
        assert((a + b).drop_last() =~= a + b.drop_last());
        assert((a + b).last() == b.last());
        assert(encode_title(a) + encode_title(b.drop_last()) + encode_char(b.last())
            =~= encode_title(a) + (encode_title(b.drop_last()) + encode_char(b.last())));
    }
}

/// Whether a character is an ASCII letter or digit or one of the six marks that an address
/// takes as they are.
pub open spec fn is_plain(c: char) -> bool {
    ||| 48 <= c as int <= 57
    ||| 65 <= c as int <= 90
    ||| 97 <= c as int <= 122
    ||| c == '-'
    ||| c == '_'
    ||| c == '.'
    ||| c == '~'
    ||| c == '/'
    ||| c == ':'
}

/// Whether a character is an upper-case hexadecimal digit.
pub open spec fn is_upper_hex(c: char) -> bool {
    48 <= c as int <= 57 || 65 <= c as int <= 70
}

/// The value of a hexadecimal digit that is a digit or an upper-case letter.
pub open spec fn upper_hex_value(c: char) -> int {
    if c as int <= 57 {
        c as int - 48
    } else {
        c as int - 55
    }
}

/// Whether a text has a percent sign at a position and behind it the two upper-case
/// hexadecimal digits of a byte.
pub open spec fn spells_byte(s: Seq<char>, at: int, b: u8) -> bool {
    &&& s[at] == '%'
    &&& is_upper_hex(s[at + 1])
    &&& is_upper_hex(s[at + 2])
    &&& b as int == upper_hex_value(s[at + 1]) * 16 + upper_hex_value(s[at + 2])
}

/// Whether a text writes bytes as a percent sign and two upper-case hexadecimal digits each.
pub open spec fn spells_bytes(s: Seq<char>, bytes: Seq<u8>) -> bool {
    &&& s.len() == 3 * bytes.len()
    &&& forall|k: int| 0 <= k < bytes.len() ==> spells_byte(s, 3 * k, #[trigger] bytes[k])
}

proof fn lemma_percent_bytes_spell(bytes: Seq<u8>)
    ensures
        spells_bytes(percent_bytes(bytes), bytes),
    decreases bytes.len(),
{
    if bytes.len() > 0 {
        let front = bytes.drop_last();
        let s = percent_bytes(bytes);
        let t = percent_bytes(front);
        let n = front.len() as int;
        lemma_percent_bytes_spell(front);
        assert(s.len() == t.len() + 3);
        assert forall|k: int| 0 <= k < bytes.len() implies spells_byte(
            s,
            3 * k,
            #[trigger] bytes[k],
        ) by {
            if k < n {
                assert(spells_byte(t, 3 * k, front[k]));
                assert(s[3 * k] == t[3 * k]);
                assert(s[3 * k + 1] == t[3 * k + 1]);
                assert(s[3 * k + 2] == t[3 * k + 2]);
            } else {
                let b = bytes[k];
                assert(s[3 * k] == percent_byte(b)[0]);
                assert(s[3 * k + 1] == percent_byte(b)[1]);
                assert(s[3 * k + 2] == percent_byte(b)[2]);
                assert((b as int / 16) * 16 + b as int % 16 == b);
            }
        }
    }
}

/// A space becomes an underscore, a letter, a digit and six marks stand for themselves, and
/// any other character becomes its UTF-8 bytes in percent-encoding.
pub proof fn character_is_encoded_by_its_kind(c: char)
    ensures
        c == ' ' ==> encode_title(seq![c]) == seq!['_'],
        is_plain(c) ==> encode_title(seq![c]) == seq![c],
        c != ' ' && !is_plain(c) ==> spells_bytes(encode_title(seq![c]), encode_utf8(seq![c])),
{
    assert(seq![c].drop_last() =~= seq![]);
    assert(encode_title(seq![]) =~= seq![]);
    assert(encode_title(seq![c]) =~= encode_char(c));
    lemma_percent_bytes_spell(encode_utf8(seq![c]));
}

/// The part of a MIME type in front decides the kind of medium, whatever comes behind it.
pub proof fn media_type_goes_by_the_front(rest: Seq<char>)
    ensures
        media_type(Some("image/"@ + rest)) == "image"@,
        media_type(Some("audio/"@ + rest)) == "audio"@,
        media_type(Some("video/"@ + rest)) == "video"@,
        media_type(Some("application/pdf"@ + rest)) == "document"@,
{
    reveal_strlit("image/");
    reveal_strlit("audio/");
    reveal_strlit("video/");
    reveal_strlit("application/pdf");
    let i = "image/"@ + rest;
    let a = "audio/"@ + rest;
    let v = "video/"@ + rest;
    let d = "application/pdf"@ + rest;
    assert(i.subrange(0, 6) =~= "image/"@);
    assert(a.subrange(0, 6) =~= "audio/"@);
    assert(v.subrange(0, 6) =~= "video/"@);
    assert(d.subrange(0, 15) =~= "application/pdf"@);
    assert(a.subrange(0, 6)[0] == 'a' && "image/"@[0] == 'i');
    assert(v.subrange(0, 6)[0] == 'v' && "audio/"@[0] == 'a');
    assert(d.subrange(0, 6)[0] == 'a' && d.subrange(0, 6)[1] == 'p' && "audio/"@[1] == 'u'
        && "video/"@[0] == 'v');
}

/// A MIME type that begins in none of the known ways, and none at all, is of the kind that
/// takes in the rest.
pub proof fn other_media_types_are_other(mime: Seq<char>)
    requires
        !"image/"@.is_prefix_of(mime),
        !"audio/"@.is_prefix_of(mime),
        !"video/"@.is_prefix_of(mime),
        !"application/pdf"@.is_prefix_of(mime),
    ensures
        media_type(Some(mime)) == "other"@,
        media_type(None) == "other"@,
{
}

/// Whether a text is one to five ASCII letters and digits.
pub open spec fn is_short_word(ext: Seq<char>) -> bool {
    &&& 1 <= ext.len() <= 5
    &&& forall|i: int|
        0 <= i < ext.len() ==> 48 <= #[trigger] ext[i] as int <= 57 || 65 <= ext[i] as int <= 90
            || 97 <= ext[i] as int <= 122
}

/// What stands behind the last dot of a name is its extension, in lower case, exactly where it
/// is one to five ASCII letters and digits, whatever stands in front of the dot.
pub proof fn extension_stands_behind_the_last_dot(stem: Seq<char>, ext: Seq<char>)
    requires
        !ext.contains('.'),
    ensures
        extension(stem.push('.') + ext) is Some <==> is_short_word(ext),
        extension(stem.push('.') + ext) matches Some(e) ==> e.len() == ext.len() && forall|i: int|
            #![trigger e[i]]
            0 <= i < e.len() ==> e[i] as int == (if 65 <= ext[i] as int <= 90 {
                ext[i] as int + 32
            } else {
                ext[i] as int
            }),
{
    let name = stem.push('.') + ext;
    let dot = stem.len() as int;
    name.index_of_last_ensures('.');
    assert(name[dot] == '.');
    assert(name.contains('.'));
    assert forall|k: int| dot < k < name.len() implies name[k] != '.' by {
        assert(name[k] == ext[k - dot - 1]);
        assert(ext.contains(ext[k - dot - 1]));
    }
    assert(name.index_of_last('.') == Some(dot));
    assert(name.skip(dot + 1) =~= ext);
    if is_short_word(ext) {
        assert forall|i: int| 0 <= i < ext.len() implies is_alphanumeric(#[trigger] ext[i]) by {}
    }
    if is_extension(ext) {
        assert forall|i: int| 0 <= i < ext.len() implies 48 <= #[trigger] ext[i] as int <= 57 || 65
            <= ext[i] as int <= 90 || 97 <= ext[i] as int <= 122 by {
            assert(is_alphanumeric(ext[i]));
        }
        assert(extension(name) == Some(ascii_lower(ext)));
    }
}

/// A name without a dot has no extension.
pub proof fn name_without_dot_has_no_extension(name: Seq<char>)
    requires
        !name.contains('.'),
    ensures
        extension(name) is None,
{
    name.index_of_last_ensures('.');
}

} // verus!
