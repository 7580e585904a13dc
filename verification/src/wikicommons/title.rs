//! What the title and the media type of a Commons file say of it.

use crate::text::{
    all_alphanumeric, ascii_lower, chars_of, is_alphanumeric, starts_with, text_from,
    to_ascii_lower,
};
use vstd::prelude::*;
use vstd::utf8::encode_utf8;

verus! {

/// Whether a character stands for itself in the address of a wiki page.
pub open spec fn is_url_safe(c: char) -> bool {
    is_alphanumeric(c) || c == '-' || c == '_' || c == '.' || c == '~' || c == '/' || c == ':'
}

/// A space as the wiki writes it in an address; any other character is its own.
pub open spec fn underscore(c: char) -> char {
    if c == ' ' {
        '_'
    } else {
        c
    }
}

/// A title with underscores in place of spaces.
pub open spec fn underscored(title: Seq<char>) -> Seq<char> {
    Seq::new(title.len(), |i: int| underscore(title[i]))
}

/// The upper-case hexadecimal digit of a number below sixteen.
pub open spec fn hex_digit(n: int) -> char {
    if n < 10 {
        (48 + n) as char
    } else {
        (55 + n) as char
    }
}

/// A byte in percent-encoding: `%` and two hexadecimal digits.
pub open spec fn percent_byte(b: u8) -> Seq<char> {
    seq!['%', hex_digit(b as int / 16), hex_digit(b as int % 16)]
}

/// Bytes in percent-encoding, one after the other.
pub open spec fn percent_bytes(bytes: Seq<u8>) -> Seq<char>
    decreases bytes.len(),
{
    if bytes.len() == 0 {
        Seq::empty()
    } else {
        percent_bytes(bytes.drop_last()) + percent_byte(bytes.last())
    }
}

/// One character of a title in the address of its page.
pub open spec fn encode_char(c: char) -> Seq<char> {
    if is_url_safe(underscore(c)) {
        seq![underscore(c)]
    } else {
        percent_bytes(encode_utf8(seq![c]))
    }
}

/// A title in the address of its page, character by character.
pub open spec fn encode_title(title: Seq<char>) -> Seq<char>
    decreases title.len(),
{
    if title.len() == 0 {
        Seq::empty()
    } else {
        encode_title(title.drop_last()) + encode_char(title.last())
    }
}

fn push_hex_digit(out: &mut String, n: u8)
    requires
        n < 16,
    ensures
        final(out)@ == old(out)@.push(hex_digit(n as int)),
{
    if n < 10 {
        out.push((48 + n) as char);
    } else {
        out.push((55 + n) as char);
    }
}

fn push_percent_byte(out: &mut String, b: u8)
    ensures
        final(out)@ == old(out)@ + percent_byte(b),
{
    out.push('%');
    push_hex_digit(out, b / 16);
    push_hex_digit(out, b % 16);
}

/// Writes a title as the address of its page has it: underscores for spaces, and
/// the UTF-8 bytes of what is not safe there in percent-encoding.
pub fn encode_title_for_url(title: &str) -> (r: String)
    ensures
        r@ == encode_title(title@),
{
    let chars: Vec<char> = chars_of(title);
    let mut out: String = String::new();
    let mut i: usize = 0;
    while i < chars.len()
        invariant
            i <= chars@.len(),
            chars@ == title@,
            out@ == encode_title(chars@.take(i as int)),
        decreases chars@.len() - i,
    {
        let c: char = if chars[i] == ' ' {
            '_'
        } else {
            chars[i]
        };
        let ghost before = out@;
        if ('A' <= c && c <= 'Z') || ('a' <= c && c <= 'z') || ('0' <= c && c <= '9') || c == '-'
            || c == '_' || c == '.' || c == '~' || c == '/' || c == ':' {
            out.push(c);
        } else {
            let mut one: String = String::new();
            one.push(c);
            assert(one@ == seq![c]);
            let bytes: &[u8] = one.as_str().as_bytes();
            let mut k: usize = 0;
            while k < bytes.len()
                invariant
                    k <= bytes@.len(),
                    out@ == before + percent_bytes(bytes@.take(k as int)),
                decreases bytes@.len() - k,
            {
                push_percent_byte(&mut out, bytes[k]);
                assert(bytes@.take(k + 1).drop_last() == bytes@.take(k as int));
                k += 1;
            }
            assert(bytes@.take(k as int) == bytes@);
        }
        assert(out@ == before + encode_char(chars@[i as int]));
        assert(chars@.take(i + 1).drop_last() == chars@.take(i as int));
        i += 1;
    }
    assert(chars@.take(i as int) == chars@);
    out
}

/// The kind of medium that a MIME type stands for.
pub open spec fn media_type(mime: Option<Seq<char>>) -> Seq<char> {
    match mime {
        None => "other"@,
        Some(m) => if "image/"@.is_prefix_of(m) {
            "image"@
        } else if "audio/"@.is_prefix_of(m) {
            "audio"@
        } else if "video/"@.is_prefix_of(m) {
            "video"@
        } else if "application/pdf"@.is_prefix_of(m) {
            "document"@
        } else {
            "other"@
        },
    }
}

/// Puts a MIME type into one of the kinds of medium that the gateway knows.
pub fn media_type_for(mime: Option<&str>) -> (r: String)
    ensures
        r@ == media_type(mime.deep_view()),
{
    let kind: &str = match mime {
        None => "other",
        Some(m) => if starts_with(m, "image/") {
            "image"
        } else if starts_with(m, "audio/") {
            "audio"
        } else if starts_with(m, "video/") {
            "video"
        } else if starts_with(m, "application/pdf") {
            "document"
        } else {
            "other"
        },
    };
    kind.to_owned()
}

/// Whether a text can be the extension of a file: one to five ASCII letters and
/// digits.
pub open spec fn is_extension(ext: Seq<char>) -> bool {
    &&& 1 <= ext.len() <= 5
    &&& forall|i: int| 0 <= i < ext.len() ==> is_alphanumeric(#[trigger] ext[i])
}

/// The file extension that a record's name ends in: what follows the last dot, in
/// lower case, where that can be an extension.
pub open spec fn extension(record_id: Seq<char>) -> Option<Seq<char>> {
    match record_id.index_of_last('.') {
        None => None,
        Some(dot) => {
            let ext = record_id.skip(dot + 1);
            if is_extension(ext) {
                Some(ascii_lower(ext))
            } else {
                None
            }
        },
    }
}

/// Reads the file extension off a record's name.
pub fn file_extension_for(record_id: &str) -> (r: Option<String>)
    ensures
        r.deep_view() == extension(record_id@),
{
    let chars: Vec<char> = chars_of(record_id);
    let mut n: usize = chars.len();
    while n > 0 && chars[n - 1] != '.'
        invariant
            n <= chars@.len(),
            chars@ == record_id@,
            forall|k: int| n <= k < chars@.len() ==> chars@[k] != '.',
        decreases n,
    {
        n -= 1;
    }
    proof {
        record_id@.index_of_last_ensures('.');
    }
    if n == 0 {
        assert(!record_id@.contains('.'));
        return None;
    }
    assert(record_id@[n - 1] == '.');
    assert(record_id@.index_of_last('.') == Some(n - 1));
    let ghost ext = record_id@.skip(n as int);
    if chars.len() == n || chars.len() - n > 5 {
        return None;
    }
    if !all_alphanumeric(&chars, n) {
        proof {
            let k = choose|k: int| n <= k < chars@.len() && !is_alphanumeric(#[trigger] chars@[k]);
            assert(!is_alphanumeric(ext[k - n]));
        }
        return None;
    }
    assert(is_extension(ext)) by {
        assert forall|i: int| 0 <= i < ext.len() implies is_alphanumeric(#[trigger] ext[i]) by {
            assert(ext[i] == chars@[n + i]);
        }
    }
    let text: String = text_from(&chars, n);
    Some(to_ascii_lower(text.as_str()))
}

} // verus!
