//! The `Content-Disposition` of downloads.

use vstd::prelude::*;
use vstd::utf8::encode_utf8;
use crate::text::{chars_of, owned, push_char, push_str};

verus! {

/// How a filename character appears inside the quoted parameter: printable ASCII and the space
/// as themselves, except quotes and backslashes, and anything else as an underscore.
pub open spec fn quoted_char(c: char) -> char {
    if c == '"' || c == '\\' {
        '_'
    } else if ('!' <= c <= '~') || c == ' ' {
        c
    } else {
        '_'
    }
}

/// Whether a byte stands for itself in the extended parameter: an ASCII letter or digit, or one
/// of `-`, `.`, `_`, `~`.
pub open spec fn unreserved(b: u8) -> bool {
    (0x30 <= b <= 0x39) || (0x41 <= b <= 0x5A) || (0x61 <= b <= 0x7A) || b == 0x2D || b == 0x2E
        || b == 0x5F || b == 0x7E
}

/// An upper-case hexadecimal digit.
pub open spec fn upper_hex(d: u8) -> char {
    if d < 10 {
        ((0x30 + d) as u8) as char
    } else {
        ((0x41 + d - 10) as u8) as char
    }
}

/// How a byte appears in the extended parameter: itself when unreserved, `%XX` otherwise.
pub open spec fn encoded_byte(b: u8) -> Seq<char> {
    if unreserved(b) {
        seq![b as char]
    } else {
        seq!['%', upper_hex(b / 16), upper_hex(b % 16)]
    }
}

/// The percent-encoding of a sequence of bytes.
pub open spec fn percent_encoded(bytes: Seq<u8>) -> Seq<char>
    decreases bytes.len(),
{
    if bytes.len() == 0 {
        seq![]
    } else {
        percent_encoded(bytes.drop_last()) + encoded_byte(bytes.last())
    }
}

/// The header for a file download: the quoted form for ASCII readers and the extended UTF-8
/// form for everything else, as RFC 6266 asks. A filename can never break out of the header.
pub open spec fn disposition_of(filename: Seq<char>) -> Seq<char> {
    "attachment; filename=\""@ + filename.map_values(|c: char| quoted_char(c))
        + "\"; filename*=UTF-8''"@ + percent_encoded(encode_utf8(filename))
}

fn hex_char(d: u8) -> (c: char)
    requires
        d < 16,
    ensures
        c == upper_hex(d),
{
    if d < 10 {
        (0x30u8 + d) as char
    } else {
        (0x41u8 + d - 10) as char
    }
}

/// Builds the `Content-Disposition` for an attachment download.
pub fn content_disposition(filename: &str) -> (r: String)
    ensures
        r@ == disposition_of(filename@),
{
    let mut r = owned("attachment; filename=\"");
    let ghost start = r@;
    let v = chars_of(filename);
    let mut i: usize = 0;
    while i < v.len()
        invariant
            v@ == filename@,
            i <= v@.len(),
            r@ == start + v@.take(i as int).map_values(|c: char| quoted_char(c)),
        decreases v@.len() - i,
    {
        let c = v[i];
        let q = if c == '"' || c == '\\' {
            '_'
        } else if ('!' <= c && c <= '~') || c == ' ' {
            c
        } else {
            '_'
        };
        push_char(&mut r, q);
        i = i + 1;
        assert(v@.take(i as int).map_values(|c: char| quoted_char(c)) =~= v@.take(
            i - 1,
        ).map_values(|c: char| quoted_char(c)).push(quoted_char(v@[i - 1])));
    }
    assert(v@.take(v@.len() as int) =~= v@);
    push_str(&mut r, "\"; filename*=UTF-8''");
    let ghost middle = r@;
    let bytes = filename.as_bytes();
    let mut k: usize = 0;
    while k < bytes.len()
        invariant
            bytes@ == encode_utf8(filename@),
            k <= bytes@.len(),
            r@ == middle + percent_encoded(bytes@.take(k as int)),
        decreases bytes@.len() - k,
    {
        let b = bytes[k];
        if (0x30 <= b && b <= 0x39) || (0x41 <= b && b <= 0x5A) || (0x61 <= b && b <= 0x7A) || b
            == 0x2D || b == 0x2E || b == 0x5F || b == 0x7E {
            push_char(&mut r, b as char);
        } else {
            push_char(&mut r, '%');
            push_char(&mut r, hex_char(b / 16));
            push_char(&mut r, hex_char(b % 16));
        }
        k = k + 1;
        assert(bytes@.take(k as int).drop_last() =~= bytes@.take(k - 1));
        assert(r@ =~= middle + percent_encoded(bytes@.take(k as int)));
    }
    assert(bytes@.take(bytes@.len() as int) =~= bytes@);
    r
}

/// A filename without its double quotes.
pub open spec fn without_quotes(s: Seq<char>) -> Seq<char>
    decreases s.len(),
{
    if s.len() == 0 {
        s
    } else if s.last() == '"' {
        without_quotes(s.drop_last())
    } else {
        without_quotes(s.drop_last()).push(s.last())
    }
}

/// The `Content-Disposition` of an export: its filename, with any double quote removed.
pub fn export_disposition(filename: &str) -> (r: String)
    ensures
        r@ == "attachment; filename=\""@ + without_quotes(filename@) + "\""@,
{
    let mut r = owned("attachment; filename=\"");
    let ghost start = r@;
    let v = chars_of(filename);
    let mut i: usize = 0;
    while i < v.len()
        invariant
            v@ == filename@,
            i <= v@.len(),
            r@ == start + without_quotes(v@.take(i as int)),
        decreases v@.len() - i,
    {
        if v[i] != '"' {
            push_char(&mut r, v[i]);
        }
        i = i + 1;
        assert(v@.take(i as int).drop_last() =~= v@.take(i - 1));
        assert(r@ =~= start + without_quotes(v@.take(i as int)));
    }
    assert(v@.take(v@.len() as int) =~= v@);
    push_str(&mut r, "\"");
    r
}

} // verus!
