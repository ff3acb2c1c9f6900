//! Flat key/value query strings: the pairs that a query string holds, the
//! text that a list of pairs makes, and the lookup of a key.

use vstd::prelude::*;
use vstd::string::*;
use vstd::utf8::{char_u32_cast, encode_utf8, is_ascii_chars, is_ascii_chars_encode_utf8};
use crate::text::{digit, split, str_eq};

verus! {

/// A list of parameters as pairs of character sequences.
pub open spec fn pairs_view(params: Seq<(&str, &str)>) -> Seq<(Seq<char>, Seq<char>)> {
    params.map_values(|p: (&str, &str)| (p.0@, p.1@))
}

/// The pair that one `&`-delimited piece of a query string stands for: what
/// precedes its first `=` and what lies between its first and second `=`.
/// A piece without `=` stands for nothing.
pub open spec fn piece_pair(piece: Seq<char>) -> Option<(Seq<char>, Seq<char>)> {
    let parts = split(piece, '=');
    if parts.len() >= 2 {
        Some((parts[0], parts[1]))
    } else {
        None
    }
}

/// The pairs of a list of pieces, in order, pieces without `=` left out.
pub open spec fn pieces_pairs(pieces: Seq<Seq<char>>) -> Seq<(Seq<char>, Seq<char>)>
    decreases pieces.len(),
{
    if pieces.len() == 0 {
        seq![]
    } else {
        let before = pieces_pairs(pieces.drop_last());
        match piece_pair(pieces.last()) {
            Some(pair) => before.push(pair),
            None => before,
        }
    }
}

/// The pairs that a query string holds.
pub open spec fn querified(query: Seq<char>) -> Seq<(Seq<char>, Seq<char>)> {
    pieces_pairs(split(query, '&'))
}

/// Every pair written as `key=value&`, one after the other.
pub open spec fn stringified(pairs: Seq<(Seq<char>, Seq<char>)>) -> Seq<char>
    decreases pairs.len(),
{
    if pairs.len() == 0 {
        seq![]
    } else {
        stringified(pairs.drop_last()) + pairs.last().0 + seq!['='] + pairs.last().1 + seq!['&']
    }
}

/// The pairs written as `key=value` and joined by `&`.
pub open spec fn joined(pairs: Seq<(Seq<char>, Seq<char>)>) -> Seq<char>
    decreases pairs.len(),
{
    if pairs.len() == 0 {
        seq![]
    } else if pairs.len() == 1 {
        pairs[0].0 + seq!['='] + pairs[0].1
    } else {
        joined(pairs.drop_last()) + seq!['&'] + pairs.last().0 + seq!['='] + pairs.last().1
    }
}

/// The value of the last pair whose key is `key`.
pub open spec fn last_value(pairs: Seq<(Seq<char>, Seq<char>)>, key: Seq<char>) -> Option<
    Seq<char>,
>
    decreases pairs.len(),
{
    if pairs.len() == 0 {
        None
    } else if pairs.last().0 == key {
        Some(pairs.last().1)
    } else {
        last_value(pairs.drop_last(), key)
    }
}

/// `stringified` is `joined` with one more `&` at the end.
pub proof fn lemma_stringified_joined(pairs: Seq<(Seq<char>, Seq<char>)>)
    requires
        pairs.len() > 0,
    ensures
        stringified(pairs) == joined(pairs) + seq!['&'],
    decreases pairs.len(),
{
    if pairs.len() == 1 {
        assert(pairs.drop_last().len() == 0);
        assert(stringified(pairs.drop_last()) =~= seq![]);
        assert(pairs.last() == pairs[0]);
        assert(stringified(pairs) =~= joined(pairs) + seq!['&']);
    } else {
        lemma_stringified_joined(pairs.drop_last());
        assert(stringified(pairs) =~= joined(pairs) + seq!['&']);
    }
}

/// Calls `querystring::querify`. By its source it splits the text on `&`,
/// splits each piece on `=`, keeps the first two parts of a piece as key and
/// value, and skips a piece that has no `=`: that is `querified`.
#[verifier::external_body]
pub(crate) fn querify<'a>(query: &'a str) -> (pairs: Vec<(&'a str, &'a str)>)
    ensures
        pairs_view(pairs@) == querified(query@),
{
    querystring::querify(query)
}

/// Calls `querystring::stringify`. By its source it folds over the pairs
/// and appends `key`, `=`, `value` and `&` for each: that is `stringified`.
#[verifier::external_body]
pub(crate) fn stringify(params: Vec<(&str, &str)>) -> (text: String)
    ensures
        text@ == stringified(pairs_view(params@)),
{
    querystring::stringify(params)
}

/// Whether the form encoding writes a byte as it is: the ASCII letters and
/// digits and `*`, `-`, `.`, `_`.
pub open spec fn form_plain(byte: u8) -> bool {
    ||| byte == 0x2a
    ||| byte == 0x2d
    ||| byte == 0x2e
    ||| byte == 0x5f
    ||| 0x30 <= byte <= 0x39
    ||| 0x41 <= byte <= 0x5a
    ||| 0x61 <= byte <= 0x7a
}

/// The upper-case hexadecimal digit for a value below sixteen.
pub open spec fn upper_hex(n: nat) -> char {
    if n < 10 {
        digit(n)
    } else if n == 10 {
        'A'
    } else if n == 11 {
        'B'
    } else if n == 12 {
        'C'
    } else if n == 13 {
        'D'
    } else if n == 14 {
        'E'
    } else {
        'F'
    }
}

/// One byte in the form encoding: itself where it is plain, `+` for a
/// space, else `%` and its two hexadecimal digits.
pub open spec fn form_byte(byte: u8) -> Seq<char> {
    if form_plain(byte) {
        seq![byte as char]
    } else if byte == 0x20 {
        seq!['+']
    } else {
        seq!['%', upper_hex((byte / 16) as nat), upper_hex((byte % 16) as nat)]
    }
}

/// A sequence of bytes in the form encoding, byte by byte.
pub open spec fn form_bytes(bytes: Seq<u8>) -> Seq<char>
    decreases bytes.len(),
{
    if bytes.len() == 0 {
        seq![]
    } else {
        form_bytes(bytes.drop_last()) + form_byte(bytes.last())
    }
}

/// A text in the form encoding: that of its UTF-8 bytes.
pub open spec fn form_text(text: Seq<char>) -> Seq<char> {
    form_bytes(encode_utf8(text))
}

/// The `application/x-www-form-urlencoded` text of a list of pairs: each
/// pair as its key, `=` and its value, both in the form encoding, and the
/// pairs joined by `&`.
pub open spec fn form_urlencoded(pairs: Seq<(Seq<char>, Seq<char>)>) -> Seq<char>
    decreases pairs.len(),
{
    if pairs.len() == 0 {
        seq![]
    } else if pairs.len() == 1 {
        form_text(pairs[0].0) + seq!['='] + form_text(pairs[0].1)
    } else {
        form_urlencoded(pairs.drop_last()) + seq!['&'] + form_text(pairs.last().0) + seq!['=']
            + form_text(pairs.last().1)
    }
}

/// Whether a text is made of plain characters alone: ASCII letters and
/// digits and `*`, `-`, `.`, `_`.
pub open spec fn plain_text(text: Seq<char>) -> bool {
    forall|i: int|
        0 <= i < text.len() ==> '\0' <= #[trigger] text[i] <= '\u{7f}' && form_plain(
            text[i] as u8,
        )
}

/// Plain bytes stand for themselves in the form encoding.
pub proof fn lemma_form_bytes_plain(bytes: Seq<u8>)
    requires
        forall|i: int| 0 <= i < bytes.len() ==> form_plain(#[trigger] bytes[i]),
    ensures
        form_bytes(bytes) == Seq::new(bytes.len(), |i: int| bytes[i] as char),
    decreases bytes.len(),
{
    if bytes.len() > 0 {
        let before = bytes.drop_last();
        lemma_form_bytes_plain(before);
        assert(form_plain(bytes.last()));
        assert(form_bytes(bytes) =~= Seq::new(bytes.len(), |i: int| bytes[i] as char));
    } else {
        assert(form_bytes(bytes) =~= Seq::new(bytes.len(), |i: int| bytes[i] as char));
    }
}

/// A plain text is its own form encoding.
pub proof fn lemma_form_text_plain(text: Seq<char>)
    requires
        plain_text(text),
    ensures
        form_text(text) == text,
{
    assert(is_ascii_chars(text));
    is_ascii_chars_encode_utf8(text);
    let bytes = encode_utf8(text);
    assert forall|i: int| 0 <= i < bytes.len() implies form_plain(#[trigger] bytes[i]) by {
        assert(bytes[i] == text[i] as u8);
    }
    lemma_form_bytes_plain(bytes);
    assert forall|i: int| 0 <= i < text.len() implies (bytes[i] as char) == text[i] by {
        let c = text[i];
        assert(bytes[i] == c as u8);
        char_u32_cast(c, c as u32);
        assert((c as u32) < 128);
        assert((c as u8) as u32 == c as u32);
    }
    assert(form_text(text) =~= text);
}

/// Pairs of plain texts are form-encoded as they are joined.
pub proof fn lemma_form_urlencoded_plain(pairs: Seq<(Seq<char>, Seq<char>)>)
    requires
        forall|i: int|
            0 <= i < pairs.len() ==> plain_text((#[trigger] pairs[i]).0) && plain_text(
                pairs[i].1,
            ),
    ensures
        form_urlencoded(pairs) == joined(pairs),
    decreases pairs.len(),
{
    if pairs.len() > 0 {
        lemma_form_text_plain(pairs.last().0);
        lemma_form_text_plain(pairs.last().1);
        if pairs.len() > 1 {
            lemma_form_urlencoded_plain(pairs.drop_last());
        }
    }
}

/// Has a fresh `url::form_urlencoded::Serializer` take the pairs with
/// `extend_pairs`, and returns what `finish` hands back. By its source the
/// serializer writes `&` before every pair but the first, then the key,
/// `=` and the value; a key or a value is written byte by byte, a letter,
/// a digit or one of `*-._` as it is, a space as `+`, and any other byte
/// as `%` and two upper-case hexadecimal digits: that is
/// `form_urlencoded`.
#[verifier::external_body]
pub(crate) fn form_encode(params: Vec<(&str, &str)>) -> (body: String)
    ensures
        body@ == form_urlencoded(pairs_view(params@)),
{
    url::form_urlencoded::Serializer::new(String::new()).extend_pairs(params).finish()
}

/// The value of the last pair with the given key, if any pair has it.
pub fn lookup<'a>(pairs: &Vec<(&'a str, &'a str)>, key: &str) -> (found: Option<&'a str>)
    ensures
        match found {
            Some(value) => last_value(pairs_view(pairs@), key@) == Some(value@),
            None => last_value(pairs_view(pairs@), key@) is None,
        },
{
    let mut found: Option<&'a str> = None;
    let mut i: usize = 0;
    while i < pairs.len()
        invariant
            i <= pairs.len(),
            match found {
                Some(value) => last_value(pairs_view(pairs@.take(i as int)), key@) == Some(
                    value@,
                ),
                None => last_value(pairs_view(pairs@.take(i as int)), key@) is None,
            },
        decreases pairs.len() - i,
    {
        let pair = pairs[i];
        proof {
            let before = pairs_view(pairs@.take(i as int));
            let with_pair = pairs_view(pairs@.take(i + 1));
            assert(with_pair.drop_last() =~= before);
            assert(with_pair.last() == (pair.0@, pair.1@));
        }
        if str_eq(pair.0, key) {
            found = Some(pair.1);
        }
        i = i + 1;
    }
    assert(pairs@.take(i as int) =~= pairs@);
    found
}

} // verus!
