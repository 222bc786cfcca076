//! Base64 as RFC 4648 defines it: the standard alphabet with `=` padding, and
//! the URL-safe alphabet without padding.

use vstd::prelude::*;

verus! {

/// The character of a six-bit value: `A`-`Z`, `a`-`z`, `0`-`9`, then `+` and
/// `/` in the standard alphabet or `-` and `_` in the URL-safe one.
pub open spec fn sextet_char(v: int, url_safe: bool) -> char {
    if v < 26 {
        (v + 65) as char
    } else if v < 52 {
        (v - 26 + 97) as char
    } else if v < 62 {
        (v - 52 + 48) as char
    } else if v == 62 {
        if url_safe { '-' } else { '+' }
    } else {
        if url_safe { '_' } else { '/' }
    }
}

/// The six-bit value of a character of the alphabet (the inverse of
/// `sextet_char`); zero for any other character.
pub open spec fn sextet_value(c: char, url_safe: bool) -> int {
    if 'A' <= c && c <= 'Z' {
        c as int - 65
    } else if 'a' <= c && c <= 'z' {
        c as int - 97 + 26
    } else if '0' <= c && c <= '9' {
        c as int - 48 + 52
    } else if c == (if url_safe { '-' } else { '+' }) {
        62
    } else if c == (if url_safe { '_' } else { '/' }) {
        63
    } else {
        0
    }
}

/// The 24-bit value of the first three bytes (zero for missing bytes).
pub open spec fn group_value(data: Seq<u8>) -> int {
    let b0 = data[0] as int;
    let b1 = if data.len() > 1 { data[1] as int } else { 0 };
    let b2 = if data.len() > 2 { data[2] as int } else { 0 };
    b0 * 65536 + b1 * 256 + b2
}

/// The encoding of one group of one to three bytes: a character for each
/// six bits that hold data (two, three or four), then, when padding, `=`
/// up to four characters.
pub open spec fn base64_group(data: Seq<u8>, url_safe: bool, pad: bool) -> Seq<char> {
    let n = group_value(data);
    let chars = seq![
        sextet_char(n / 262144, url_safe),
        sextet_char((n / 4096) % 64, url_safe),
        sextet_char((n / 64) % 64, url_safe),
        sextet_char(n % 64, url_safe),
    ];
    let used = chars.take(data.len() + 1int);
    if pad {
        used + Seq::new((3 - data.len()) as nat, |i: int| '=')
    } else {
        used
    }
}

/// The Base64 encoding of the bytes, three bytes at a time.
pub open spec fn base64_encode(data: Seq<u8>, url_safe: bool, pad: bool) -> Seq<char>
    decreases data.len(),
{
    if data.len() == 0 {
        Seq::<char>::empty()
    } else if data.len() <= 3 {
        base64_group(data, url_safe, pad)
    } else {
        base64_group(data.take(3), url_safe, pad) + base64_encode(data.skip(3), url_safe, pad)
    }
}

/// Standard Base64 with `=` padding.
pub open spec fn base64_standard(data: Seq<u8>) -> Seq<char> {
    base64_encode(data, false, true)
}

/// URL-safe Base64 without padding.
pub open spec fn base64_url_nopad(data: Seq<u8>) -> Seq<char> {
    base64_encode(data, true, false)
}

/// The standard Base64 decoding of padded text, four characters at a time;
/// a group ends early at `=`.
pub open spec fn base64_standard_decode(text: Seq<char>) -> Seq<u8>
    decreases text.len(),
{
    if text.len() < 4 {
        Seq::<u8>::empty()
    } else {
        let n = sextet_value(text[0], false) * 262144 + sextet_value(text[1], false) * 4096
            + sextet_value(text[2], false) * 64 + sextet_value(text[3], false);
        let count: int = if text[2] == '=' {
            1
        } else if text[3] == '=' {
            2
        } else {
            3
        };
        let bytes = seq![(n / 65536) as u8, ((n / 256) % 256) as u8, (n % 256) as u8];
        bytes.take(count) + base64_standard_decode(text.skip(4))
    }
}

/// A character of the standard alphabet.
pub open spec fn standard_char(c: char) -> bool {
    ('A' <= c && c <= 'Z') || ('a' <= c && c <= 'z') || ('0' <= c && c <= '9') || c == '+'
        || c == '/'
}

/// A character of the URL-safe alphabet.
pub open spec fn url_safe_char(c: char) -> bool {
    ('A' <= c && c <= 'Z') || ('a' <= c && c <= 'z') || ('0' <= c && c <= '9') || c == '-'
        || c == '_'
}

proof fn lemma_char_roundtrip(v: int, url_safe: bool)
    requires
        0 <= v < 64,
    ensures
        sextet_value(sextet_char(v, url_safe), url_safe) == v,
        sextet_char(v, url_safe) != '=',
        url_safe ==> url_safe_char(sextet_char(v, url_safe)),
        !url_safe ==> standard_char(sextet_char(v, url_safe)),
{
}

proof fn lemma_group_arith(b0: u32, b1: u32, b2: u32)
    by (bit_vector)
    requires
        b0 < 256,
        b1 < 256,
        b2 < 256,
    ensures
        ({
            let n = b0 * 65536 + b1 * 256 + b2;
            let m = (n / 262144) * 262144 + ((n / 4096) % 64) * 4096 + ((n / 64) % 64) * 64 + n
                % 64;
            &&& n / 262144 < 64
            &&& m == n
            &&& n / 65536 == b0
            &&& (n / 256) % 256 == b1
            &&& n % 256 == b2
            &&& (b2 == 0 ==> n % 64 == 0)
            &&& (b1 == 0 && b2 == 0 ==> (n / 64) % 64 == 0)
        }),
{
}

/// The group of one to three bytes: its characters lie in the alphabet (or
/// are `=` padding), and decoding them gives the bytes back.
proof fn lemma_group(data: Seq<u8>, url_safe: bool, pad: bool)
    requires
        1 <= data.len() <= 3,
    ensures
        pad ==> base64_group(data, url_safe, pad).len() == 4,
        !pad ==> base64_group(data, url_safe, pad).len() == data.len() + 1,
        forall|i: int|
            0 <= i < base64_group(data, url_safe, pad).len() ==> {
                let c = #[trigger] base64_group(data, url_safe, pad)[i];
                &&& (i <= data.len() ==> c != '=')
                &&& (i <= data.len() && url_safe ==> url_safe_char(c))
                &&& (i <= data.len() && !url_safe ==> standard_char(c))
                &&& (i > data.len() ==> c == '=')
            },
        pad && !url_safe ==> {
            let text = base64_group(data, url_safe, pad);
            let n = sextet_value(text[0], false) * 262144 + sextet_value(text[1], false) * 4096
                + sextet_value(text[2], false) * 64 + sextet_value(text[3], false);
            let count: int = if text[2] == '=' {
                1
            } else if text[3] == '=' {
                2
            } else {
                3
            };
            seq![(n / 65536) as u8, ((n / 256) % 256) as u8, (n % 256) as u8].take(count) =~= data
        },
{
    let b0 = data[0] as u32;
    let b1: u32 = if data.len() > 1 { data[1] as u32 } else { 0 };
    let b2: u32 = if data.len() > 2 { data[2] as u32 } else { 0 };
    lemma_group_arith(b0, b1, b2);
    let n = group_value(data);
    assert(n == b0 * 65536 + b1 * 256 + b2);
    lemma_char_roundtrip(n / 262144, url_safe);
    lemma_char_roundtrip((n / 4096) % 64, url_safe);
    lemma_char_roundtrip((n / 64) % 64, url_safe);
    lemma_char_roundtrip(n % 64, url_safe);
}

/// The length of an encoding: four characters a started group when padding,
/// one character for each started six bits when not.
pub proof fn lemma_base64_len(data: Seq<u8>, url_safe: bool, pad: bool)
    ensures
        pad ==> base64_encode(data, url_safe, pad).len() == 4 * ((data.len() + 2) / 3),
        !pad ==> base64_encode(data, url_safe, pad).len() == (4 * data.len() + 2) / 3,
    decreases data.len(),
{
    if data.len() == 0 {
    } else if data.len() <= 3 {
        lemma_group(data, url_safe, pad);
    } else {
        lemma_group(data.take(3), url_safe, pad);
        lemma_base64_len(data.skip(3), url_safe, pad);
    }
}

/// Every character of an encoding is in its alphabet, or is `=` padding.
pub proof fn lemma_base64_alphabet(data: Seq<u8>, url_safe: bool, pad: bool)
    ensures
        forall|i: int|
            0 <= i < base64_encode(data, url_safe, pad).len() ==> {
                let c = #[trigger] base64_encode(data, url_safe, pad)[i];
                &&& (url_safe ==> url_safe_char(c) || c == '=')
                &&& (!url_safe ==> standard_char(c) || c == '=')
                &&& (!pad ==> c != '=')
            },
    decreases data.len(),
{
    if data.len() == 0 {
    } else if data.len() <= 3 {
        lemma_group(data, url_safe, pad);
    } else {
        let head = base64_group(data.take(3), url_safe, pad);
        let tail = base64_encode(data.skip(3), url_safe, pad);
        lemma_group(data.take(3), url_safe, pad);
        lemma_base64_alphabet(data.skip(3), url_safe, pad);
        assert forall|i: int| 0 <= i < (head + tail).len() implies {
            let c = #[trigger] (head + tail)[i];
            &&& (url_safe ==> url_safe_char(c) || c == '=')
            &&& (!url_safe ==> standard_char(c) || c == '=')
            &&& (!pad ==> c != '=')
        } by {
            if i < head.len() {
                assert((head + tail)[i] == head[i]);
            } else {
                assert((head + tail)[i] == tail[i - head.len()]);
            }
        }
    }
}

/// A padded encoding of bytes that do not fill the last group ends in `=`.
pub proof fn lemma_base64_padded_end(data: Seq<u8>, url_safe: bool)
    requires
        data.len() % 3 != 0,
    ensures
        base64_encode(data, url_safe, true).last() == '=',
    decreases data.len(),
{
    if data.len() <= 3 {
        lemma_group(data, url_safe, true);
    } else {
        lemma_group(data.take(3), url_safe, true);
        lemma_base64_padded_end(data.skip(3), url_safe);
        lemma_base64_len(data.skip(3), url_safe, true);
    }
}

/// Standard padded Base64 decodes back to the bytes it encodes.
pub proof fn lemma_base64_standard_roundtrip(data: Seq<u8>)
    ensures
        base64_standard_decode(base64_standard(data)) == data,
    decreases data.len(),
{
    if data.len() == 0 {
        assert(base64_standard(data) =~= Seq::<char>::empty());
        assert(data =~= Seq::<u8>::empty());
    } else if data.len() <= 3 {
        lemma_group(data, false, true);
        let text = base64_standard(data);
        assert(text.skip(4) =~= Seq::<char>::empty());
        assert(base64_standard_decode(text.skip(4)) =~= Seq::<u8>::empty());
    } else {
        let head = base64_group(data.take(3), false, true);
        lemma_group(data.take(3), false, true);
        lemma_base64_standard_roundtrip(data.skip(3));
        let text = base64_standard(data);
        assert(text == head + base64_standard(data.skip(3)));
        assert(text.skip(4) =~= base64_standard(data.skip(3)));
        assert(text[0] == head[0] && text[1] == head[1] && text[2] == head[2] && text[3]
            == head[3]);
        assert(data.take(3) + data.skip(3) =~= data);
    }
}

} // verus!
