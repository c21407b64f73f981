//! Standard base64 (RFC 4648, with padding) and the splash page's `data:` URL.

use vstd::prelude::*;
use vstd::string::StringSliceAdditionalSpecFns;
use crate::text::{push_char, push_str};

verus! {

/// The base64 alphabet: `A-Z`, `a-z`, `0-9`, `+`, `/`.
pub open spec fn b64_char(v: u32) -> char {
    if v < 26 {
        ((v + 65) as u8) as char
    } else if v < 52 {
        ((v + 71) as u8) as char
    } else if v < 62 {
        ((v - 4) as u8) as char
    } else if v == 62 {
        '+'
    } else {
        '/'
    }
}

/// The four characters for a group of three bytes.
pub open spec fn quad(b0: u8, b1: u8, b2: u8) -> Seq<char> {
    seq![
        b64_char((b0 >> 2u8) as u32),
        b64_char((((b0 & 3u8) << 4u8) | (b1 >> 4u8)) as u32),
        b64_char((((b1 & 15u8) << 2u8) | (b2 >> 6u8)) as u32),
        b64_char((b2 & 63u8) as u32),
    ]
}

/// The base64 encoding of `d`: one group of four characters per three bytes,
/// a short last group zero-filled and padded with `=`.
pub open spec fn base64_of(d: Seq<u8>) -> Seq<char>
    decreases d.len(),
{
    if d.len() == 0 {
        Seq::empty()
    } else if d.len() == 1 {
        quad(d[0], 0, 0).subrange(0, 2) + seq!['=', '=']
    } else if d.len() == 2 {
        quad(d[0], d[1], 0).subrange(0, 3) + seq!['=']
    } else {
        quad(d[0], d[1], d[2]) + base64_of(d.subrange(3, d.len() as int))
    }
}

/// The character of the alphabet at `v`.
fn b64_digit(v: u32) -> (c: char)
    requires
        v < 64,
    ensures
        c == b64_char(v),
{
    if v < 26 {
        ((v + 65) as u8) as char
    } else if v < 52 {
        ((v + 71) as u8) as char
    } else if v < 62 {
        ((v - 4) as u8) as char
    } else if v == 62 {
        '+'
    } else {
        '/'
    }
}

proof fn lemma_sextets(b0: u8, b1: u8, b2: u8)
    ensures
        ({
            let n = ((b0 as u32) << 16u32) | ((b1 as u32) << 8u32) | (b2 as u32);
            &&& (n >> 18u32) & 63u32 == (b0 >> 2u8) as u32
            &&& (n >> 12u32) & 63u32 == (((b0 & 3u8) << 4u8) | (b1 >> 4u8)) as u32
            &&& (n >> 6u32) & 63u32 == (((b1 & 15u8) << 2u8) | (b2 >> 6u8)) as u32
            &&& n & 63u32 == (b2 & 63u8) as u32
        }),
{
    assert(({
        let n = ((b0 as u32) << 16u32) | ((b1 as u32) << 8u32) | (b2 as u32);
        &&& (n >> 18u32) & 63u32 == (b0 >> 2u8) as u32
        &&& (n >> 12u32) & 63u32 == (((b0 & 3u8) << 4u8) | (b1 >> 4u8)) as u32
        &&& (n >> 6u32) & 63u32 == (((b1 & 15u8) << 2u8) | (b2 >> 6u8)) as u32
        &&& n & 63u32 == (b2 & 63u8) as u32
    })) by (bit_vector);
}

/// The base64 encoding of `data`.
pub fn to_base64(data: &[u8]) -> (r: String)
    ensures
        r@ == base64_of(data@),
{
    let len = data.len();
    let mut out = String::new();
    let mut i: usize = 0;
    assert(data@.subrange(0, len as int) =~= data@);
    assert(out@ + base64_of(data@) =~= base64_of(data@));
    while i < len
        invariant
            len == data@.len(),
            i <= len,
            out@ + base64_of(data@.subrange(i as int, len as int)) == base64_of(data@),
        decreases len - i,
    {
        let ghost rest = data@.subrange(i as int, len as int);
        let b0 = data[i];
        let b1: u8 = if len - i > 1 { data[i + 1] } else { 0 };
        let b2: u8 = if len - i > 2 { data[i + 2] } else { 0 };
        let n: u32 = ((b0 as u32) << 16u32) | ((b1 as u32) << 8u32) | (b2 as u32);
        proof {
            lemma_sextets(b0, b1, b2);
            assert((n >> 18u32) & 63u32 < 64) by (bit_vector);
            assert((n >> 12u32) & 63u32 < 64) by (bit_vector);
            assert((n >> 6u32) & 63u32 < 64) by (bit_vector);
            assert(n & 63u32 < 64) by (bit_vector);
        }
        let ghost before = out@;
        push_char(&mut out, b64_digit((n >> 18u32) & 63u32));
        push_char(&mut out, b64_digit((n >> 12u32) & 63u32));
        if len - i > 1 {
            push_char(&mut out, b64_digit((n >> 6u32) & 63u32));
        } else {
            push_char(&mut out, '=');
        }
        if len - i > 2 {
            push_char(&mut out, b64_digit(n & 63u32));
        } else {
            push_char(&mut out, '=');
        }
        let next: usize = if len - i > 3 { i + 3 } else { len };
        proof {
            let q = quad(b0, b1, b2);
            assert(rest[0] == b0);
            if len - i > 2 {
                assert(rest[1] == b1 && rest[2] == b2);
                assert(rest.subrange(3, rest.len() as int) =~= data@.subrange(next as int, len as int));
                assert(out@ =~= before + q);
                assert(base64_of(rest) == q + base64_of(data@.subrange(next as int, len as int)));
            } else if len - i > 1 {
                assert(rest[1] == b1);
                assert(out@ =~= before + base64_of(rest));
            } else {
                assert(out@ =~= before + base64_of(rest));
            }
            assert(data@.subrange(next as int, len as int).len() == 0 ==> base64_of(
                data@.subrange(next as int, len as int),
            ) =~= Seq::<char>::empty());
            assert(out@ + base64_of(data@.subrange(next as int, len as int)) =~= before + base64_of(rest));
        }
        i = next;
    }
    assert(base64_of(data@.subrange(len as int, len as int)) =~= Seq::<char>::empty());
    assert(out@ =~= base64_of(data@));
    out
}

/// A `data:` URL that carries `html` inline, base64-encoded.
pub fn splash_data_url(html: &str) -> (r: String)
    ensures
        r@ == "data:text/html;base64,"@ + base64_of(html.spec_bytes()),
{
    let mut url = String::new();
    push_str(&mut url, "data:text/html;base64,");
    let encoded = to_base64(html.as_bytes());
    push_str(&mut url, encoded.as_str());
    url
}

} // verus!
