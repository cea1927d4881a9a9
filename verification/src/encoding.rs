//! Byte encodings and digests the server uses on the wire: SHA-256 and
//! Base64, computed by the `sha2` and `base64` crates.
use vstd::prelude::*;

verus! {

/// The SHA-256 digest of a byte string.
pub uninterp spec fn sha256_digest(data: Seq<u8>) -> Seq<u8>;

/// `sha2::Sha256::digest`: the SHA-256 digest of `data`. Its result depends on
/// the bytes alone and is 32 bytes long; the hash function is not restated.
#[verifier::external_body]
pub(crate) fn sha256(data: &[u8]) -> (r: Vec<u8>)
    ensures
        r@ == sha256_digest(data@),
        r@.len() == 32,
{
    <sha2::Sha256 as sha2::Digest>::digest(data).to_vec()
}

/// The symbol of the Base64 alphabet for a six-bit value: `A`-`Z`, `a`-`z`,
/// `0`-`9`, then `+` and `/`, or `-` and `_` in the URL-safe alphabet (`url`).
pub open spec fn base64_symbol(url: bool, v: int) -> char {
    if v < 26 {
        (65 + v) as char
    } else if v < 52 {
        (71 + v) as char
    } else if v < 62 {
        (v - 4) as char
    } else if v == 62 {
        if url { '-' } else { '+' }
    } else {
        if url { '_' } else { '/' }
    }
}

/// The Base64 text of a byte string: every three bytes become four symbols
/// of six bits each, high bits first; a last one or two bytes become two or
/// three symbols, the unused low bits zero, followed by `=` up to a multiple
/// of four when `padded`.
pub open spec fn base64_text(url: bool, padded: bool, data: Seq<u8>) -> Seq<char>
    decreases data.len(),
{
    if data.len() == 0 {
        seq![]
    } else if data.len() == 1 {
        let b0 = data[0] as int;
        seq![base64_symbol(url, b0 / 4), base64_symbol(url, (b0 % 4) * 16)]
            + if padded { seq!['=', '='] } else { seq![] }
    } else if data.len() == 2 {
        let b0 = data[0] as int;
        let b1 = data[1] as int;
        seq![
            base64_symbol(url, b0 / 4),
            base64_symbol(url, (b0 % 4) * 16 + b1 / 16),
            base64_symbol(url, (b1 % 16) * 4),
        ] + if padded { seq!['='] } else { seq![] }
    } else {
        let b0 = data[0] as int;
        let b1 = data[1] as int;
        let b2 = data[2] as int;
        seq![
            base64_symbol(url, b0 / 4),
            base64_symbol(url, (b0 % 4) * 16 + b1 / 16),
            base64_symbol(url, (b1 % 16) * 4 + b2 / 64),
            base64_symbol(url, b2 % 64),
        ] + base64_text(url, padded, data.skip(3))
    }
}

/// The Base64 text (standard alphabet, padded) of a byte string.
pub open spec fn base64_standard(data: Seq<u8>) -> Seq<char> {
    base64_text(false, true, data)
}

/// `base64::engine::general_purpose::STANDARD.encode`: the padded Base64
/// text of `data` in the standard alphabet.
#[verifier::external_body]
pub(crate) fn base64_encode(data: &[u8]) -> (r: String)
    ensures
        r@ == base64_standard(data@),
{
    <base64::engine::GeneralPurpose as base64::Engine>::encode(&base64::engine::general_purpose::STANDARD, data)
}

/// The bytes whose URL-safe Base64 text, padded or not as `padded` says, is
/// `s`; `None` when `s` is no such text. The text of a byte string is unique
/// (`lemma_base64_text_injective`), so there is at most one.
pub open spec fn base64_url_decoded(padded: bool, s: Seq<char>) -> Option<Seq<u8>> {
    if exists|b: Seq<u8>| base64_text(true, padded, b) == s {
        Some(choose|b: Seq<u8>| base64_text(true, padded, b) == s)
    } else {
        None
    }
}

/// `Engine::decode` of `base64::engine::general_purpose::URL_SAFE` (when
/// `padded`) or `URL_SAFE_NO_PAD`. Both engines reject trailing bits that
/// are not zero, and the first requires canonical padding where the second
/// forbids any, so they accept exactly the texts that their `encode` writes:
/// the bytes are returned for those, and `None` for every other text.
#[verifier::external_body]
pub(crate) fn base64_url_decode(padded: bool, s: &str) -> (r: Option<Vec<u8>>)
    ensures
        r matches Some(v) ==> base64_text(true, padded, v@) == s@,
        r is None ==> forall|b: Seq<u8>| base64_text(true, padded, b) != s@,
{
    let engine = if padded {
        &base64::engine::general_purpose::URL_SAFE
    } else {
        &base64::engine::general_purpose::URL_SAFE_NO_PAD
    };
    <base64::engine::GeneralPurpose as base64::Engine>::decode(engine, s).ok()
}

proof fn lemma_symbol_facts(url: bool, v: int, w: int)
    requires
        0 <= v < 64,
        0 <= w < 64,
    ensures
        base64_symbol(url, v) != '=',
        base64_symbol(url, v) == base64_symbol(url, w) ==> v == w,
{
}

/// Two byte strings with the same Base64 text are equal.
pub proof fn lemma_base64_text_injective(url: bool, padded: bool, a: Seq<u8>, b: Seq<u8>)
    requires
        base64_text(url, padded, a) == base64_text(url, padded, b),
    ensures
        a == b,
    decreases a.len(),
{
    let ta = base64_text(url, padded, a);
    let tb = base64_text(url, padded, b);
    if b.len() < 3 && a.len() >= 3 {
        lemma_base64_text_injective(url, padded, b, a);
    } else if a.len() >= 3 {
        let (a0, a1, a2) = (a[0] as int, a[1] as int, a[2] as int);
        let (b0, b1, b2) = (b[0] as int, b[1] as int, b[2] as int);
        lemma_symbol_facts(url, a0 / 4, b0 / 4);
        lemma_symbol_facts(url, (a0 % 4) * 16 + a1 / 16, (b0 % 4) * 16 + b1 / 16);
        lemma_symbol_facts(url, (a1 % 16) * 4 + a2 / 64, (b1 % 16) * 4 + b2 / 64);
        lemma_symbol_facts(url, a2 % 64, b2 % 64);
        assert(ta[0] == tb[0] && ta[1] == tb[1] && ta[2] == tb[2] && ta[3] == tb[3]);
        assert(ta.skip(4) =~= base64_text(url, padded, a.skip(3)));
        assert(tb.skip(4) =~= base64_text(url, padded, b.skip(3)));
        lemma_base64_text_injective(url, padded, a.skip(3), b.skip(3));
        assert(a =~= seq![a[0], a[1], a[2]] + a.skip(3));
        assert(b =~= seq![b[0], b[1], b[2]] + b.skip(3));
    } else if a.len() == 0 {
        assert(ta.len() == 0);
    } else {
        let a0 = a[0] as int;
        let b0 = b[0] as int;
        if a.len() == 1 && b.len() == 1 {
            lemma_symbol_facts(url, a0 / 4, b0 / 4);
            lemma_symbol_facts(url, (a0 % 4) * 16, (b0 % 4) * 16);
            assert(ta[0] == tb[0] && ta[1] == tb[1]);
            assert(a =~= b);
        } else if a.len() == 2 && b.len() == 2 {
            let a1 = a[1] as int;
            let b1 = b[1] as int;
            lemma_symbol_facts(url, a0 / 4, b0 / 4);
            lemma_symbol_facts(url, (a0 % 4) * 16 + a1 / 16, (b0 % 4) * 16 + b1 / 16);
            lemma_symbol_facts(url, (a1 % 16) * 4, (b1 % 16) * 4);
            assert(ta[0] == tb[0] && ta[1] == tb[1] && ta[2] == tb[2]);
            assert(a =~= b);
        } else if b.len() == 0 {
            assert(tb.len() == 0);
        } else if !padded {
            assert(ta.len() != tb.len());
        } else if a.len() == 1 {
            let b1 = b[1] as int;
            lemma_symbol_facts(url, (b1 % 16) * 4, 0);
            if b.len() >= 3 {
                let b2 = b[2] as int;
                lemma_symbol_facts(url, (b1 % 16) * 4 + b2 / 64, 0);
            }
            assert(ta[2] == tb[2]);
        } else if b.len() == 1 {
            lemma_symbol_facts(url, (a[1] as int % 16) * 4, 0);
            assert(ta[2] == tb[2]);
        } else {
            lemma_symbol_facts(url, b[2] as int % 64, 0);
            assert(ta[3] == tb[3]);
        }
    }
}

proof fn lemma_decoded_is_unique(padded: bool, s: Seq<char>, v: Seq<u8>)
    requires
        base64_text(true, padded, v) == s,
    ensures
        base64_url_decoded(padded, s) == Some(v),
{
    let c = choose|b: Seq<u8>| base64_text(true, padded, b) == s;
    lemma_base64_text_injective(true, padded, c, v);
}

/// The bytes of a URL-safe Base64 text as push subscriptions carry it: read
/// without padding first, and with padding when that fails.
pub open spec fn url_b64_bytes(s: Seq<char>) -> Option<Seq<u8>> {
    match base64_url_decoded(false, s) {
        Some(b) => Some(b),
        None => base64_url_decoded(true, s),
    }
}

/// Decodes URL-safe Base64, with or without padding; `Err(())` when it is
/// neither.
pub fn decode_url_b64(s: &str) -> (r: Result<Vec<u8>, ()>)
    ensures
        r matches Ok(v) ==> url_b64_bytes(s@) == Some(v@),
        r is Err <==> url_b64_bytes(s@) is None,
{
    match base64_url_decode(false, s) {
        Some(v) => {
            proof {
                lemma_decoded_is_unique(false, s@, v@);
            }
            Ok(v)
        },
        None => match base64_url_decode(true, s) {
            Some(v) => {
                proof {
                    lemma_decoded_is_unique(true, s@, v@);
                }
                Ok(v)
            },
            None => Err(()),
        },
    }
}

} // verus!
