//! Identifiers: ULIDs held as their 128-bit value, with the `ulid` crate's
//! text form.
use vstd::prelude::*;

verus! {

/// The digit of value `d` (0 to 31) in the Crockford base-32 alphabet that
/// ULIDs are written in: the decimal digits, then the capital letters without
/// I, L, O and U.
pub open spec fn ulid_digit(d: int) -> char {
    if d < 10 {
        ((48 + d) as u8) as char
    } else if d < 18 {
        ((55 + d) as u8) as char
    } else if d == 18 {
        'J'
    } else if d == 19 {
        'K'
    } else if d == 20 {
        'M'
    } else if d == 21 {
        'N'
    } else if d < 27 {
        ((58 + d) as u8) as char
    } else {
        ((59 + d) as u8) as char
    }
}

/// The value of a ULID digit, letters read in either case; `None` for any
/// other character.
pub open spec fn ulid_digit_value(c: char) -> Option<int> {
    let n = c as int;
    if 48 <= n <= 57 {
        Some(n - 48)
    } else {
        let u = if 97 <= n <= 122 { n - 32 } else { n };
        if 65 <= u <= 72 {
            Some(u - 55)
        } else if u == 74 {
            Some(18)
        } else if u == 75 {
            Some(19)
        } else if u == 77 {
            Some(20)
        } else if u == 78 {
            Some(21)
        } else if 80 <= u <= 84 {
            Some(u - 58)
        } else if 86 <= u <= 90 {
            Some(u - 59)
        } else {
            None
        }
    }
}

/// `32` to the power `k`.
pub open spec fn pow32(k: nat) -> int
    decreases k,
{
    if k == 0 {
        1
    } else {
        32 * pow32((k - 1) as nat)
    }
}

/// The text the `ulid` crate writes a ULID value as: 26 base-32 digits, most
/// significant first.
pub open spec fn ulid_text(id: u128) -> Seq<char> {
    Seq::new(26, |i: int| ulid_digit((id as int / pow32((25 - i) as nat)) % 32))
}

/// The number that base-32 digits write, read most significant first
/// (`None` when a character is no digit).
pub open spec fn base32_value(s: Seq<char>) -> Option<int>
    decreases s.len(),
{
    if s.len() == 0 {
        Some(0)
    } else {
        match (base32_value(s.drop_last()), ulid_digit_value(s.last())) {
            (Some(v), Some(d)) => Some(v * 32 + d),
            _ => None,
        }
    }
}

/// The ULID value the `ulid` crate reads from a text: exactly 26 digits, whose
/// value is taken modulo 2^128 (the top two bits of the first digit are
/// dropped); `None` for any other text.
pub open spec fn ulid_parsed(s: Seq<char>) -> Option<u128> {
    if s.len() == 26 {
        match base32_value(s) {
            Some(v) => Some((v % 0x1_0000_0000_0000_0000_0000_0000_0000_0000int) as u128),
            None => None,
        }
    } else {
        None
    }
}

proof fn lemma_digit_roundtrip(d: int)
    requires
        0 <= d < 32,
    ensures
        ulid_digit_value(ulid_digit(d)) == Some(d),
{
}

proof fn lemma_pow32_positive(k: nat)
    ensures
        pow32(k) > 0,
    decreases k,
{
    if k > 0 {
        lemma_pow32_positive((k - 1) as nat);
    }
}

proof fn lemma_prefix_value(id: u128, k: int)
    requires
        0 <= k <= 26,
    ensures
        base32_value(ulid_text(id).take(k)) == Some(id as int / pow32((26 - k) as nat)),
    decreases k,
{
    let t = ulid_text(id);
    if k == 0 {
        assert(t.take(0) =~= Seq::<char>::empty());
        lemma_pow32_positive(26);
        assert(pow32(26) == 0x4_0000_0000_0000_0000_0000_0000_0000_0000int) by {
            reveal_with_fuel(pow32, 27);
        }
        assert(id as int / pow32(26) == 0) by {
            vstd::arithmetic::div_mod::lemma_basic_div(id as int, pow32(26));
        }
    } else {
        lemma_prefix_value(id, k - 1);
        assert(t.take(k).drop_last() =~= t.take(k - 1));
        let p = pow32((26 - k) as nat);
        lemma_pow32_positive((26 - k) as nat);
        let q = id as int / p;
        let d = q % 32;
        assert(0 <= d < 32);
        lemma_digit_roundtrip(d);
        assert(t.take(k).last() == ulid_digit(d));
        assert(pow32((27 - k) as nat) == 32 * p);
        vstd::arithmetic::div_mod::lemma_div_denominator(id as int, p, 32);
        assert(id as int / pow32((27 - k) as nat) == q / 32) by {
            vstd::arithmetic::mul::lemma_mul_is_commutative(p, 32);
        }
        vstd::arithmetic::div_mod::lemma_fundamental_div_mod(q, 32);
    }
}

/// A ULID's text reads back as the same value.
pub proof fn lemma_ulid_text_roundtrip(id: u128)
    ensures
        ulid_parsed(ulid_text(id)) == Some(id),
{
    lemma_prefix_value(id, 26);
    assert(ulid_text(id).take(26) =~= ulid_text(id));
    assert(pow32(0) == 1);
    vstd::arithmetic::div_mod::lemma_small_mod(id as nat, 0x1_0000_0000_0000_0000_0000_0000_0000_0000nat);
}

/// `<ulid::Ulid as Display>::to_string`: the text form of a ULID, its 26
/// base-32 digits.
#[verifier::external_body]
pub(crate) fn ulid_to_string(id: u128) -> (s: String)
    ensures
        s@ == ulid_text(id),
{
    ulid::Ulid(id).to_string()
}

/// `<ulid::Ulid as FromStr>::from_str` (`Ulid::from_string`): the value of a
/// text of 26 base-32 digits, or `None` when the crate rejects the text.
#[verifier::external_body]
pub(crate) fn parse_ulid(s: &str) -> (r: Option<u128>)
    ensures
        r == ulid_parsed(s@),
{
    match s.parse::<ulid::Ulid>() {
        Ok(u) => Some(u.0),
        Err(_) => None,
    }
}


/// `uuid::Uuid::new_v4` followed by `to_string`: a fresh random UUID in its
/// hyphenated text form. Being random, nothing is stated of it.
#[verifier::external_body]
pub(crate) fn new_uuid_v4() -> (r: String) {
    uuid::Uuid::new_v4().to_string()
}

} // verus!
