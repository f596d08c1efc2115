//! The base-field prime and modular negation of field elements.
//!
//! The prime is the fixed 254-bit base-field modulus of the pairing
//! curve.  Negation maps a decimal-encoded field element `y` to
//! `(PRIME - y) mod PRIME`, re-encoded canonically; it is the only
//! arithmetic the converter performs.

use vstd::prelude::*;
use crate::decimal::{
    dec_string_of, dec_value, digit_to_char, digits_ok, digits_to_string, digits_value,
    is_dec_seq, lemma_digits_value_bound, lemma_digits_value_leading, lemma_digits_value_push,
    lemma_digits_value_strip, lemma_digits_value_zero, lemma_pow10_mono, lemma_pow10_pos,
    parse_digits, sub_digits,
};
use crate::errors::ConvertError;

verus! {

/// How many decimal digits the prime has.
pub const PRIME_DIGIT_COUNT: usize = 77;

/// The base-field modulus.
pub open spec fn prime() -> nat {
    21888242871839275222246405745257275088548364400416034343698204186575808495617nat
}

/// `(prime() - v) mod prime()` on mathematical integers.
pub open spec fn neg_mod(v: nat) -> nat {
    if v % prime() == 0 {
        0
    } else {
        (prime() - v % prime()) as nat
    }
}

fn push_digit(r: &mut Vec<u8>, d: u8)
    requires
        d < 10,
        digits_ok(old(r)@),
    ensures
        final(r)@.len() == old(r)@.len() + 1,
        digits_ok(final(r)@),
        digits_value(final(r)@) == digits_value(old(r)@) * 10 + d,
{
    let ghost s0 = r@;
    r.push(d);
    proof {
        lemma_digits_value_push(s0, d);
    }
}

/// The prime, digit by digit, most significant first.
pub fn prime_digit_vec() -> (r: Vec<u8>)
    ensures
        digits_ok(r@),
        r@.len() == PRIME_DIGIT_COUNT,
        digits_value(r@) == prime(),
{
    let mut r: Vec<u8> = Vec::new();
    push_digit(&mut r, 2);
    push_digit(&mut r, 1);
    push_digit(&mut r, 8);
    push_digit(&mut r, 8);
    push_digit(&mut r, 8);
    push_digit(&mut r, 2);
    push_digit(&mut r, 4);
    push_digit(&mut r, 2);
    push_digit(&mut r, 8);
    push_digit(&mut r, 7);
    push_digit(&mut r, 1);
    push_digit(&mut r, 8);
    push_digit(&mut r, 3);
    push_digit(&mut r, 9);
    push_digit(&mut r, 2);
    push_digit(&mut r, 7);
    push_digit(&mut r, 5);
    push_digit(&mut r, 2);
    push_digit(&mut r, 2);
    push_digit(&mut r, 2);
    push_digit(&mut r, 2);
    push_digit(&mut r, 4);
    push_digit(&mut r, 6);
    push_digit(&mut r, 4);
    push_digit(&mut r, 0);
    push_digit(&mut r, 5);
    push_digit(&mut r, 7);
    push_digit(&mut r, 4);
    push_digit(&mut r, 5);
    push_digit(&mut r, 2);
    push_digit(&mut r, 5);
    push_digit(&mut r, 7);
    push_digit(&mut r, 2);
    push_digit(&mut r, 7);
    push_digit(&mut r, 5);
    push_digit(&mut r, 0);
    push_digit(&mut r, 8);
    push_digit(&mut r, 8);
    push_digit(&mut r, 5);
    push_digit(&mut r, 4);
    push_digit(&mut r, 8);
    push_digit(&mut r, 3);
    push_digit(&mut r, 6);
    push_digit(&mut r, 4);
    push_digit(&mut r, 4);
    push_digit(&mut r, 0);
    push_digit(&mut r, 0);
    push_digit(&mut r, 4);
    push_digit(&mut r, 1);
    push_digit(&mut r, 6);
    push_digit(&mut r, 0);
    push_digit(&mut r, 3);
    push_digit(&mut r, 4);
    push_digit(&mut r, 3);
    push_digit(&mut r, 4);
    push_digit(&mut r, 3);
    push_digit(&mut r, 6);
    push_digit(&mut r, 9);
    push_digit(&mut r, 8);
    push_digit(&mut r, 2);
    push_digit(&mut r, 0);
    push_digit(&mut r, 4);
    push_digit(&mut r, 1);
    push_digit(&mut r, 8);
    push_digit(&mut r, 6);
    push_digit(&mut r, 5);
    push_digit(&mut r, 7);
    push_digit(&mut r, 5);
    push_digit(&mut r, 8);
    push_digit(&mut r, 0);
    push_digit(&mut r, 8);
    push_digit(&mut r, 4);
    push_digit(&mut r, 9);
    push_digit(&mut r, 5);
    push_digit(&mut r, 6);
    push_digit(&mut r, 1);
    push_digit(&mut r, 7);
    r
}

/// Negation in the base field, on decimal strings.  Succeeds exactly on
/// non-empty digit strings whose value lies below the prime, and then
/// returns the canonical decimal rendering of `(prime() - y) mod prime()`.
pub fn negate_field_element(y: &str) -> (r: Result<String, ConvertError>)
    ensures
        r is Ok <==> is_dec_seq(y@) && dec_value(y@) < prime(),
        r matches Ok(s) ==> s@ == dec_string_of(neg_mod(dec_value(y@))),
        r matches Err(e) ==> e == ConvertError::InvalidFieldElement,
{
    let d: Vec<u8> = match parse_digits(y) {
        Some(d) => d,
        None => {
            return Err(ConvertError::InvalidFieldElement);
        },
    };
    let ghost v = dec_value(y@);
    let n = d.len();
    let mut j: usize = 0;
    while j < n && d[j] == 0
        invariant
            j <= n,
            n == d@.len(),
            forall|i: int| 0 <= i < j ==> d@[i] == 0,
        decreases n - j,
    {
        j += 1;
    }
    proof {
        lemma_digits_value_strip(d@, j as int);
    }
    let m = n - j;
    let p = prime_digit_vec();
    proof {
        lemma_digits_value_bound(p@);
    }
    if m > PRIME_DIGIT_COUNT {
        proof {
            let s = d@.skip(j as int);
            lemma_digits_value_leading(s);
            lemma_pow10_mono(PRIME_DIGIT_COUNT as nat, (s.len() - 1) as nat);
        }
        return Err(ConvertError::InvalidFieldElement);
    }
    if m == 0 {
        proof {
            assert(d@.skip(j as int) =~= Seq::<u8>::empty());
            assert(v == 0);
            reveal_strlit("0");
            assert("0"@ =~= seq![digit_to_char(0)]);
        }
        return Ok(String::from_str("0"));
    }
    let pad = PRIME_DIGIT_COUNT - m;
    let mut padded: Vec<u8> = Vec::new();
    let mut t: usize = 0;
    while t < pad
        invariant
            t <= pad,
            padded@.len() == t,
            forall|i: int| 0 <= i < t ==> padded@[i] == 0,
        decreases pad - t,
    {
        padded.push(0);
        t += 1;
    }
    let mut u: usize = j;
    while u < n
        invariant
            j <= u <= n,
            n == d@.len(),
            digits_ok(d@),
            padded@.len() == pad + (u - j),
            pad == PRIME_DIGIT_COUNT - m,
            m == n - j,
            forall|i: int| 0 <= i < pad ==> padded@[i] == 0,
            forall|i: int| pad <= i < padded@.len() ==> padded@[i] == d@[j + i - pad],
        decreases n - u,
    {
        padded.push(d[u]);
        u += 1;
    }
    proof {
        assert(padded@.skip(pad as int) =~= d@.skip(j as int));
        lemma_digits_value_strip(padded@, pad as int);
        assert(digits_value(padded@) == v);
        assert(digits_ok(padded@));
        lemma_digits_value_leading(d@.skip(j as int));
        lemma_pow10_pos((m - 1) as nat);
        assert(v >= 1);
    }
    let diff = match sub_digits(&p, &padded) {
        Some(diff) => diff,
        None => {
            return Err(ConvertError::InvalidFieldElement);
        },
    };
    let mut j2: usize = 0;
    while j2 < PRIME_DIGIT_COUNT && diff[j2] == 0
        invariant
            j2 <= PRIME_DIGIT_COUNT,
            diff@.len() == PRIME_DIGIT_COUNT,
            forall|i: int| 0 <= i < j2 ==> diff@[i] == 0,
        decreases PRIME_DIGIT_COUNT - j2,
    {
        j2 += 1;
    }
    if j2 == PRIME_DIGIT_COUNT {
        proof {
            lemma_digits_value_zero(diff@);
        }
        return Err(ConvertError::InvalidFieldElement);
    }
    proof {
        lemma_digits_value_strip(diff@, j2 as int);
        lemma_digits_value_leading(diff@.skip(j2 as int));
        lemma_pow10_pos((diff@.len() - j2 - 1) as nat);
        assert(digits_value(diff@) >= 1);
        vstd::arithmetic::div_mod::lemma_small_mod(v, prime());
        assert(digits_value(diff@) == prime() - v);
        assert(neg_mod(v) == prime() - v);
    }
    Ok(digits_to_string(&diff, j2))
}

/// A negated element is always reduced below the prime, so the string
/// `negate_field_element` returns is accepted by a second negation.
pub proof fn lemma_neg_mod_bounded(v: nat)
    ensures
        neg_mod(v) < prime(),
        is_dec_seq(dec_string_of(neg_mod(v))),
        dec_value(dec_string_of(neg_mod(v))) == neg_mod(v),
{
    vstd::arithmetic::div_mod::lemma_mod_bound(v as int, prime() as int);
    crate::decimal::lemma_dec_string_of_value(neg_mod(v));
}

/// Negation in the base field is an involution: negating a reduced
/// element twice gives the element back.
pub proof fn lemma_neg_mod_involution(v: nat)
    requires
        v < prime(),
    ensures
        neg_mod(neg_mod(v)) == v,
{
    vstd::arithmetic::div_mod::lemma_small_mod(v, prime());
    if v != 0 {
        let w = (prime() - v) as nat;
        vstd::arithmetic::div_mod::lemma_small_mod(w, prime());
    }
}

} // verus!
