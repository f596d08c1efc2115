//! Decimal-string arithmetic over unsigned big integers.
//!
//! Field elements travel through the converter as decimal strings.  This
//! module gives them a mathematical reading (`dec_value`), a canonical
//! rendering (`dec_string_of`), and the one arithmetic operation the
//! converter needs: subtraction of a bounded value from a fixed minuend,
//! carried out digit by digit on base-10 digit vectors.

use vstd::prelude::*;

verus! {

/// A character is a decimal digit `'0'..='9'`.
pub open spec fn char_is_digit(c: char) -> bool {
    48 <= c as u32 && c as u32 <= 57
}

/// Numeric value of a digit character.
pub open spec fn char_digit(c: char) -> nat {
    (c as u32 - 48) as nat
}

/// A non-empty string of decimal digits (leading zeros allowed).
pub open spec fn is_dec_seq(s: Seq<char>) -> bool {
    s.len() > 0 && forall|i: int| 0 <= i < s.len() ==> char_is_digit(s[i])
}

/// The unsigned integer denoted by a digit string, most significant first.
pub open spec fn dec_value(s: Seq<char>) -> nat
    decreases s.len(),
{
    if s.len() == 0 {
        0
    } else {
        dec_value(s.drop_last()) * 10 + char_digit(s.last())
    }
}

/// Every entry of a digit vector is a base-10 digit.
pub open spec fn digits_ok(s: Seq<u8>) -> bool {
    forall|i: int| 0 <= i < s.len() ==> s[i] < 10
}

/// The unsigned integer denoted by a digit vector, most significant first.
pub open spec fn digits_value(s: Seq<u8>) -> nat
    decreases s.len(),
{
    if s.len() == 0 {
        0
    } else {
        digits_value(s.drop_last()) * 10 + s.last() as nat
    }
}

/// `10^k`.
pub open spec fn pow10(k: nat) -> nat
    decreases k,
{
    if k == 0 {
        1
    } else {
        10 * pow10((k - 1) as nat)
    }
}

/// The digit character for a value below ten.
pub open spec fn digit_to_char(d: nat) -> char {
    if d == 0 { '0' }
    else if d == 1 { '1' }
    else if d == 2 { '2' }
    else if d == 3 { '3' }
    else if d == 4 { '4' }
    else if d == 5 { '5' }
    else if d == 6 { '6' }
    else if d == 7 { '7' }
    else if d == 8 { '8' }
    else { '9' }
}

/// The canonical decimal rendering of a number: no leading zeros,
/// and `0` itself is the single character `'0'`.
pub open spec fn dec_string_of(n: nat) -> Seq<char>
    decreases n,
{
    if n < 10 {
        seq![digit_to_char(n)]
    } else {
        dec_string_of(n / 10).push(digit_to_char(n % 10))
    }
}

/// Reads a decimal string into its digit vector.  Succeeds exactly on
/// non-empty all-digit strings; leading zeros are accepted.
pub fn parse_digits(s: &str) -> (r: Option<Vec<u8>>)
    ensures
        r is Some <==> is_dec_seq(s@),
        r matches Some(d) ==> {
            &&& digits_ok(d@)
            &&& d@.len() == s@.len()
            &&& forall|i: int| 0 <= i < d@.len() ==> d@[i] as nat == char_digit(s@[i])
            &&& digits_value(d@) == dec_value(s@)
        },
{
    let n = s.unicode_len();
    if n == 0 {
        return None;
    }
    let mut d: Vec<u8> = Vec::new();
    let mut i: usize = 0;
    while i < n
        invariant
            i <= n,
            n == s@.len(),
            d@.len() == i,
            forall|j: int| 0 <= j < i ==> char_is_digit(s@[j]),
            forall|j: int| 0 <= j < i ==> d@[j] < 10 && d@[j] as nat == char_digit(s@[j]),
        decreases n - i,
    {
        let c = s.get_char(i);
        let u = c as u32;
        if u < 48 || u > 57 {
            return None;
        }
        d.push((u - 48) as u8);
        i += 1;
    }
    proof {
        lemma_digits_value_of_chars(s@, d@);
    }
    Some(d)
}

/// A digit vector and a digit string that agree entry-wise denote the
/// same number.
pub proof fn lemma_digits_value_of_chars(s: Seq<char>, d: Seq<u8>)
    requires
        d.len() == s.len(),
        forall|i: int| 0 <= i < d.len() ==> d[i] as nat == char_digit(s[i]),
    ensures
        digits_value(d) == dec_value(s),
    decreases s.len(),
{
    if s.len() > 0 {
        lemma_digits_value_of_chars(s.drop_last(), d.drop_last());
    }
}

pub proof fn lemma_pow10_pos(k: nat)
    ensures
        pow10(k) >= 1,
    decreases k,
{
    if k > 0 {
        lemma_pow10_pos((k - 1) as nat);
    }
}

pub proof fn lemma_pow10_mono(a: nat, b: nat)
    requires
        a <= b,
    ensures
        pow10(a) <= pow10(b),
    decreases b,
{
    if a < b {
        lemma_pow10_mono(a, (b - 1) as nat);
        lemma_pow10_pos((b - 1) as nat);
    }
}

/// Concatenation shifts the high part by one power of ten per low digit.
pub proof fn lemma_digits_value_concat(a: Seq<u8>, b: Seq<u8>)
    ensures
        digits_value(a + b) == digits_value(a) * pow10(b.len()) + digits_value(b),
    decreases b.len(),
{
    if b.len() == 0 {
        assert(a + b =~= a);
        assert(digits_value(b) == 0);
        assert(pow10(b.len()) == 1);
        assert(digits_value(a) * 1 == digits_value(a));
    } else {
        lemma_digits_value_concat(a, b.drop_last());
        let ab = a + b;
        let va = digits_value(a);
        let p1 = pow10((b.len() - 1) as nat);
        assert(ab.len() == a.len() + b.len());
        assert(ab.last() == b.last());
        assert(ab.drop_last() =~= a + b.drop_last());
        assert(digits_value(ab) == digits_value(a + b.drop_last()) * 10 + b.last() as nat);
        assert(digits_value(a + b.drop_last()) == va * p1 + digits_value(b.drop_last()));
        assert(pow10(b.len()) == 10 * p1);
        assert((va * p1 + digits_value(b.drop_last())) * 10
            == va * p1 * 10 + digits_value(b.drop_last()) * 10);
        assert(va * p1 * 10 == va * (10 * p1)) by (nonlinear_arith);
        assert(digits_value(b) == digits_value(b.drop_last()) * 10 + b.last() as nat);
        assert(digits_value(ab) == va * (10 * p1) + digits_value(b));
        assert(va * (10 * p1) == digits_value(a) * pow10(b.len()));
        assert(digits_value(a + b) == digits_value(a) * pow10(b.len()) + digits_value(b));
    }
}

pub proof fn lemma_digits_value_singleton(x: u8)
    ensures
        digits_value(seq![x]) == x,
{
    reveal_with_fuel(digits_value, 2);
    assert(seq![x].drop_last() =~= Seq::<u8>::empty());
    assert(seq![x].last() == x);
    assert(digits_value(Seq::<u8>::empty()) == 0);
}

/// Peeling the most significant digit off a digit vector.
pub proof fn lemma_digits_value_cons(x: u8, rest: Seq<u8>)
    ensures
        digits_value(seq![x] + rest) == x * pow10(rest.len()) + digits_value(rest),
{
    lemma_digits_value_concat(seq![x], rest);
    lemma_digits_value_singleton(x);
}

/// A digit vector denotes a value below `10^len`.
pub proof fn lemma_digits_value_bound(s: Seq<u8>)
    requires
        digits_ok(s),
    ensures
        digits_value(s) < pow10(s.len()),
    decreases s.len(),
{
    if s.len() > 0 {
        lemma_digits_value_bound(s.drop_last());
    }
}

/// An all-zero digit vector denotes zero.
pub proof fn lemma_digits_value_zero(s: Seq<u8>)
    requires
        forall|i: int| 0 <= i < s.len() ==> s[i] == 0,
    ensures
        digits_value(s) == 0,
    decreases s.len(),
{
    if s.len() > 0 {
        lemma_digits_value_zero(s.drop_last());
    }
}

/// A digit vector with a non-zero leading digit denotes at least
/// `10^(len - 1)`.
pub proof fn lemma_digits_value_leading(s: Seq<u8>)
    requires
        digits_ok(s),
        s.len() > 0,
        s[0] >= 1,
    ensures
        digits_value(s) >= pow10((s.len() - 1) as nat),
{
    let rest = s.skip(1);
    assert(s =~= seq![s[0]] + rest);
    lemma_digits_value_cons(s[0], rest);
    lemma_pow10_pos(rest.len());
    assert(s[0] as nat * pow10(rest.len()) >= pow10(rest.len())) by (nonlinear_arith)
        requires
            s[0] >= 1,
            pow10(rest.len()) >= 1,
    ;
}

/// Pushing a digit multiplies the value by ten and adds the digit.
pub proof fn lemma_digits_value_push(s: Seq<u8>, d: u8)
    ensures
        digits_value(s.push(d)) == digits_value(s) * 10 + d,
{
    assert(s.push(d).drop_last() =~= s);
}

/// Stripping leading zeros keeps the value.
pub proof fn lemma_digits_value_strip(s: Seq<u8>, j: int)
    requires
        0 <= j <= s.len(),
        forall|i: int| 0 <= i < j ==> s[i] == 0,
    ensures
        digits_value(s.skip(j)) == digits_value(s),
{
    let zeros = s.take(j);
    assert(s =~= zeros + s.skip(j));
    lemma_digits_value_concat(zeros, s.skip(j));
    lemma_digits_value_zero(zeros);
}

/// The digit characters of a digit vector, in order.
pub open spec fn chars_of_digits(s: Seq<u8>) -> Seq<char> {
    Seq::new(s.len(), |i: int| digit_to_char(s[i] as nat))
}

/// A digit vector without leading zeros renders to the canonical decimal
/// string of its value.
pub proof fn lemma_canonical_chars(s: Seq<u8>)
    requires
        digits_ok(s),
        s.len() > 0,
        s.len() == 1 || s[0] >= 1,
    ensures
        chars_of_digits(s) == dec_string_of(digits_value(s)),
    decreases s.len(),
{
    let v = digits_value(s);
    if s.len() == 1 {
        lemma_digits_value_singleton(s[0]);
        assert(s =~= seq![s[0]]);
        assert(v == s[0]);
        assert(chars_of_digits(s) =~= seq![digit_to_char(v)]);
    } else {
        let hd = s.drop_last();
        lemma_canonical_chars(hd);
        lemma_digits_value_leading(hd);
        lemma_pow10_pos((hd.len() - 1) as nat);
        let vd = digits_value(hd);
        assert(v == vd * 10 + s.last() as nat);
        assert(vd >= 1);
        assert(v >= 10) by (nonlinear_arith)
            requires
                v == vd * 10 + s.last() as nat,
                vd >= 1,
        ;
        vstd::arithmetic::div_mod::lemma_fundamental_div_mod_converse(
            v as int, 10, vd as int, s.last() as int);
        assert(vd == v / 10 && s.last() as int == v as int % 10);
        assert(dec_string_of(v) == dec_string_of(vd).push(digit_to_char(s.last() as nat)));
        assert(chars_of_digits(s) =~= chars_of_digits(hd).push(digit_to_char(s.last() as nat)));
    }
}

/// Digit-by-digit subtraction of equally long digit vectors, most
/// significant digit first.  Returns the difference when the subtrahend
/// does not exceed the minuend, and reports the comparison outcome
/// otherwise.
pub fn sub_digits(a: &Vec<u8>, b: &Vec<u8>) -> (r: Option<Vec<u8>>)
    requires
        a@.len() == b@.len(),
        digits_ok(a@),
        digits_ok(b@),
    ensures
        r is Some <==> digits_value(b@) <= digits_value(a@),
        r matches Some(d) ==> {
            &&& digits_ok(d@)
            &&& d@.len() == a@.len()
            &&& digits_value(d@) == digits_value(a@) - digits_value(b@)
        },
{
    let n = a.len();
    let mut out: Vec<u8> = Vec::new();
    let mut t: usize = 0;
    while t < n
        invariant
            t <= n,
            out@.len() == t,
            forall|i: int| 0 <= i < t ==> out@[i] == 0,
        decreases n - t,
    {
        out.push(0);
        t += 1;
    }
    let mut borrow: bool = false;
    let mut k: usize = 0;
    while k < n
        invariant
            k <= n,
            n == a@.len() == b@.len() == out@.len(),
            digits_ok(a@),
            digits_ok(b@),
            digits_ok(out@),
            digits_value(a@.skip(n - k)) + (if borrow { pow10(k as nat) } else { 0 })
                == digits_value(out@.skip(n - k)) + digits_value(b@.skip(n - k)),
        decreases n - k,
    {
        let i = n - 1 - k;
        let ghost out_pre = out@;
        let ghost bin: int = if borrow { 1 } else { 0 };
        let need: u8 = b[i] + (if borrow { 1 } else { 0 });
        let di: u8;
        if a[i] >= need {
            di = a[i] - need;
            borrow = false;
        } else {
            di = a[i] + 10 - need;
            borrow = true;
        }
        out.set(i, di);
        proof {
            let ii = i as int;
            let pk = pow10(k as nat) as int;
            let bout: int = if borrow { 1 } else { 0 };
            assert(a@.skip(ii) =~= seq![a@[ii]] + a@.skip(ii + 1));
            assert(b@.skip(ii) =~= seq![b@[ii]] + b@.skip(ii + 1));
            assert(out@.skip(ii) =~= seq![di] + out@.skip(ii + 1));
            assert(out@.skip(ii + 1) =~= out_pre.skip(ii + 1));
            assert(out_pre.skip(n - k) =~= out@.skip(ii + 1));
            lemma_digits_value_cons(a@[ii], a@.skip(ii + 1));
            lemma_digits_value_cons(b@[ii], b@.skip(ii + 1));
            lemma_digits_value_cons(di, out@.skip(ii + 1));
            let alow = digits_value(a@.skip(ii + 1)) as int;
            let blow = digits_value(b@.skip(ii + 1)) as int;
            let rlow = digits_value(out@.skip(ii + 1)) as int;
            let ai = a@[ii] as int;
            let bi = b@[ii] as int;
            let dint = di as int;
            assert(dint == ai - bi - bin + 10 * bout);
            assert(alow + bin * pk == rlow + blow);
            assert(ai * pk + alow + bout * (10 * pk) == dint * pk + rlow + (bi * pk + blow))
                by (nonlinear_arith)
                requires
                    dint == ai - bi - bin + 10 * bout,
                    alow + bin * pk == rlow + blow,
            ;
            assert(pow10((k + 1) as nat) == 10 * pow10(k as nat));
        }
        k += 1;
    }
    proof {
        assert(a@.skip(0) =~= a@);
        assert(b@.skip(0) =~= b@);
        assert(out@.skip(0) =~= out@);
    }
    if borrow {
        proof {
            lemma_digits_value_bound(out@);
        }
        None
    } else {
        Some(out)
    }
}

/// Digit characters read back as the digit they were made from.
pub proof fn lemma_digit_char_inverse(d: nat)
    requires
        d < 10,
    ensures
        char_is_digit(digit_to_char(d)),
        char_digit(digit_to_char(d)) == d,
{
}

/// Canonical rendering is a right inverse of reading: the decimal
/// string of `n` is a digit string that denotes `n` again.
pub proof fn lemma_dec_string_of_value(n: nat)
    ensures
        is_dec_seq(dec_string_of(n)),
        dec_value(dec_string_of(n)) == n,
    decreases n,
{
    if n < 10 {
        reveal_with_fuel(dec_value, 2);
        lemma_digit_char_inverse(n);
        assert(seq![digit_to_char(n)].drop_last() =~= Seq::<char>::empty());
        assert(seq![digit_to_char(n)].last() == digit_to_char(n));
        assert(dec_value(Seq::<char>::empty()) == 0);
    } else {
        lemma_dec_string_of_value(n / 10);
        lemma_digit_char_inverse(n % 10);
        let s = dec_string_of(n);
        assert(s.drop_last() =~= dec_string_of(n / 10));
        assert(s.last() == digit_to_char(n % 10));
        vstd::arithmetic::div_mod::lemma_fundamental_div_mod(n as int, 10);
        assert(forall|i: int| 0 <= i < s.len() ==> char_is_digit(s[i]));
    }
}

/// The one-character string for a digit value.
pub fn digit_str(d: u8) -> (s: &'static str)
    requires
        d < 10,
    ensures
        s@ == seq![digit_to_char(d as nat)],
{
    proof {
        reveal_strlit("0");
        reveal_strlit("1");
        reveal_strlit("2");
        reveal_strlit("3");
        reveal_strlit("4");
        reveal_strlit("5");
        reveal_strlit("6");
        reveal_strlit("7");
        reveal_strlit("8");
        reveal_strlit("9");
        assert("0"@ =~= seq!['0']);
        assert("1"@ =~= seq!['1']);
        assert("2"@ =~= seq!['2']);
        assert("3"@ =~= seq!['3']);
        assert("4"@ =~= seq!['4']);
        assert("5"@ =~= seq!['5']);
        assert("6"@ =~= seq!['6']);
        assert("7"@ =~= seq!['7']);
        assert("8"@ =~= seq!['8']);
        assert("9"@ =~= seq!['9']);
    }
    match d {
        0 => "0",
        1 => "1",
        2 => "2",
        3 => "3",
        4 => "4",
        5 => "5",
        6 => "6",
        7 => "7",
        8 => "8",
        _ => "9",
    }
}

/// Renders the tail of a digit vector, from `start` on, as the canonical
/// decimal string of its value.  The digit at `start` must lead the
/// number: non-zero unless it is the only digit left.
pub fn digits_to_string(d: &Vec<u8>, start: usize) -> (out: String)
    requires
        digits_ok(d@),
        start < d@.len(),
        d@.len() - start == 1 || d@[start as int] >= 1,
    ensures
        out@ == dec_string_of(digits_value(d@.skip(start as int))),
{
    let n = d.len();
    let mut out = String::new();
    let mut t: usize = start;
    while t < n
        invariant
            start <= t <= n,
            n == d@.len(),
            digits_ok(d@),
            out@ == chars_of_digits(d@.subrange(start as int, t as int)),
        decreases n - t,
    {
        let ghost pre = d@.subrange(start as int, t as int);
        out.append(digit_str(d[t]));
        t += 1;
        proof {
            assert(chars_of_digits(d@.subrange(start as int, t as int))
                =~= chars_of_digits(pre).push(digit_to_char(d@[t - 1] as nat)));
        }
    }
    proof {
        assert(d@.subrange(start as int, n as int) =~= d@.skip(start as int));
        lemma_canonical_chars(d@.skip(start as int));
    }
    out
}

} // verus!
