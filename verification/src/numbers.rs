//! Verified decimal reading and writing for unsigned integers.

use vstd::prelude::*;

verus! {

use crate::text::push_char;
use crate::text::chars_of;

/// The decimal digit character for `n`.
pub open spec fn spec_dec_digit(n: int) -> char {
    if n == 0 { '0' } else if n == 1 { '1' } else if n == 2 { '2' } else if n == 3 { '3' }
    else if n == 4 { '4' } else if n == 5 { '5' } else if n == 6 { '6' } else if n == 7 { '7' }
    else if n == 8 { '8' } else { '9' }
}

fn dec_digit(n: u64) -> (r: char)
    requires
        n < 10,
    ensures
        r == spec_dec_digit(n as int),
{
    if n == 0 { '0' } else if n == 1 { '1' } else if n == 2 { '2' } else if n == 3 { '3' }
    else if n == 4 { '4' } else if n == 5 { '5' } else if n == 6 { '6' } else if n == 7 { '7' }
    else if n == 8 { '8' } else { '9' }
}

/// The decimal text of `n`, most significant digit first, no leading zeros
/// (zero itself is `0`).
pub open spec fn spec_udec(n: nat) -> Seq<char>
    decreases n,
{
    if n < 10 {
        seq![spec_dec_digit(n as int)]
    } else {
        spec_udec(n / 10).push(spec_dec_digit((n % 10) as int))
    }
}

/// Prints `n` in decimal.
pub fn u64_to_dec(n: u64) -> (r: String)
    ensures
        r@ == spec_udec(n as nat),
    decreases n,
{
    if n < 10 {
        let mut s = String::new();
        push_char(&mut s, dec_digit(n));
        assert(s@ =~= spec_udec(n as nat));
        s
    } else {
        let mut s = u64_to_dec(n / 10);
        push_char(&mut s, dec_digit(n % 10));
        s
    }
}

/// The numeric value of a decimal digit character; ten for anything else.
pub open spec fn spec_digit_val(c: char) -> int {
    if c == '0' { 0 } else if c == '1' { 1 } else if c == '2' { 2 } else if c == '3' { 3 }
    else if c == '4' { 4 } else if c == '5' { 5 } else if c == '6' { 6 } else if c == '7' { 7 }
    else if c == '8' { 8 } else if c == '9' { 9 } else { 10 }
}

/// Whether every character of `s` is a decimal digit.
pub open spec fn all_digits(s: Seq<char>) -> bool {
    forall|i: int| 0 <= i < s.len() ==> #[trigger] spec_digit_val(s[i]) < 10
}

/// The value of a digit string, most significant digit first.
pub open spec fn spec_dec_val(s: Seq<char>) -> int
    decreases s.len(),
{
    if s.len() == 0 {
        0
    } else {
        spec_dec_val(s.take(s.len() - 1)) * 10 + spec_digit_val(s[s.len() - 1])
    }
}

/// Ten to the `n`.
pub open spec fn pow10(n: nat) -> int
    decreases n,
{
    if n == 0 {
        1
    } else {
        10 * pow10((n - 1) as nat)
    }
}

/// A digit string's value is below ten to its length.
pub proof fn lemma_dec_val_bound(s: Seq<char>)
    requires
        all_digits(s),
    ensures
        0 <= spec_dec_val(s) < pow10(s.len()),
    decreases s.len(),
{
    if s.len() > 0 {
        assert(all_digits(s.take(s.len() - 1)));
        lemma_dec_val_bound(s.take(s.len() - 1));
    }
}

proof fn lemma_pow10_mono(a: nat, b: nat)
    requires
        a <= b,
    ensures
        pow10(a) <= pow10(b),
    decreases b,
{
    if a < b {
        lemma_pow10_mono(a, (b - 1) as nat);
        assert(pow10((b - 1) as nat) >= 1) by {
            lemma_pow10_pos((b - 1) as nat);
        }
    }
}

proof fn lemma_pow10_pos(n: nat)
    ensures
        pow10(n) >= 1,
    decreases n,
{
    if n > 0 {
        lemma_pow10_pos((n - 1) as nat);
    }
}

/// The number a decimal string of at most nineteen digits names: `None` for
/// an empty string, one longer than nineteen digits, or one holding anything
/// but digits.
pub open spec fn spec_parse_u64(s: Seq<char>) -> Option<u64> {
    if 1 <= s.len() <= 19 && all_digits(s) {
        Some(spec_dec_val(s) as u64)
    } else {
        None
    }
}

/// Whether every character of the string is a decimal digit.
pub fn str_all_digits(s: &str) -> (r: bool)
    ensures
        r == all_digits(s@),
{
    let v = chars_of(s);
    let mut i: usize = 0;
    while i < v.len()
        invariant
            i <= v@.len(),
            v@ == s@,
            forall|j: int| 0 <= j < i ==> #[trigger] spec_digit_val(s@[j]) < 10,
        decreases v.len() - i,
    {
        let c = v[i];
        let ok = c == '0' || c == '1' || c == '2' || c == '3' || c == '4' || c == '5'
            || c == '6' || c == '7' || c == '8' || c == '9';
        if !ok {
            assert(spec_digit_val(s@[i as int]) >= 10);
            return false;
        }
        i = i + 1;
    }
    true
}

/// Reads a decimal number of at most nineteen digits.
pub fn parse_u64(s: &str) -> (r: Option<u64>)
    ensures
        r == spec_parse_u64(s@),
{
    let v = chars_of(s);
    let n = v.len();
    if n == 0 || n > 19 {
        return None;
    }
    proof {
        lemma_pow10_mono(0, 19);
    }
    let mut acc: u64 = 0;
    let mut i: usize = 0;
    assert(s@.take(0) =~= Seq::<char>::empty());
    while i < n
        invariant
            i <= n,
            1 <= n <= 19,
            v@ == s@,
            n == s@.len(),
            all_digits(s@.take(i as int)),
            acc == spec_dec_val(s@.take(i as int)),
            acc < pow10(i as nat),
        decreases n - i,
    {
        let c = v[i];
        let d: u64 = if c == '0' { 0 } else if c == '1' { 1 } else if c == '2' { 2 }
        else if c == '3' { 3 } else if c == '4' { 4 } else if c == '5' { 5 }
        else if c == '6' { 6 } else if c == '7' { 7 } else if c == '8' { 8 }
        else if c == '9' { 9 } else { 10 };
        if d == 10 {
            assert(spec_digit_val(s@[i as int]) >= 10);
            assert(!all_digits(s@));
            return None;
        }
        proof {
            lemma_pow10_mono(i as nat, 18);
            reveal_with_fuel(pow10, 20);
            assert(pow10(19) == 10000000000000000000);
            assert(pow10(18) == 1000000000000000000);
            assert(acc < pow10(18));
            assert(acc * 10 + d < pow10(19)) by {
                assert(acc * 10 <= (1000000000000000000 - 1) * 10) by (nonlinear_arith)
                    requires
                        acc <= 1000000000000000000 - 1,
                ;
            }
            assert(s@.take(i + 1).take(i as int) =~= s@.take(i as int));
            assert(s@.take(i + 1)[i as int] == s@[i as int]);
            assert(all_digits(s@.take(i + 1)));
            assert(spec_dec_val(s@.take(i + 1)) == acc * 10 + d);
        }
        acc = acc * 10 + d;
        i = i + 1;
        proof {
            lemma_pow10_mono(i as nat, 19);
        }
    }
    assert(s@.take(n as int) =~= s@);
    Some(acc)
}

/// Reading back a printed number gives the number: the decimal writer and
/// reader agree on every value the reader's nineteen-digit window covers.
pub proof fn lemma_dec_round_trip(n: u64)
    requires
        n < 10000000000000000000,
    ensures
        spec_parse_u64(spec_udec(n as nat)) == Some(n),
{
    lemma_udec_digits(n as nat);
    reveal_with_fuel(pow10, 20);
    assert(pow10(19) == 10000000000000000000);
    lemma_udec_len(n as nat, 19);
    lemma_udec_val(n as nat);
}

proof fn lemma_udec_digits(n: nat)
    ensures
        all_digits(spec_udec(n)),
    decreases n,
{
    if n >= 10 {
        lemma_udec_digits(n / 10);
        let s = spec_udec(n / 10);
        let w = spec_udec(n);
        assert(w == s.push(spec_dec_digit((n % 10) as int)));
        assert forall|i: int| 0 <= i < w.len() implies #[trigger] spec_digit_val(w[i])
            < 10 by {
            if i < s.len() {
                assert(w[i] == s[i]);
            }
        }
    }
}

proof fn lemma_udec_len(n: nat, k: nat)
    requires
        k >= 1,
        n < pow10(k),
    ensures
        1 <= spec_udec(n).len() <= k,
    decreases n,
{
    if n >= 10 {
        reveal_with_fuel(pow10, 3);
        assert(pow10(k) == 10 * pow10((k - 1) as nat));
        assert(pow10(1) == 10);
        if k < 2 {
            assert(pow10(k) == pow10(1));
            assert(false);
        }
        assert(n / 10 < pow10((k - 1) as nat));
        lemma_udec_len(n / 10, (k - 1) as nat);
    }
}

proof fn lemma_udec_val(n: nat)
    ensures
        spec_dec_val(spec_udec(n)) == n,
    decreases n,
{
    if n < 10 {
        let s = spec_udec(n);
        assert(s.len() == 1);
        assert(s.take(0) =~= Seq::<char>::empty());
        assert(spec_dec_val(s.take(0)) == 0);
        assert(spec_digit_val(spec_dec_digit(n as int)) == n);
    } else {
        lemma_udec_val(n / 10);
        let s = spec_udec(n / 10);
        let w = spec_udec(n);
        assert(w == s.push(spec_dec_digit((n % 10) as int)));
        assert(w.take(w.len() - 1) =~= s);
        assert(w[w.len() - 1] == spec_dec_digit((n % 10) as int));
        assert(spec_digit_val(spec_dec_digit((n % 10) as int)) == n % 10);
    }
}

} // verus!
