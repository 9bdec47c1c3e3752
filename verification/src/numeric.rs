use vstd::prelude::*;

use crate::ulid::hex_char;

verus! {

pub open spec fn is_digit(c: char) -> bool {
    '0' <= c && c <= '9'
}

pub open spec fn digit_val(c: char) -> int {
    c as int - '0' as int
}

pub open spec fn all_digits(s: Seq<char>) -> bool {
    forall|i: int| 0 <= i < s.len() ==> is_digit(#[trigger] s[i])
}

/// The integer denoted by a sequence of decimal digits, most significant
/// first.
pub open spec fn dec_value(s: Seq<char>) -> int
    decreases s.len(),
{
    if s.len() == 0 {
        0
    } else {
        dec_value(s.drop_last()) * 10 + digit_val(s.last())
    }
}

pub open spec fn pow10(n: nat) -> int
    decreases n,
{
    if n == 0 {
        1
    } else {
        10 * pow10((n - 1) as nat)
    }
}

/// The digits of a signed decimal literal: everything after a leading sign.
pub open spec fn digits_part(s: Seq<char>) -> Seq<char> {
    if s.len() > 0 && (s[0] == '+' || s[0] == '-') {
        s.skip(1)
    } else {
        s
    }
}

pub open spec fn is_negative_literal(s: Seq<char>) -> bool {
    s.len() > 0 && s[0] == '-'
}

/// A well-formed signed decimal literal: an optional sign followed by at
/// least one digit.
pub open spec fn is_int_literal(s: Seq<char>) -> bool {
    digits_part(s).len() > 0 && all_digits(digits_part(s))
}

pub open spec fn int_literal_value(s: Seq<char>) -> int {
    if is_negative_literal(s) {
        -dec_value(digits_part(s))
    } else {
        dec_value(digits_part(s))
    }
}

/// A signed decimal literal whose value fits a 64-bit signed integer.
pub open spec fn is_i64_literal(s: Seq<char>) -> bool {
    is_int_literal(s) && i64::MIN <= int_literal_value(s) <= i64::MAX
}

pub proof fn lemma_pow10_19()
    ensures
        pow10(19) == 10000000000000000000,
{
    reveal_with_fuel(pow10, 20);
}

pub proof fn lemma_dec_value_bound(s: Seq<char>)
    requires
        all_digits(s),
    ensures
        0 <= dec_value(s) < pow10(s.len()),
    decreases s.len(),
{
    if s.len() > 0 {
        lemma_dec_value_bound(s.drop_last());
    }
}

pub proof fn lemma_pow10_monotone(a: nat, b: nat)
    requires
        a <= b,
    ensures
        pow10(a) <= pow10(b),
    decreases b,
{
    if a < b {
        lemma_pow10_monotone(a, (b - 1) as nat);
        lemma_pow10_positive((b - 1) as nat);
    }
}

pub proof fn lemma_pow10_positive(n: nat)
    ensures
        pow10(n) >= 1,
    decreases n,
{
    if n > 0 {
        lemma_pow10_positive((n - 1) as nat);
    }
}

/// A digit string that does not start with '0' denotes at least
/// `pow10(len - 1)`.
pub proof fn lemma_dec_value_lower(s: Seq<char>)
    requires
        all_digits(s),
        s.len() > 0,
        s[0] != '0',
    ensures
        dec_value(s) >= pow10((s.len() - 1) as nat),
    decreases s.len(),
{
    if s.len() == 1 {
        reveal_with_fuel(dec_value, 2);
        assert(digit_val(s[0]) >= 1);
    } else {
        assert(s.drop_last()[0] == s[0]);
        lemma_dec_value_lower(s.drop_last());
        assert(is_digit(s.last()));
        assert(digit_val(s.last()) >= 0);
        assert(pow10((s.len() - 1) as nat) == 10 * pow10((s.len() - 2) as nat));
        assert(dec_value(s) == dec_value(s.drop_last()) * 10 + digit_val(s.last()));
        assert(dec_value(s.drop_last()) * 10 >= pow10((s.len() - 2) as nat) * 10);
    }
}

/// Leading zeros do not change the denoted value.
pub proof fn lemma_dec_value_skip_zeros(s: Seq<char>, k: int)
    requires
        0 <= k <= s.len(),
        forall|i: int| 0 <= i < k ==> s[i] == '0',
    ensures
        dec_value(s) == dec_value(s.skip(k)),
    decreases s.len(),
{
    if s.len() == 0 || k == 0 {
        assert(s.skip(k) =~= s);
    } else if s.len() == k {
        lemma_dec_value_zeros(s);
        assert(s.skip(k) =~= Seq::<char>::empty());
    } else {
        lemma_dec_value_skip_zeros(s.drop_last(), k);
        assert(s.skip(k).drop_last() =~= s.drop_last().skip(k));
        assert(s.skip(k).last() == s.last());
    }
}

proof fn lemma_dec_value_zeros(s: Seq<char>)
    requires
        forall|i: int| 0 <= i < s.len() ==> s[i] == '0',
    ensures
        dec_value(s) == 0,
    decreases s.len(),
{
    if s.len() > 0 {
        lemma_dec_value_zeros(s.drop_last());
    }
}

pub proof fn lemma_pow10_9()
    ensures
        pow10(9) == 1000000000,
{
    reveal_with_fuel(pow10, 10);
}

/// Reading one more digit multiplies the prefix value by ten.
pub proof fn lemma_dec_value_take_step(s: Seq<char>, i: int)
    requires
        0 <= i < s.len(),
    ensures
        dec_value(s.take(i + 1)) == dec_value(s.take(i)) * 10 + digit_val(s[i]),
{
    assert(s.take(i + 1).drop_last() =~= s.take(i));
    assert(s.take(i + 1).last() == s[i]);
}

/// Parses a signed decimal 64-bit integer, accepting exactly the strings
/// made of an optional sign and at least one digit whose value fits.
pub fn parse_i64(s: &str) -> (r: Option<i64>)
    ensures
        r == (if is_i64_literal(s@) {
            Some(int_literal_value(s@) as i64)
        } else {
            None::<i64>
        }),
{
    let len = s.unicode_len();
    if len == 0 {
        return None;
    }
    let c0 = s.get_char(0);
    let neg = c0 == '-';
    let start: usize = if c0 == '-' || c0 == '+' {
        1
    } else {
        0
    };
    if start == len {
        // A bare sign has no digits.
        return None;
    }
    let ghost digits = digits_part(s@);
    proof {
        assert(digits =~= s@.skip(start as int));
    }
    // Every remaining character must be a digit.
    let mut i: usize = start;
    while i < len
        invariant
            start <= i <= len,
            len == s@.len(),
            start < len,
            digits == digits_part(s@),
            digits =~= s@.skip(start as int),
            forall|j: int| start <= j < i ==> is_digit(#[trigger] s@[j]),
        decreases len - i,
    {
        let c = s.get_char(i);
        let cv = c as u32;
        if cv < 48 || cv > 57 {
            assert(!is_digit(s@[i as int]));
            assert(digits[i - start] == s@[i as int]);
            assert(!all_digits(digits));
            return None;
        }
        assert(is_digit(s@[i as int]));
        i = i + 1;
    }
    assert(all_digits(digits));

    // Skip leading zeros; they do not affect the value.
    let mut z: usize = start;
    while z < len && s.get_char(z) == '0'
        invariant
            start <= z <= len,
            len == s@.len(),
            forall|j: int| start <= j < z ==> s@[j] == '0',
        decreases len - z,
    {
        z = z + 1;
    }
    proof {
        lemma_dec_value_skip_zeros(digits, z - start);
        assert(digits.skip(z - start) =~= s@.skip(z as int));
    }

    if len - z > 19 {
        // At least twenty significant digits: the magnitude is at least
        // 10^19, beyond any 64-bit value.
        proof {
            let sig = s@.skip(z as int);
            lemma_dec_value_lower(sig);
            lemma_pow10_monotone(19, (sig.len() - 1) as nat);
            lemma_pow10_19();
        }
        return None;
    }

    // Accumulate the significant digits; at most nineteen fit a u64.
    let mut acc: u64 = 0;
    let mut j: usize = z;
    while j < len
        invariant
            z <= j <= len,
            len == s@.len(),
            len - z <= 19,
            start <= z,
            start < len,
            all_digits(digits),
            digits =~= s@.skip(start as int),
            forall|k: int| start <= k < len ==> is_digit(#[trigger] s@[k]),
            acc == dec_value(s@.skip(z as int).take(j - z)),
            acc < pow10((j - z) as nat),
        decreases len - j,
    {
        let c = s.get_char(j);
        let d = (c as u32 - 48) as u64;
        proof {
            let sig = s@.skip(z as int);
            lemma_dec_value_take_step(sig, j - z);
            lemma_pow10_monotone((j - z + 1) as nat, 19);
            lemma_pow10_19();
            assert(acc * 10 + 9 < pow10((j - z + 1) as nat)) by {
                lemma_pow10_positive((j - z) as nat);
            }
        }
        acc = acc * 10 + d;
        j = j + 1;
    }
    proof {
        assert(s@.skip(z as int).take(len - z) =~= s@.skip(z as int));
        assert(acc == dec_value(digits));
    }

    if neg {
        if acc > 0x8000000000000000u64 {
            proof {
                assert(int_literal_value(s@) < i64::MIN);
            }
            None
        } else if acc == 0x8000000000000000u64 {
            Some(i64::MIN)
        } else {
            Some(-(acc as i64))
        }
    } else {
        if acc > 0x7fffffffffffffffu64 {
            proof {
                assert(int_literal_value(s@) > i64::MAX);
            }
            None
        } else {
            Some(acc as i64)
        }
    }
}

/// The decimal digits of a non-negative integer, most significant first.
pub open spec fn dec_chars(n: int) -> Seq<char>
    decreases n,
{
    if n < 10 {
        seq![hex_char(if 0 <= n { n as u8 } else { 0 })]
    } else {
        dec_chars(n / 10).push(hex_char((n % 10) as u8))
    }
}

/// The decimal rendering of a signed integer.
pub open spec fn int_chars(v: int) -> Seq<char> {
    if v < 0 {
        seq!['-'] + dec_chars(-v)
    } else {
        dec_chars(v)
    }
}

spec fn rev_digit_chars(t: Seq<u8>) -> Seq<char> {
    Seq::new(t.len(), |i: int| hex_char(t[t.len() - 1 - i]))
}

proof fn lemma_rev_push(t: Seq<u8>, d: u8)
    ensures
        rev_digit_chars(t.push(d)) =~= seq![hex_char(d)] + rev_digit_chars(t),
{
}

/// Renders a signed 64-bit integer in decimal, as its display form.
pub fn i64_to_string(v: i64) -> (r: String)
    ensures
        r@ =~= int_chars(v as int),
{
    let neg = v < 0;
    let mag: u64 = if v == i64::MIN {
        0x8000000000000000u64
    } else if v < 0 {
        (-v) as u64
    } else {
        v as u64
    };
    let mut tmp: Vec<u8> = Vec::new();
    let mut cur = mag;
    tmp.push((cur % 10) as u8);
    cur = cur / 10;
    proof {
        lemma_rev_push(Seq::<u8>::empty(), (mag % 10) as u8);
    }
    while cur != 0
        invariant
            tmp@.len() >= 1,
            forall|k: int| 0 <= k < tmp@.len() ==> #[trigger] tmp@[k] < 10,
            dec_chars(mag as int) =~= (if cur != 0 {
                dec_chars(cur as int)
            } else {
                Seq::<char>::empty()
            }) + rev_digit_chars(tmp@),
        decreases cur,
    {
        let d = (cur % 10) as u8;
        proof {
            lemma_rev_push(tmp@, d);
        }
        tmp.push(d);
        cur = cur / 10;
    }
    let mut r = String::new();
    if neg {
        proof {
            reveal_strlit("-");
        }
        r.append("-");
    }
    let ghost sign: Seq<char> = if neg {
        seq!['-']
    } else {
        Seq::empty()
    };
    let n = tmp.len();
    let mut k: usize = n;
    while k > 0
        invariant
            0 <= k <= n,
            n == tmp@.len(),
            forall|t: int| 0 <= t < tmp@.len() ==> #[trigger] tmp@[t] < 10,
            r@ =~= sign + rev_digit_chars(tmp@).take(n - k),
        decreases k,
    {
        let d = tmp[k - 1];
        r.append(crate::ulid::hex_char_str(d));
        proof {
            assert(rev_digit_chars(tmp@).take(n - k + 1) =~= rev_digit_chars(tmp@).take(n - k)
                + seq![hex_char(tmp@[k - 1])]);
        }
        k = k - 1;
    }
    proof {
        assert(rev_digit_chars(tmp@).take(n as int) =~= rev_digit_chars(tmp@));
        if neg {
            assert(mag == -(v as int));
        } else {
            assert(mag == v as int);
        }
    }
    r
}

proof fn lemma_dec_chars_digits(n: int)
    requires
        n >= 0,
    ensures
        dec_chars(n).len() >= 1,
        all_digits(dec_chars(n)),
        dec_value(dec_chars(n)) == n,
        dec_chars(n)[0] != '0' || n < 10,
    decreases n,
{
    if n < 10 {
        reveal_with_fuel(dec_value, 3);
        assert(is_digit(hex_char(n as u8)) && digit_val(hex_char(n as u8)) == n);
    } else {
        lemma_dec_chars_digits(n / 10);
        let s = dec_chars(n);
        assert(s.drop_last() =~= dec_chars(n / 10));
        assert(s.last() == hex_char((n % 10) as u8));
        assert(is_digit(hex_char((n % 10) as u8)) && digit_val(hex_char((n % 10) as u8)) == n
            % 10);
        assert(dec_value(s) == dec_value(dec_chars(n / 10)) * 10 + (n % 10));
        assert(n == (n / 10) * 10 + n % 10);
        assert(forall|i: int| 0 <= i < s.len() ==> is_digit(#[trigger] s[i])) by {
            assert(forall|i: int|
                0 <= i < s.len() - 1 ==> s[i] == #[trigger] dec_chars(n / 10)[i]);
        }
        assert(s[0] == dec_chars(n / 10)[0]);
        if n / 10 < 10 {
            assert(dec_chars(n / 10) =~= seq![hex_char((n / 10) as u8)]);
            assert(n / 10 >= 1);
            assert(hex_char((n / 10) as u8) != '0');
        }
    }
}

/// Rendering an integer and parsing it back yields the same value.
pub proof fn lemma_int_chars_round_trip(v: i64)
    ensures
        is_i64_literal(int_chars(v as int)),
        int_literal_value(int_chars(v as int)) == v,
{
    if v < 0 {
        lemma_dec_chars_digits(-(v as int));
        assert(digits_part(int_chars(v as int)) =~= dec_chars(-(v as int)));
    } else {
        lemma_dec_chars_digits(v as int);
        let s = int_chars(v as int);
        assert(s[0] != '+' && s[0] != '-');
        assert(digits_part(s) =~= s);
    }
}

} // verus!
