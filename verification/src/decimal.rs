use vstd::prelude::*;

use crate::numeric::{all_digits, dec_value, digits_part, is_digit, is_negative_literal, pow10};

verus! {

/// A decimal amount held exactly: `mantissa / 10^scale`.
#[derive(Clone, Copy, PartialEq, Eq, Structural, Debug)]
pub struct Decimal {
    pub mantissa: i64,
    pub scale: u32,
}

/// The digits of a decimal body with the dot removed.
pub open spec fn decimal_digits(d: Seq<char>) -> Seq<char> {
    match d.index_of_first('.') {
        Some(i) => d.take(i) + d.skip(i + 1),
        None => d,
    }
}

/// How many digits follow the dot.
pub open spec fn decimal_body_scale(d: Seq<char>) -> int {
    match d.index_of_first('.') {
        Some(i) => d.len() - i - 1,
        None => 0,
    }
}

/// A decimal body: digits, at most one dot, at least one digit on each side
/// of it.
pub open spec fn is_decimal_body(d: Seq<char>) -> bool {
    match d.index_of_first('.') {
        Some(i) => {
            &&& 1 <= i < d.len() - 1
            &&& all_digits(d.take(i))
            &&& all_digits(d.skip(i + 1))
        },
        None => d.len() > 0 && all_digits(d),
    }
}

/// An optionally signed decimal body.
pub open spec fn is_decimal_literal(s: Seq<char>) -> bool {
    is_decimal_body(digits_part(s))
}

/// The signed mantissa a decimal literal denotes.
pub open spec fn decimal_mantissa(s: Seq<char>) -> int {
    if is_negative_literal(s) {
        -dec_value(decimal_digits(digits_part(s)))
    } else {
        dec_value(decimal_digits(digits_part(s)))
    }
}

pub open spec fn decimal_scale(s: Seq<char>) -> int {
    decimal_body_scale(digits_part(s))
}

/// A decimal literal that the `Decimal` type can hold exactly.
pub open spec fn is_decimal_value(s: Seq<char>) -> bool {
    &&& is_decimal_literal(s)
    &&& i64::MIN <= decimal_mantissa(s) <= i64::MAX
    &&& decimal_scale(s) <= u32::MAX
}

/// Pins the first occurrence: a dot preceded only by non-dots is where
/// `index_of_first` points.
proof fn lemma_pin_dot(d: Seq<char>, k: int)
    requires
        0 <= k < d.len(),
        d[k] == '.',
        forall|j: int| 0 <= j < k ==> d[j] != '.',
    ensures
        d.index_of_first('.') == Some(k),
{
    d.index_of_first_ensures('.');
    match d.index_of_first('.') {
        Some(i) => {
            if i < k {
                assert(d[i] != '.');
            }
            if i > k {
                assert(d[k] != '.');
            }
        },
        None => {
            assert(d.contains('.')) by {
                assert(d[k] == '.');
            }
        },
    }
}

/// A character that is neither a digit nor the dot rules the body out.
proof fn lemma_body_needs_digits(d: Seq<char>, j: int)
    requires
        0 <= j < d.len(),
        !is_digit(d[j]),
        d[j] != '.',
    ensures
        !is_decimal_body(d),
{
    d.index_of_first_ensures('.');
    match d.index_of_first('.') {
        Some(i) => {
            if 1 <= i < d.len() - 1 {
                if j < i {
                    assert(d.take(i)[j] == d[j]);
                } else {
                    assert(j != i);
                    assert(d.skip(i + 1)[j - i - 1] == d[j]);
                }
            }
        },
        None => {},
    }
}

/// A second dot rules the body out.
proof fn lemma_body_two_dots(d: Seq<char>, p: int, q: int)
    requires
        0 <= p < q < d.len(),
        d[p] == '.',
        d[q] == '.',
        forall|j: int| 0 <= j < p ==> d[j] != '.',
    ensures
        !is_decimal_body(d),
{
    lemma_pin_dot(d, p);
    if 1 <= p < d.len() - 1 {
        assert(d.skip(p + 1)[q - p - 1] == d[q]);
        assert(!is_digit('.'));
    }
}

/// Parses a decimal amount: an optional sign, an integer part, and an
/// optional dot followed by a fractional part.  Accepts exactly the strings
/// whose digits fit a signed 64-bit mantissa.
pub fn parse_decimal(s: &str) -> (r: Option<Decimal>)
    ensures
        r == (if is_decimal_value(s@) {
            Some(
                Decimal {
                    mantissa: decimal_mantissa(s@) as i64,
                    scale: decimal_scale(s@) as u32,
                },
            )
        } else {
            None::<Decimal>
        }),
{
    let len = s.unicode_len();
    if len == 0 {
        return None;
    }
    let c0 = s.get_char(0);
    let neg = c0 == '-';
    let start: usize = if c0 == '-' || c0 == '+' {
        1
    } else {
        0
    };
    let ghost d = digits_part(s@);
    proof {
        assert(d =~= s@.skip(start as int));
    }
    if start == len {
        return None;
    }

    let mut dot: Option<usize> = None;
    let mut i: usize = start;
    while i < len
        invariant
            start <= i <= len,
            len == s@.len(),
            start < len,
            d == digits_part(s@),
            d =~= s@.skip(start as int),
            match dot {
                Some(p) => {
                    &&& start < p < i
                    &&& s@[p as int] == '.'
                    &&& forall|j: int| start <= j < p ==> is_digit(#[trigger] s@[j])
                    &&& forall|j: int| p < j < i ==> is_digit(#[trigger] s@[j])
                },
                None => forall|j: int| start <= j < i ==> is_digit(#[trigger] s@[j]),
            },
        decreases len - i,
    {
        let c = s.get_char(i);
        let cv = c as u32;
        if c == '.' {
            match dot {
                None => {
                    if i == start {
                        // No digits before the dot.
                        proof {
                            lemma_pin_dot(d, 0);
                        }
                        return None;
                    }
                    dot = Some(i);
                },
                Some(p) => {
                    proof {
                        assert(forall|j: int|
                            0 <= j < p - start ==> is_digit(#[trigger] d[j]) && d[j] != '.');
                        lemma_body_two_dots(d, p - start, i - start);
                    }
                    return None;
                },
            }
        } else if cv < 48 || cv > 57 {
            proof {
                assert(d[i - start] == s@[i as int]);
                lemma_body_needs_digits(d, i - start);
            }
            return None;
        }
        i = i + 1;
    }

    let ds: String;
    let ghost md = decimal_digits(d);
    match dot {
        Some(p) => {
            if p + 1 == len {
                // No digits after the dot.
                proof {
                    assert(forall|j: int|
                        0 <= j < p - start ==> is_digit(#[trigger] d[j]) && d[j] != '.');
                    lemma_pin_dot(d, p - start);
                }
                return None;
            }
            let mut tmp = s.substring_char(start, p).to_owned();
            tmp.append(s.substring_char(p + 1, len));
            ds = tmp;
            proof {
                let k = p - start;
                assert(forall|j: int| 0 <= j < k ==> is_digit(#[trigger] d[j]) && d[j] != '.');
                lemma_pin_dot(d, k);
                assert(d.take(k) =~= s@.subrange(start as int, p as int));
                assert(d.skip(k + 1) =~= s@.subrange(p + 1 as int, len as int));
                assert(ds@ == md);
                assert(all_digits(d.take(k))) by {
                    assert(forall|j: int|
                        0 <= j < k ==> #[trigger] d.take(k)[j] == d[j]);
                }
                assert(all_digits(d.skip(k + 1))) by {
                    assert(forall|j: int|
                        0 <= j < d.len() - k - 1 ==> #[trigger] d.skip(k + 1)[j] == d[k + 1 + j]
                            && d[k + 1 + j] == s@[p + 1 + j]);
                }
                assert(is_decimal_body(d));
                assert(all_digits(md)) by {
                    assert(forall|j: int| 0 <= j < md.len() ==> is_digit(#[trigger] md[j])) by {
                        assert(forall|j: int|
                            0 <= j < k ==> #[trigger] md[j] == d.take(k)[j]);
                        assert(forall|j: int|
                            k <= j < md.len() ==> #[trigger] md[j] == d.skip(k + 1)[j - k]);
                    }
                }
                assert(md.len() > 0);
            }
        },
        None => {
            ds = s.substring_char(start, len).to_owned();
            proof {
                assert(!d.contains('.')) by {
                    assert(forall|j: int|
                        0 <= j < d.len() ==> is_digit(#[trigger] d[j]) && d[j] != '.');
                }
                d.index_of_first_ensures('.');
                assert(d.index_of_first('.') is None);
                assert(ds@ =~= d);
                assert(all_digits(md));
                assert(is_decimal_body(d));
                assert(md.len() > 0);
            }
        },
    }
    proof {
        assert(is_decimal_body(d));
        assert(is_decimal_literal(s@));
        assert(ds@ == md);
        assert(neg == is_negative_literal(s@));
    }

    let mag = match parse_magnitude(ds.as_str()) {
        Some(v) => v,
        None => {
            // The digits are fine, so the magnitude exceeds every mantissa.
            proof {
                assert(dec_value(md) > 0x8000000000000000);
            }
            return None;
        },
    };

    let ghost scale_val = decimal_scale(s@);
    let scale: usize = match dot {
        Some(p) => len - p - 1,
        None => 0,
    };
    proof {
        match dot {
            Some(p) => {
                assert(forall|j: int|
                    0 <= j < p - start ==> is_digit(#[trigger] d[j]) && d[j] != '.');
                lemma_pin_dot(d, p - start);
                assert(scale == d.len() - (p - start) - 1);
            },
            None => {
                d.index_of_first_ensures('.');
            },
        }
        assert(scale == scale_val);
    }
    if scale > 0xffffffffusize {
        return None;
    }

    proof {
        crate::numeric::lemma_dec_value_bound(md);
        assert(mag as int == dec_value(md));
        assert(dec_value(md) <= 0x8000000000000000);
        assert(scale == decimal_scale(s@));
        assert(is_decimal_body(d));
        assert(neg == is_negative_literal(s@));
        assert(decimal_mantissa(s@) == (if neg {
            -dec_value(md)
        } else {
            dec_value(md)
        }));
    }

    if neg {
        if mag > 0x8000000000000000u64 {
            return None;
        } else if mag == 0x8000000000000000u64 {
            Some(Decimal { mantissa: i64::MIN, scale: scale as u32 })
        } else {
            Some(Decimal { mantissa: -(mag as i64), scale: scale as u32 })
        }
    } else {
        if mag > 0x7fffffffffffffffu64 {
            return None;
        }
        Some(Decimal { mantissa: mag as i64, scale: scale as u32 })
    }
}

/// Reads an unsigned digit string as a number, up to `2^63`.
fn parse_magnitude(s: &str) -> (r: Option<u64>)
    ensures
        r == (if s@.len() > 0 && all_digits(s@) && dec_value(s@) <= 0x8000000000000000 {
            Some(dec_value(s@) as u64)
        } else {
            None::<u64>
        }),
{
    let len = s.unicode_len();
    if len == 0 {
        return None;
    }

    let mut i: usize = 0;
    while i < len
        invariant
            0 <= i <= len,
            len == s@.len(),
            forall|j: int| 0 <= j < i ==> is_digit(#[trigger] s@[j]),
        decreases len - i,
    {
        let c = s.get_char(i);
        let cv = c as u32;
        if cv < 48 || cv > 57 {
            assert(!is_digit(s@[i as int]));
            return None;
        }
        assert(is_digit(s@[i as int]));
        i = i + 1;
    }
    assert(all_digits(s@));

    let mut z: usize = 0;
    while z < len && s.get_char(z) == '0'
        invariant
            0 <= z <= len,
            len == s@.len(),
            forall|j: int| 0 <= j < z ==> s@[j] == '0',
        decreases len - z,
    {
        z = z + 1;
    }
    proof {
        crate::numeric::lemma_dec_value_skip_zeros(s@, z as int);
    }

    if len - z > 19 {
        proof {
            let sig = s@.skip(z as int);
            crate::numeric::lemma_dec_value_lower(sig);
            crate::numeric::lemma_pow10_monotone(19, (sig.len() - 1) as nat);
            crate::numeric::lemma_pow10_19();
        }
        return None;
    }

    let mut acc: u64 = 0;
    let mut j: usize = z;
    while j < len
        invariant
            z <= j <= len,
            len == s@.len(),
            len - z <= 19,
            all_digits(s@),
            forall|k: int| 0 <= k < len ==> is_digit(#[trigger] s@[k]),
            acc == dec_value(s@.skip(z as int).take(j - z)),
            acc < pow10((j - z) as nat),
        decreases len - j,
    {
        let c = s.get_char(j);
        let dg = (c as u32 - 48) as u64;
        proof {
            let sig = s@.skip(z as int);
            crate::numeric::lemma_dec_value_take_step(sig, j - z);
            crate::numeric::lemma_pow10_monotone((j - z + 1) as nat, 19);
            crate::numeric::lemma_pow10_19();
            crate::numeric::lemma_pow10_positive((j - z) as nat);
        }
        acc = acc * 10 + dg;
        j = j + 1;
    }
    proof {
        assert(s@.skip(z as int).take(len - z) =~= s@.skip(z as int));
    }

    if acc > 0x8000000000000000u64 {
        return None;
    }
    Some(acc)
}

} // verus!
