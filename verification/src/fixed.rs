//! Fixed-point decimal text: reading a quantity and printing a mass.
//!
//! A quantity of activity is entered as decimal text and held in hundredths
//! (centi-units); a CO2 mass is held in ten-thousandths of a kilogram and
//! printed in kilograms with two decimal places.

use vstd::prelude::*;

verus! {

/// Whether a character is an ASCII decimal digit '0'..'9'.
pub open spec fn is_digit(c: char) -> bool {
    48 <= c as int && c as int <= 57
}

/// The numeric value of an ASCII decimal digit.
pub open spec fn digit_val(c: char) -> int {
    c as int - 48
}

/// The ASCII character for a digit value 0..9.
pub open spec fn spec_digit_char(d: int) -> char {
    if d == 0 {
        '0'
    } else if d == 1 {
        '1'
    } else if d == 2 {
        '2'
    } else if d == 3 {
        '3'
    } else if d == 4 {
        '4'
    } else if d == 5 {
        '5'
    } else if d == 6 {
        '6'
    } else if d == 7 {
        '7'
    } else if d == 8 {
        '8'
    } else {
        '9'
    }
}

/// The decimal digits of a non-negative number, most significant first,
/// with no leading zero except for the number 0 itself.
pub open spec fn spec_nat_digits(n: nat) -> Seq<char>
    decreases n,
{
    if n < 10 {
        seq![spec_digit_char(n as int)]
    } else {
        spec_nat_digits(n / 10).push(spec_digit_char((n % 10) as int))
    }
}

/// A mass in 1e-4 kg rounded to hundredths of a kilogram: nearest value,
/// ties away from zero.
pub open spec fn round_centi(mag_e4: nat) -> nat {
    (mag_e4 + 50) / 100
}

/// The text that a mass in 1e-4 kg is printed as: kilograms with exactly
/// two decimal places, rounded to the nearest hundredth (ties away from
/// zero), with a leading '-' for a negative mass.
pub open spec fn spec_format_kg(v_e4: int) -> Seq<char> {
    let mag = (if v_e4 >= 0 {
        v_e4
    } else {
        -v_e4
    }) as nat;
    let rc = round_centi(mag);
    let whole = rc / 100;
    let frac = rc % 100;
    let sign: Seq<char> = if v_e4 < 0 {
        seq!['-']
    } else {
        Seq::<char>::empty()
    };
    sign + spec_nat_digits(whole) + seq![
        '.',
        spec_digit_char(frac as int / 10),
        spec_digit_char(frac as int % 10),
    ]
}

/// The value of a digit sequence read as a decimal number, most
/// significant digit first.
pub open spec fn digits_val(s: Seq<char>) -> int
    decreases s.len(),
{
    if s.len() == 0 {
        0
    } else {
        digits_val(s.drop_last()) * 10 + digit_val(s.last())
    }
}

/// Whether every character of a sequence is a decimal digit.
pub open spec fn all_digits(s: Seq<char>) -> bool {
    forall|i: int| 0 <= i < s.len() ==> is_digit(#[trigger] s[i])
}

/// The index of the first '.' in a sequence, or its length if there is
/// none.
pub open spec fn dot_index(b: Seq<char>) -> int
    decreases b.len(),
{
    if b.len() == 0 {
        0
    } else if b[0] == '.' {
        0
    } else {
        1 + dot_index(b.skip(1))
    }
}

/// The digits before the dot.
pub open spec fn int_part(b: Seq<char>) -> Seq<char> {
    b.take(dot_index(b))
}

/// The digits after the dot, or nothing when there is no dot.
pub open spec fn frac_part(b: Seq<char>) -> Seq<char> {
    if dot_index(b) < b.len() {
        b.skip(dot_index(b) + 1)
    } else {
        Seq::<char>::empty()
    }
}

/// Whether a number body (the text after any sign) is well formed: digits
/// with at most one dot between them, and at least one digit.
pub open spec fn valid_body(b: Seq<char>) -> bool {
    &&& all_digits(int_part(b))
    &&& all_digits(frac_part(b))
    &&& int_part(b).len() + frac_part(b).len() > 0
}

/// The magnitude of a well-formed body in centi-units: the integer part in
/// hundredths plus the first two fraction digits; further fraction digits
/// are cut off.
pub open spec fn frac_centi(f: Seq<char>) -> int {
    if f.len() == 0 {
        0
    } else if f.len() == 1 {
        digit_val(f[0]) * 10
    } else {
        digit_val(f[0]) * 10 + digit_val(f[1])
    }
}

/// The magnitude of a number body in centi-units.
pub open spec fn magnitude_centi(b: Seq<char>) -> int {
    digits_val(int_part(b)) * 100 + frac_centi(frac_part(b))
}

/// Whether a quantity line opens with a sign character.
pub open spec fn has_sign(s: Seq<char>) -> bool {
    s.len() > 0 && (s[0] == '+' || s[0] == '-')
}

/// Whether a quantity line is negative.
pub open spec fn is_negative(s: Seq<char>) -> bool {
    s.len() > 0 && s[0] == '-'
}

/// The quantity line with any sign stripped.
pub open spec fn body_of(s: Seq<char>) -> Seq<char> {
    if has_sign(s) {
        s.skip(1)
    } else {
        s
    }
}

/// Whether a quantity line is a well-formed decimal number: an optional
/// sign, then digits with at most one dot and at least one digit.
pub open spec fn valid_quantity(s: Seq<char>) -> bool {
    valid_body(body_of(s))
}

/// The value of a well-formed quantity line in centi-units.
pub open spec fn quantity_value_centi(s: Seq<char>) -> int {
    if is_negative(s) {
        -magnitude_centi(body_of(s))
    } else {
        magnitude_centi(body_of(s))
    }
}

/// `dot_index` marks the first dot: nothing before it is a dot, and the
/// character there, if any, is one.
proof fn lemma_dot_index_spec(b: Seq<char>)
    ensures
        0 <= dot_index(b) <= b.len(),
        dot_index(b) < b.len() ==> b[dot_index(b)] == '.',
        forall|j: int| 0 <= j < dot_index(b) ==> b[j] != '.',
    decreases b.len(),
{
    if b.len() > 0 && b[0] != '.' {
        lemma_dot_index_spec(b.skip(1));
        assert forall|j: int| 0 <= j < dot_index(b) implies b[j] != '.' by {
            if j > 0 {
                assert(b.skip(1)[j - 1] == b[j]);
            }
        }
        if dot_index(b) < b.len() {
            assert(b.skip(1)[dot_index(b) - 1] == b[dot_index(b)]);
        }
    }
}

/// A sequence of digits has a non-negative value.
proof fn lemma_digits_val_nonneg(s: Seq<char>)
    requires
        all_digits(s),
    ensures
        digits_val(s) >= 0,
    decreases s.len(),
{
    if s.len() > 0 {
        assert(all_digits(s.drop_last()));
        lemma_digits_val_nonneg(s.drop_last());
    }
}

/// Reading one more digit multiplies the value so far by ten and adds the
/// digit.
proof fn lemma_digits_val_append(s: Seq<char>, a: int, i: int)
    requires
        0 <= a <= i < s.len(),
    ensures
        digits_val(s.subrange(a, i + 1)) == digits_val(s.subrange(a, i)) * 10 + digit_val(s[i]),
{
    assert(s.subrange(a, i + 1).drop_last() =~= s.subrange(a, i));
    assert(s.subrange(a, i + 1).last() == s[i]);
}

/// Dropping trailing digits can only shrink a digit sequence's value.
proof fn lemma_digits_val_prefix_le(b: Seq<char>, k: int)
    requires
        all_digits(b),
        0 <= k <= b.len(),
    ensures
        digits_val(b.take(k)) <= digits_val(b),
    decreases b.len() - k,
{
    if k == b.len() {
        assert(b.take(k) =~= b);
    } else {
        assert(b.take(k + 1).drop_last() =~= b.take(k));
        assert(b.take(k + 1).last() == b[k]);
        assert(all_digits(b.take(k)));
        lemma_digits_val_nonneg(b.take(k));
        lemma_digits_val_prefix_le(b, k + 1);
    }
}

/// The first two fraction digits give a value below one whole unit.
proof fn lemma_frac_centi_bounds(f: Seq<char>)
    requires
        all_digits(f),
    ensures
        0 <= frac_centi(f) < 100,
{
}

/// Whether the character at an index is a digit.
fn char_at_is_digit(s: &str, i: usize) -> (r: bool)
    requires
        i < s@.len(),
    ensures
        r == is_digit(s@[i as int]),
{
    let c = s.get_char(i);
    let u = c as u32;
    48 <= u && u <= 57
}

/// The numeric value of a digit character.
fn char_digit_value(c: char) -> (r: u32)
    requires
        is_digit(c),
    ensures
        r as int == digit_val(c),
        r <= 9,
{
    (c as u32) - 48
}

/// Scans a run of digits from `off` on, accumulating their decimal value.
/// Stops at the first non-digit; hands back `None` for the value as soon as
/// it no longer fits an `i64`.
fn scan_integer(s: &str, off: usize) -> (r: (usize, Option<i64>))
    requires
        off as int <= s@.len(),
    ensures
        off <= r.0 <= s@.len(),
        forall|j: int| off <= j < r.0 ==> is_digit(#[trigger] s@[j]),
        r.1 matches Some(a) ==> a as int == digits_val(
            s@.subrange(off as int, r.0 as int),
        ) && a >= 0,
        r.1.is_some() && r.0 < s@.len() ==> !is_digit(s@[r.0 as int]),
        r.1.is_none() ==> digits_val(s@.subrange(off as int, r.0 as int)) > i64::MAX,
{
    let n = s.unicode_len();
    let mut i: usize = off;
    let mut acc: i64 = 0;
    proof {
        assert(s@.subrange(off as int, off as int) =~= Seq::<char>::empty());
    }
    while i < n && char_at_is_digit(s, i)
        invariant
            off <= i <= n,
            n as int == s@.len(),
            forall|j: int| off <= j < i ==> is_digit(#[trigger] s@[j]),
            acc as int == digits_val(s@.subrange(off as int, i as int)),
            acc >= 0,
        decreases n - i,
    {
        let c = s.get_char(i);
        let d: u32 = char_digit_value(c);
        proof {
            lemma_digits_val_append(s@, off as int, i as int);
        }
        let acc10: i64 = match acc.checked_mul(10) {
            Some(v) => v,
            None => {
                return (i + 1, None);
            },
        };
        let acc2: i64 = match acc10.checked_add(d as i64) {
            Some(v) => v,
            None => {
                return (i + 1, None);
            },
        };
        acc = acc2;
        i = i + 1;
    }
    (i, Some(acc))
}

/// Scans the fraction digits from `start` to the end of the line. Returns
/// their value in centi-units (the first two digits), or `None` when a
/// non-digit stands among them.
fn scan_fraction(s: &str, start: usize) -> (r: Option<u32>)
    requires
        start as int <= s@.len(),
    ensures
        r.is_some() <==> all_digits(s@.skip(start as int)),
        r matches Some(fc) ==> fc as int == frac_centi(s@.skip(start as int)) && fc < 100,
{
    let n = s.unicode_len();
    let ghost f = s@.skip(start as int);
    let mut j: usize = start;
    let mut d1: u32 = 0;
    let mut d2: u32 = 0;
    while j < n
        invariant
            start <= j <= n,
            n as int == s@.len(),
            f == s@.skip(start as int),
            forall|m: int| start <= m < j ==> is_digit(#[trigger] s@[m]),
            d1 as int == if j > start {
                digit_val(s@[start as int])
            } else {
                0
            },
            d2 as int == if j > start + 1 {
                digit_val(s@[start as int + 1])
            } else {
                0
            },
            d1 <= 9,
            d2 <= 9,
        decreases n - j,
    {
        let c = s.get_char(j);
        if !char_at_is_digit(s, j) {
            proof {
                assert(f[j - start] == s@[j as int]);
                assert(!all_digits(f));
            }
            return None;
        }
        let d = char_digit_value(c);
        if j == start {
            d1 = d;
        } else if j == start + 1 {
            d2 = d;
        }
        j = j + 1;
    }
    proof {
        assert forall|m: int| 0 <= m < f.len() implies is_digit(#[trigger] f[m]) by {
            assert(f[m] == s@[start + m]);
        }
        if f.len() >= 1 {
            assert(f[0] == s@[start as int]);
        }
        if f.len() >= 2 {
            assert(f[1] == s@[start as int + 1]);
        }
    }
    Some(d1 * 10 + d2)
}

/// Assembles a parsed quantity from its integer-part value and its
/// fraction value in centi-units; `None` exactly when the magnitude does
/// not fit an `i64`.
fn combine_quantity(acc: i64, fc: u32, neg: bool, Ghost(s): Ghost<Seq<char>>) -> (r: Option<i64>)
    requires
        valid_quantity(s),
        neg == is_negative(s),
        acc as int == digits_val(int_part(body_of(s))),
        acc >= 0,
        fc as int == frac_centi(frac_part(body_of(s))),
        fc < 100,
    ensures
        r.is_some() <==> magnitude_centi(body_of(s)) <= i64::MAX,
        r matches Some(v) ==> v as int == quantity_value_centi(s),
{
    match acc.checked_mul(100) {
        None => None,
        Some(x) => match x.checked_add(fc as i64) {
            None => None,
            Some(m) => Some(
                if neg {
                    -m
                } else {
                    m
                },
            ),
        },
    }
}

/// Reads a quantity line as the session does: an optional sign, digits
/// with at most one decimal point, and at least one digit. The value is
/// returned in centi-units; fraction digits beyond the second are cut off.
/// Returns `None` on malformed text, and on a magnitude beyond `i64`.
pub fn parse_quantity(s: &str) -> (r: Option<i64>)
    ensures
        r.is_some() <==> valid_quantity(s@) && magnitude_centi(body_of(s@)) <= i64::MAX,
        r matches Some(v) ==> v as int == quantity_value_centi(s@),
{
    let n = s.unicode_len();
    let mut off: usize = 0;
    let mut neg = false;
    if n > 0 {
        let c0 = s.get_char(0);
        if c0 == '+' || c0 == '-' {
            off = 1;
            if c0 == '-' {
                neg = true;
            }
        }
    }
    let ghost b = body_of(s@);
    proof {
        assert(b =~= s@.skip(off as int));
        lemma_dot_index_spec(b);
    }
    let (i, acc_opt) = scan_integer(s, off);
    let ghost k = i as int - off as int;
    proof {
        assert(s@.subrange(off as int, i as int) =~= b.take(k));
    }
    let acc: i64 = match acc_opt {
        None => {
            proof {
                if valid_quantity(s@) {
                    assert(dot_index(b) >= k) by {
                        if dot_index(b) < k {
                            assert(is_digit(b[dot_index(b)]));
                        }
                    }
                    assert(int_part(b).take(k) =~= b.take(k));
                    lemma_digits_val_prefix_le(int_part(b), k);
                    lemma_digits_val_nonneg(int_part(b));
                    lemma_frac_centi_bounds(frac_part(b));
                }
            }
            return None;
        },
        Some(a) => a,
    };
    if i == n {
        // No decimal point: the whole body is the integer part.
        proof {
            assert(dot_index(b) == b.len()) by {
                if dot_index(b) < b.len() {
                    assert(is_digit(b[dot_index(b)]));
                }
            }
            assert(int_part(b) =~= b);
            assert(frac_part(b) =~= Seq::<char>::empty());
        }
        if i == off {
            // An empty body (or a lone sign) holds no digit.
            return None;
        }
        combine_quantity(acc, 0, neg, Ghost(s@))
    } else {
        let c = s.get_char(i);
        if c != '.' {
            // A character that is neither digit nor dot invalidates the
            // part it stands in.
            proof {
                if valid_quantity(s@) {
                    assert(dot_index(b) > k) by {
                        if dot_index(b) < k {
                            assert(is_digit(b[dot_index(b)]));
                        }
                    }
                    assert(int_part(b)[k] == b[k]);
                    assert(is_digit(b[k]));
                }
            }
            return None;
        }
        proof {
            assert(dot_index(b) == k) by {
                if dot_index(b) < k {
                    assert(is_digit(b[dot_index(b)]));
                }
                if dot_index(b) > k {
                    assert(b[k] != '.');
                }
            }
            assert(int_part(b) =~= b.take(k));
            assert(frac_part(b) =~= s@.skip(i as int + 1));
        }
        match scan_fraction(s, i + 1) {
            None => {
                proof {
                    assert(!all_digits(frac_part(b)));
                }
                None
            },
            Some(fc) => {
                if i == off && i + 1 == n {
                    // A dot alone, with no digit on either side.
                    proof {
                        assert(int_part(b).len() == 0);
                        assert(frac_part(b).len() == 0);
                    }
                    return None;
                }
                combine_quantity(acc, fc, neg, Ghost(s@))
            },
        }
    }
}

/// The one-character string for a digit value.
fn digit_str(d: u64) -> (r: &'static str)
    requires
        d < 10,
    ensures
        r@ == seq![spec_digit_char(d as int)],
{
    let r: &'static str = match d {
        0 => "0",
        1 => "1",
        2 => "2",
        3 => "3",
        4 => "4",
        5 => "5",
        6 => "6",
        7 => "7",
        8 => "8",
        _ => "9",
    };
    proof {
        reveal_strlit("0");
        reveal_strlit("1");
        reveal_strlit("2");
        reveal_strlit("3");
        reveal_strlit("4");
        reveal_strlit("5");
        reveal_strlit("6");
        reveal_strlit("7");
        reveal_strlit("8");
        reveal_strlit("9");
        assert(r@ =~= seq![spec_digit_char(d as int)]);
    }
    r
}

/// The decimal digits of a number, most significant first.
fn nat_digits_string(n: u64) -> (r: String)
    ensures
        r@ == spec_nat_digits(n as nat),
    decreases n,
{
    if n < 10 {
        String::from_str(digit_str(n))
    } else {
        let prefix = nat_digits_string(n / 10);
        let r = prefix.concat(digit_str(n % 10));
        proof {
            assert(r@ =~= spec_nat_digits((n / 10) as nat).push(
                spec_digit_char((n % 10) as int),
            ));
        }
        r
    }
}

/// Prints a mass in 1e-4 kg as kilograms with two decimal places, rounded
/// to the nearest hundredth with ties away from zero; a negative mass
/// carries a leading '-' even when it rounds to zero.
pub fn format_kg_e4(v_e4: i64) -> (r: String)
    ensures
        r@ == spec_format_kg(v_e4 as int),
{
    let neg = v_e4 < 0;
    let mag: u64 = if v_e4 >= 0 {
        v_e4 as u64
    } else {
        (-(v_e4 + 1)) as u64 + 1
    };
    proof {
        assert(mag as int == if v_e4 >= 0 { v_e4 as int } else { -(v_e4 as int) });
    }
    let rc: u64 = (mag + 50) / 100;
    let whole: u64 = rc / 100;
    let frac: u64 = rc % 100;
    let mut out = String::new();
    if neg {
        out.append("-");
    }
    let digits = nat_digits_string(whole);
    out.append(digits.as_str());
    out.append(".");
    out.append(digit_str(frac / 10));
    out.append(digit_str(frac % 10));
    proof {
        reveal_strlit("-");
        reveal_strlit(".");
        assert(rc as nat == round_centi(mag as nat));
        assert(out@ =~= spec_format_kg(v_e4 as int));
    }
    out
}

} // verus!
