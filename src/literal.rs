use vstd::prelude::*;
use crate::types::{is_signed, IntegerType};

verus! {

pub open spec fn is_digit(c: char) -> bool {
    '0' <= c && c <= '9'
}

pub open spec fn all_digits(s: Seq<char>) -> bool {
    forall|i: int| 0 <= i < s.len() ==> is_digit(#[trigger] s[i])
}

/// The number that a string of decimal digits denotes.
pub open spec fn digits_value(s: Seq<char>) -> int
    decreases s.len(),
{
    if s.len() == 0 {
        0
    } else {
        digits_value(s.drop_last()) * 10 + (s.last() as int - '0' as int)
    }
}

/// The value of `s` read as a decimal integer: an optional sign (`-` only
/// where `signed`) followed by one or more digits, and nothing else.
pub open spec fn decimal_value(s: Seq<char>, signed: bool) -> Option<int> {
    if s.len() > 0 && (s[0] == '+' || (s[0] == '-' && signed)) {
        let d = s.drop_first();
        if d.len() > 0 && all_digits(d) {
            Some(if s[0] == '-' { -digits_value(d) } else { digits_value(d) })
        } else {
            None
        }
    } else if s.len() > 0 && all_digits(s) {
        Some(digits_value(s))
    } else {
        None
    }
}

pub open spec fn min_value(t: IntegerType) -> int {
    match t {
        IntegerType::I8 => -0x80,
        IntegerType::I16 => -0x8000,
        IntegerType::I32 => -0x8000_0000,
        IntegerType::I64 => -0x8000_0000_0000_0000,
        IntegerType::I128 => -0x8000_0000_0000_0000_0000_0000_0000_0000,
        _ => 0,
    }
}

pub open spec fn max_value(t: IntegerType) -> int {
    match t {
        IntegerType::I8 => 0x7f,
        IntegerType::I16 => 0x7fff,
        IntegerType::I32 => 0x7fff_ffff,
        IntegerType::I64 => 0x7fff_ffff_ffff_ffff,
        IntegerType::I128 => 0x7fff_ffff_ffff_ffff_ffff_ffff_ffff_ffff,
        IntegerType::U8 => 0xff,
        IntegerType::U16 => 0xffff,
        IntegerType::U32 => 0xffff_ffff,
        IntegerType::U64 => 0xffff_ffff_ffff_ffff,
        IntegerType::U128 => 0xffff_ffff_ffff_ffff_ffff_ffff_ffff_ffff,
    }
}

/// The text that an integer literal is read as: its digits, with a `-` in
/// front when it is the operand of a negation and its type is signed.
pub open spec fn literal_text(t: IntegerType, digits: Seq<char>, negated: bool) -> Seq<char> {
    if negated && is_signed(t) {
        seq!['-'] + digits
    } else {
        digits
    }
}

/// Whether an integer literal denotes a value of its declared type.
pub open spec fn literal_in_range(t: IntegerType, digits: Seq<char>, negated: bool) -> bool {
    match decimal_value(literal_text(t, digits, negated), is_signed(t)) {
        Some(v) => min_value(t) <= v && v <= max_value(t),
        None => false,
    }
}

/// The largest magnitude of a value of type `t` with the given sign.
fn magnitude_limit(t: IntegerType, negative: bool) -> (r: u128)
    requires
        negative ==> is_signed(t),
    ensures
        r == if negative { -min_value(t) } else { max_value(t) },
        r >= 127,
{
    match t {
        IntegerType::I8 => if negative { 0x80 } else { 0x7f },
        IntegerType::I16 => if negative { 0x8000 } else { 0x7fff },
        IntegerType::I32 => if negative { 0x8000_0000 } else { 0x7fff_ffff },
        IntegerType::I64 => if negative { 0x8000_0000_0000_0000 } else { 0x7fff_ffff_ffff_ffff },
        IntegerType::I128 => if negative {
            0x8000_0000_0000_0000_0000_0000_0000_0000
        } else {
            0x7fff_ffff_ffff_ffff_ffff_ffff_ffff_ffff
        },
        IntegerType::U8 => 0xff,
        IntegerType::U16 => 0xffff,
        IntegerType::U32 => 0xffff_ffff,
        IntegerType::U64 => 0xffff_ffff_ffff_ffff,
        IntegerType::U128 => 0xffff_ffff_ffff_ffff_ffff_ffff_ffff_ffff,
    }
}

proof fn lemma_digits_nonneg(s: Seq<char>)
    requires
        all_digits(s),
    ensures
        digits_value(s) >= 0,
    decreases s.len(),
{
    if s.len() > 0 {
        assert(is_digit(s[s.len() - 1]));
        lemma_digits_nonneg(s.drop_last());
    }
}

/// Whether the integer literal with digits `digits` and type `t`, read with a
/// leading `-` when `negated` and `t` is signed, is a value of `t`.
pub fn literal_fits(t: IntegerType, digits: &str, negated: bool) -> (r: bool)
    ensures
        r == literal_in_range(t, digits@, negated),
{
    let signed = t.is_signed();
    let n = digits.unicode_len();
    let ghost full = literal_text(t, digits@, negated);
    let mut start: usize = 0;
    let mut negative = false;
    if negated && signed {
        negative = true;
        assert(full.drop_first() =~= digits@);
    } else if n > 0 && digits.get_char(0) == '+' {
        start = 1;
    } else if n > 0 && digits.get_char(0) == '-' && signed {
        start = 1;
        negative = true;
    }
    let ghost d = digits@.subrange(start as int, n as int);
    proof {
        if start == 1 {
            assert(full.drop_first() =~= d);
        } else {
            assert(d =~= digits@);
        }
        if negated && signed {
            assert(full[0] == '-');
        } else {
            assert(full == digits@);
        }
        assert(decimal_value(full, signed) == if d.len() > 0 && all_digits(d) {
            Some(if negative { -digits_value(d) } else { digits_value(d) })
        } else {
            None::<int>
        });
    }
    if start >= n {
        return false;
    }
    let limit = magnitude_limit(t, negative);
    let mut value: u128 = 0;
    let mut too_big = false;
    let mut i: usize = start;
    while i < n
        invariant
            start <= i <= n,
            start < n,
            n == digits@.len(),
            limit >= 127,
            limit == if negative { -min_value(t) } else { max_value(t) },
            full == literal_text(t, digits@, negated),
            signed == is_signed(t),
            decimal_value(full, signed) == if d.len() > 0 && all_digits(d) {
                Some(if negative { -digits_value(d) } else { digits_value(d) })
            } else {
                None::<int>
            },
            d == digits@.subrange(start as int, n as int),
            all_digits(digits@.subrange(start as int, i as int)),
            too_big ==> digits_value(digits@.subrange(start as int, i as int)) > limit,
            !too_big ==> value == digits_value(digits@.subrange(start as int, i as int)) && value <= limit,
        decreases n - i,
    {
        let c = digits.get_char(i);
        let ghost pre = digits@.subrange(start as int, i as int);
        let ghost next = digits@.subrange(start as int, i + 1);
        assert(next.drop_last() =~= pre);
        if !('0' <= c && c <= '9') {
            assert(d[i - start] == c);
            assert(!all_digits(d));
            return false;
        }
        let dv = (c as u32 - '0' as u32) as u128;
        assert(digits_value(next) == digits_value(pre) * 10 + dv);
        if too_big {
            proof {
                lemma_digits_nonneg(pre);
                assert(digits_value(pre) * 10 >= digits_value(pre)) by (nonlinear_arith)
                    requires digits_value(pre) >= 0;
            }
        } else if value > (limit - dv) / 10 {
            assert(value * 10 + dv > limit) by (nonlinear_arith)
                requires value > (limit - dv) / 10, limit >= 0, dv >= 0, dv <= 9;
            too_big = true;
        } else {
            assert(value * 10 + dv <= limit) by (nonlinear_arith)
                requires value <= (limit - dv) / 10, dv <= 9, limit >= dv;
            value = value * 10 + dv;
        }
        assert(all_digits(next)) by {
            assert forall|j: int| 0 <= j < next.len() implies is_digit(#[trigger] next[j]) by {
                if j < pre.len() {
                    assert(next[j] == pre[j]);
                }
            }
        }
        i += 1;
    }
    assert(digits@.subrange(start as int, i as int) =~= d);
    proof { lemma_digits_nonneg(d); }
    !too_big
}

} // verus!
