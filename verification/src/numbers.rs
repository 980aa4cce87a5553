//! Decimal text: the digit sequences the control protocol carries, their
//! values, and verified parsing and formatting between them.

use vstd::prelude::*;

verus! {

/// ASCII decimal digit.
pub open spec fn is_digit(b: u8) -> bool {
    48 <= b <= 57
}

/// Numeric value of one digit byte.
pub open spec fn digit_val(b: u8) -> int {
    b - 48
}

/// Every byte of the sequence is a decimal digit.
pub open spec fn all_digits(s: Seq<u8>) -> bool {
    forall|i: int| 0 <= i < s.len() ==> is_digit(s[i])
}

/// Value of a digit sequence read as a decimal numeral.
pub open spec fn dec_value(s: Seq<u8>) -> int
    decreases s.len(),
{
    if s.len() == 0 {
        0
    } else {
        dec_value(s.drop_last()) * 10 + digit_val(s.last())
    }
}

/// The decimal numeral of a nonnegative number, most significant digit
/// first, no leading zeros except on zero itself.
pub open spec fn dec_repr(n: int) -> Seq<u8>
    decreases n,
{
    if n < 10 {
        seq![(48 + n) as u8]
    } else {
        dec_repr(n / 10) + seq![(48 + n % 10) as u8]
    }
}

/// A digit sequence has a nonnegative value.
pub proof fn lemma_dec_value_nonneg(s: Seq<u8>)
    requires
        all_digits(s),
    ensures
        dec_value(s) >= 0,
    decreases s.len(),
{
    if s.len() > 0 {
        assert(all_digits(s.drop_last()));
        lemma_dec_value_nonneg(s.drop_last());
    }
}

/// Reading more digits never shrinks the value: the whole numeral is at
/// least any of its prefixes.
pub proof fn lemma_dec_value_grows(s: Seq<u8>, k: int)
    requires
        all_digits(s),
        0 <= k <= s.len(),
    ensures
        dec_value(s) >= dec_value(s.take(k)),
    decreases s.len() - k,
{
    if k < s.len() {
        assert(s.take(k + 1).drop_last() =~= s.take(k));
        assert(all_digits(s.take(k)));
        lemma_dec_value_nonneg(s.take(k));
        assert(dec_value(s.take(k + 1)) == dec_value(s.take(k)) * 10 + digit_val(s[k]));
        lemma_dec_value_grows(s, k + 1);
    } else {
        assert(s.take(k) =~= s);
    }
}

/// The numeral of a number is all digits and never empty.
pub proof fn lemma_dec_repr_digits(n: int)
    requires
        n >= 0,
    ensures
        all_digits(dec_repr(n)),
        dec_repr(n).len() >= 1,
    decreases n,
{
    if n >= 10 {
        lemma_dec_repr_digits(n / 10);
    }
}

/// Formatting then reading a number gives the number back.
pub proof fn lemma_dec_value_of_repr(n: int)
    requires
        n >= 0,
    ensures
        dec_value(dec_repr(n)) == n,
    decreases n,
{
    lemma_dec_repr_digits(n);
    if n < 10 {
        assert(dec_repr(n) == seq![(48 + n) as u8]);
        assert(dec_repr(n).drop_last() =~= Seq::<u8>::empty());
        assert(dec_repr(n).last() == (48 + n) as u8);
        assert(dec_value(Seq::<u8>::empty()) == 0);
        assert(dec_value(dec_repr(n)) == dec_value(dec_repr(n).drop_last()) * 10 + digit_val(
            dec_repr(n).last(),
        ));
    } else {
        lemma_dec_value_of_repr(n / 10);
        assert(dec_repr(n).drop_last() =~= dec_repr(n / 10));
        assert(dec_repr(n).last() == (48 + n % 10) as u8);
        assert(dec_value(dec_repr(n)) == dec_value(dec_repr(n).drop_last()) * 10 + digit_val(
            dec_repr(n).last(),
        ));
    }
}

/// Reads the bytes `start..end` as an unsigned decimal numeral. `None`
/// exactly when the range is empty, holds a non-digit, or encodes a value
/// beyond `u64`.
pub fn parse_u64_range(s: &Vec<u8>, start: usize, end: usize) -> (r: Option<u64>)
    requires
        start <= end <= s@.len(),
    ensures
        ({
            let part = s@.subrange(start as int, end as int);
            match r {
                Some(n) => part.len() > 0 && all_digits(part) && dec_value(part) <= u64::MAX && n
                    == dec_value(part),
                None => !(part.len() > 0 && all_digits(part) && dec_value(part) <= u64::MAX),
            }
        }),
{
    let ghost part = s@.subrange(start as int, end as int);
    if start == end {
        return None;
    }
    let mut n: u64 = 0;
    let mut i: usize = start;
    while i < end
        invariant
            start <= i <= end <= s@.len(),
            part == s@.subrange(start as int, end as int),
            all_digits(s@.subrange(start as int, i as int)),
            n == dec_value(s@.subrange(start as int, i as int)),
        decreases end - i,
    {
        let ghost prefix = s@.subrange(start as int, i as int);
        let b = s[i];
        assert(part[i - start] == b);
        if !(48 <= b && b <= 57) {
            assert(!all_digits(part));
            return None;
        }
        let d = (b - 48) as u64;
        assert(s@.subrange(start as int, i + 1 as int).drop_last() =~= prefix);
        assert(s@.subrange(start as int, i + 1 as int).last() == b);
        if n > (u64::MAX - d) / 10 {
            proof {
                assert(10 * n + d > u64::MAX) by (nonlinear_arith)
                    requires
                        n > (u64::MAX - d) / 10,
                        d <= 9,
                        (u64::MAX - d) / 10 == ((u64::MAX - d) as int) / 10,
                ;
                assert(part.take(i + 1 - start) =~= s@.subrange(start as int, i + 1 as int));
                if all_digits(part) {
                    lemma_dec_value_grows(part, i + 1 - start);
                    assert(dec_value(part) > u64::MAX);
                }
            }
            return None;
        }
        n = n * 10 + d;
        i = i + 1;
    }
    assert(s@.subrange(start as int, end as int) =~= part);
    Some(n)
}

/// Reads the whole byte string as an unsigned decimal numeral.
pub fn parse_u64(s: &Vec<u8>) -> (r: Option<u64>)
    ensures
        match r {
            Some(n) => s@.len() > 0 && all_digits(s@) && dec_value(s@) <= u64::MAX && n
                == dec_value(s@),
            None => !(s@.len() > 0 && all_digits(s@) && dec_value(s@) <= u64::MAX),
        },
{
    let end = s.len();
    let r = parse_u64_range(s, 0, end);
    assert(s@.subrange(0, end as int) =~= s@);
    r
}

/// Writes a number as its decimal numeral.
pub fn format_u64(n: u64) -> (r: Vec<u8>)
    ensures
        r@ == dec_repr(n as int),
        all_digits(r@),
        r@.len() >= 1,
{
    let mut out: Vec<u8> = Vec::new();
    let mut cur: u64 = n;
    while cur >= 10
        invariant
            dec_repr(n as int) == dec_repr(cur as int) + out@,
        decreases cur,
    {
        let d = (cur % 10) as u8 + 48;
        proof {
            assert(dec_repr(cur as int) == dec_repr(cur as int / 10) + seq![d]);
            assert(dec_repr(cur as int / 10) + (seq![d] + out@) =~= (dec_repr(cur as int / 10)
                + seq![d]) + out@);
            assert(out@.insert(0, d) =~= seq![d] + out@);
        }
        out.insert(0, d);
        cur = cur / 10;
    }
    let d0 = cur as u8 + 48;
    proof {
        assert(dec_repr(cur as int) == seq![d0]);
        assert(out@.insert(0, d0) =~= seq![d0] + out@);
    }
    out.insert(0, d0);
    proof {
        lemma_dec_repr_digits(n as int);
    }
    out
}

} // verus!
