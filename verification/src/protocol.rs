//! The line codec of the receiver's remote-control protocol: one textual
//! command per line, one reply line per command.
//!
//! Commands are rendered to bytes here; replies are parsed here. The
//! network itself is the caller's business. Signal levels cross the wire
//! as decimal decibel figures with an optional fraction; the library holds
//! them in hundredths of a decibel.

use vstd::prelude::*;

use crate::config::LEVEL_BOUND;
use crate::numbers::all_digits;
use crate::numbers::dec_repr;
use crate::numbers::dec_value;
use crate::numbers::digit_val;
use crate::numbers::format_u64;
use crate::numbers::is_digit;
use crate::numbers::lemma_dec_repr_digits;
use crate::numbers::parse_u64_range;

verus! {

/// Largest integer decibel part a level reply may carry: beyond it the
/// value in hundredths no longer fits a signed 64-bit word.
pub const LEVEL_INT_MAX: u64 = 92233720368547757;

/// A reply line with its trailing line feed (and optional carriage return
/// before it) removed.
pub open spec fn trimmed_spec(s: Seq<u8>) -> Seq<u8> {
    if s.len() > 0 && s.last() == 10 {
        let t = s.drop_last();
        if t.len() > 0 && t.last() == 13 {
            t.drop_last()
        } else {
            t
        }
    } else {
        s
    }
}

/// Strips one trailing line ending, if present.
pub fn trim_line_ending(s: &Vec<u8>) -> (r: Vec<u8>)
    ensures
        r@ == trimmed_spec(s@),
{
    let mut end = s.len();
    if end > 0 && s[end - 1] == 10 {
        end = end - 1;
        if end > 0 && s[end - 1] == 13 {
            end = end - 1;
        }
    }
    assert(s@.subrange(0, end as int) =~= trimmed_spec(s@));
    let mut out: Vec<u8> = Vec::new();
    let mut i: usize = 0;
    while i < end
        invariant
            i <= end <= s@.len(),
            out@ == s@.subrange(0, i as int),
        decreases end - i,
    {
        out.push(s[i]);
        assert(out@ =~= s@.subrange(0, i + 1 as int));
        i = i + 1;
    }
    proof {
        assert(out@ =~= trimmed_spec(s@));
    }
    out
}

/// The tune command: `F <hz>` and a line feed.
pub open spec fn set_frequency_cmd(hz: int) -> Seq<u8> {
    seq![70u8, 32u8] + dec_repr(hz) + seq![10u8]
}

/// Renders the tune command for a frequency.
pub fn format_set_frequency(hz: u64) -> (r: Vec<u8>)
    ensures
        r@ == set_frequency_cmd(hz as int),
{
    let mut out: Vec<u8> = Vec::new();
    out.push(70);
    out.push(32);
    let mut digits = format_u64(hz);
    out.append(&mut digits);
    out.push(10);
    proof {
        assert(out@ =~= set_frequency_cmd(hz as int));
    }
    out
}

/// The signal-level query: `l` and a line feed.
pub open spec fn get_level_cmd() -> Seq<u8> {
    seq![108u8, 10u8]
}

/// Renders the signal-level query.
pub fn format_get_level() -> (r: Vec<u8>)
    ensures
        r@ == get_level_cmd(),
{
    let mut out: Vec<u8> = Vec::new();
    out.push(108);
    out.push(10);
    proof {
        assert(out@ =~= get_level_cmd());
    }
    out
}

/// The tuned-frequency query: `f` and a line feed.
pub open spec fn get_frequency_cmd() -> Seq<u8> {
    seq![102u8, 10u8]
}

/// Renders the tuned-frequency query.
pub fn format_get_frequency() -> (r: Vec<u8>)
    ensures
        r@ == get_frequency_cmd(),
{
    let mut out: Vec<u8> = Vec::new();
    out.push(102);
    out.push(10);
    proof {
        assert(out@ =~= get_frequency_cmd());
    }
    out
}

/// A level in hundredths of a decibel, written as decibels: an optional
/// minus sign, the integer part, a dot and exactly two fraction digits.
pub open spec fn centi_db_repr(v: int) -> Seq<u8> {
    let m = if v < 0 {
        -v
    } else {
        v
    };
    (if v < 0 {
        seq![45u8]
    } else {
        Seq::<u8>::empty()
    }) + dec_repr(m / 100) + seq![46u8] + seq![(48 + (m % 100) / 10) as u8, (48 + m % 100 % 10) as u8]
}

/// Renders a level in hundredths of a decibel as a decibel figure.
pub fn format_centi_db(v: i64) -> (r: Vec<u8>)
    requires
        -LEVEL_BOUND <= v <= LEVEL_BOUND,
    ensures
        r@ == centi_db_repr(v as int),
{
    let mut out: Vec<u8> = Vec::new();
    if v < 0 {
        out.push(45);
    }
    let m: i64 = if v < 0 {
        -v
    } else {
        v
    };
    let mut digits = format_u64((m / 100) as u64);
    out.append(&mut digits);
    out.push(46);
    out.push(48 + ((m % 100) / 10) as u8);
    out.push(48 + ((m % 100) % 10) as u8);
    proof {
        assert(out@ =~= centi_db_repr(v as int));
    }
    out
}

/// The squelch-setting command: `L <db>` and a line feed.
pub open spec fn set_squelch_cmd(v: int) -> Seq<u8> {
    seq![76u8, 32u8] + centi_db_repr(v) + seq![10u8]
}

/// Renders the squelch-setting command for a level in hundredths of a
/// decibel.
pub fn format_set_squelch(v: i64) -> (r: Vec<u8>)
    requires
        -LEVEL_BOUND <= v <= LEVEL_BOUND,
    ensures
        r@ == set_squelch_cmd(v as int),
{
    let mut out: Vec<u8> = Vec::new();
    out.push(76);
    out.push(32);
    let mut db = format_centi_db(v);
    out.append(&mut db);
    out.push(10);
    proof {
        assert(out@ =~= set_squelch_cmd(v as int));
    }
    out
}

/// Value of a trimmed signed decimal numeral, `None` past the signed
/// 64-bit range.
pub open spec fn signed_dec_spec(s: Seq<u8>) -> Option<int> {
    if s.len() > 0 && s[0] == 45 {
        match udec_spec(s.skip(1)) {
            Some(v) => Some(-v),
            None => None,
        }
    } else {
        udec_spec(s)
    }
}

/// Value of a trimmed unsigned decimal numeral, `None` when empty, not all
/// digits, or past the signed 64-bit range.
pub open spec fn udec_spec(s: Seq<u8>) -> Option<int> {
    if s.len() > 0 && all_digits(s) && dec_value(s) <= i64::MAX {
        Some(dec_value(s))
    } else {
        None
    }
}

/// The status code of a trimmed `RPRT <code>` acknowledgement line, `None`
/// on any other line.
pub open spec fn rprt_spec(s: Seq<u8>) -> Option<int> {
    if s.len() > 5 && s.take(5) == seq![82u8, 80u8, 82u8, 84u8, 32u8] {
        signed_dec_spec(s.skip(5))
    } else {
        None
    }
}

/// Reads an acknowledgement line: `Some(code)` exactly on a well-formed
/// `RPRT <code>`, where zero means success.
pub fn parse_rprt(line: &Vec<u8>) -> (r: Option<i64>)
    ensures
        match r {
            Some(v) => rprt_spec(line@) == Some(v as int),
            None => rprt_spec(line@) is None,
        },
{
    let len = line.len();
    if !(len > 5 && line[0] == 82 && line[1] == 80 && line[2] == 82 && line[3] == 84 && line[4]
        == 32) {
        proof {
            if line@.len() > 5 && line@.take(5) == seq![82u8, 80u8, 82u8, 84u8, 32u8] {
                assert(line@.take(5)[0] == 82 && line@.take(5)[1] == 80 && line@.take(5)[2] == 82
                    && line@.take(5)[3] == 84 && line@.take(5)[4] == 32);
            }
        }
        return None;
    }
    proof {
        assert(line@.take(5) =~= seq![82u8, 80u8, 82u8, 84u8, 32u8]);
    }
    let neg = line[5] == 45;
    let start: usize = if neg {
        6
    } else {
        5
    };
    let ghost tail = line@.skip(5);
    proof {
        assert(tail =~= line@.subrange(5, line@.len() as int));
        if neg {
            assert(tail.skip(1) =~= line@.subrange(6, line@.len() as int));
        }
    }
    match parse_u64_range(line, start, len) {
        Some(n) => {
            if n <= 9223372036854775807 {
                let v = n as i64;
                if neg {
                    Some(-v)
                } else {
                    Some(v)
                }
            } else {
                None
            }
        },
        None => None,
    }
}

/// Index of the first dot of the sequence, or its length if it has none.
pub open spec fn dot_pos(s: Seq<u8>) -> int
    decreases s.len(),
{
    if s.len() == 0 {
        0
    } else if s[0] == 46 {
        0
    } else {
        1 + dot_pos(s.skip(1))
    }
}

/// A scan that saw no dot before `k`, and a dot (or the end) at `k`, found
/// the first dot.
pub proof fn lemma_dot_pos_from_scan(t: Seq<u8>, k: int)
    requires
        0 <= k <= t.len(),
        forall|i: int| 0 <= i < k ==> t[i] != 46,
        k < t.len() ==> t[k] == 46,
    ensures
        dot_pos(t) == k,
    decreases k,
{
    if k == 0 {
    } else {
        assert(t[0] != 46);
        assert(forall|i: int| 0 <= i < k - 1 ==> t.skip(1)[i] == t[i + 1] && t[i + 1] != 46);
        assert(k - 1 < t.skip(1).len() ==> t.skip(1)[k - 1] == t[k as int]);
        lemma_dot_pos_from_scan(t.skip(1), k - 1);
    }
}

/// The first two fraction digits read as hundredths; one digit counts as
/// tenths.
pub open spec fn frac_centi(s: Seq<u8>) -> int {
    if s.len() == 0 {
        0
    } else if s.len() == 1 {
        digit_val(s[0]) * 10
    } else {
        digit_val(s[0]) * 10 + digit_val(s[1])
    }
}

/// Value, in hundredths of a decibel, of a trimmed unsigned decibel
/// figure: an integer part, optionally a dot and a nonempty run of
/// fraction digits, of which the first two count.
pub open spec fn unsigned_level_spec(s: Seq<u8>) -> Option<int> {
    let p = dot_pos(s);
    let ip = s.take(p);
    if !(ip.len() > 0 && all_digits(ip) && dec_value(ip) <= LEVEL_INT_MAX) {
        None
    } else if p == s.len() {
        Some(dec_value(ip) * 100)
    } else {
        let fp = s.skip(p + 1);
        if fp.len() > 0 && all_digits(fp) {
            Some(dec_value(ip) * 100 + frac_centi(fp))
        } else {
            None
        }
    }
}

/// Value, in hundredths of a decibel, of a trimmed decibel figure with an
/// optional leading minus sign.
pub open spec fn level_spec(s: Seq<u8>) -> Option<int> {
    if s.len() > 0 && s[0] == 45 {
        match unsigned_level_spec(s.skip(1)) {
            Some(v) => Some(-v),
            None => None,
        }
    } else {
        unsigned_level_spec(s)
    }
}

/// Reads a trimmed signal-level reply as hundredths of a decibel:
/// `Some` exactly on a well-formed decibel figure in range.
#[verifier::loop_isolation(false)]
pub fn parse_level(line: &Vec<u8>) -> (r: Option<i64>)
    ensures
        match r {
            Some(v) => level_spec(line@) == Some(v as int),
            None => level_spec(line@) is None,
        },
{
    let len = line.len();
    let neg = len > 0 && line[0] == 45;
    let off: usize = if neg {
        1
    } else {
        0
    };
    let ghost t = line@.skip(off as int);
    proof {
        if neg {
            assert(t =~= line@.skip(1));
        } else {
            assert(t =~= line@);
        }
    }
    let mut j: usize = off;
    while j < len && line[j] != 46
        invariant
            off <= j <= len,
            len == line@.len(),
            forall|i: int| off <= i < j ==> line@[i] != 46,
        decreases len - j,
    {
        j = j + 1;
    }
    proof {
        assert(forall|i: int| 0 <= i < j - off ==> t[i] == line@[off + i] && line@[off + i] != 46);
        assert(j - off < t.len() ==> t[j - off] == line@[j as int]);
        lemma_dot_pos_from_scan(t, j - off);
        assert(t.take(j - off) =~= line@.subrange(off as int, j as int));
    }
    let n = match parse_u64_range(line, off, j) {
        Some(n) => n,
        None => {
            return None;
        },
    };
    if n > LEVEL_INT_MAX {
        return None;
    }
    if j == len {
        let v = (n as i64) * 100;
        if neg {
            return Some(-v);
        } else {
            return Some(v);
        }
    }
    // a dot was found; the fraction must be a nonempty run of digits
    proof {
        assert(t.skip((j - off) + 1) =~= line@.subrange(j + 1 as int, len as int));
    }
    if j + 1 == len {
        proof {
            assert(t.skip((j - off) + 1).len() == 0);
            assert(unsigned_level_spec(t) is None);
        }
        return None;
    }
    let mut i: usize = j + 1;
    while i < len
        invariant
            j + 1 <= i <= len,
            len == line@.len(),
            forall|k: int| j + 1 <= k < i ==> is_digit(line@[k]),
        decreases len - i,
    {
        let b = line[i];
        if !(48 <= b && b <= 57) {
            assert(!all_digits(line@.subrange(j + 1 as int, len as int))) by {
                assert(line@.subrange(j + 1 as int, len as int)[i - (j + 1)] == b);
            }
            return None;
        }
        i = i + 1;
    }
    assert(all_digits(line@.subrange(j + 1 as int, len as int)));
    let d1 = (line[j + 1] - 48) as i64;
    let f: i64 = if len - (j + 1) >= 2 {
        d1 * 10 + ((line[j + 2] - 48) as i64)
    } else {
        d1 * 10
    };
    let v = (n as i64) * 100 + f;
    if neg {
        Some(-v)
    } else {
        Some(v)
    }
}

} // verus!
