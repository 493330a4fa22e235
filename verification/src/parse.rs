//! Parsing `[sign]digits[.digits]` strings into timestamps.
//!
//! The grammar has no whitespace tolerance. The integer part may carry a
//! sign and may be empty when a dot is present; the fractional digits are
//! read as the most significant digits of the nine-digit nanosecond field,
//! and digits beyond the ninth are checked but discarded.

use vstd::prelude::*;

use vstd::string::StrSliceExecFns;
use vstd::utf8::is_ascii_chars;

use crate::digits::all_digits;
use crate::digits::digit_val;
use crate::digits::digits_val;
use crate::digits::is_digit_char;
use crate::digits::lemma_digits_val_bound;
use crate::digits::lemma_digits_val_nonneg;
use crate::digits::lemma_digits_val_prefix;
use crate::digits::lemma_digits_val_push;
use crate::digits::lemma_pow10_concrete;
use crate::digits::lemma_pow10_mono;
use crate::digits::lemma_scaled_frac_bound;
use crate::digits::pow10;
use crate::ConversionError;
use crate::TimeView;
use crate::UtcTime;
use crate::NANOS_PER_SEC;

verus! {

/// The index of the first `.` in `s`, or `s.len()` when there is none.
pub open spec fn spec_dot_pos(s: Seq<char>) -> int
    decreases s.len(),
{
    if s.len() == 0 {
        0
    } else if s[0] == '.' {
        0
    } else {
        1 + spec_dot_pos(s.drop_first())
    }
}

/// What the integer part denotes: an optional sign followed by at least one
/// digit, read as a signed 64-bit value; an empty part counts as zero, and
/// anything else - a stray character, a bare sign, a value out of range -
/// denotes nothing.
pub open spec fn spec_parse_secs(s: Seq<char>) -> Option<int> {
    if s.len() == 0 {
        Some(0)
    } else {
        let digits = if s[0] == '-' || s[0] == '+' {
            s.drop_first()
        } else {
            s
        };
        if digits.len() == 0 || !all_digits(digits) {
            None
        } else {
            let v = if s[0] == '-' {
                -digits_val(digits)
            } else {
                digits_val(digits)
            };
            if i64::MIN <= v <= i64::MAX {
                Some(v)
            } else {
                None
            }
        }
    }
}

/// What the fractional part denotes, in nanoseconds. Up to nine digits are
/// the most significant digits of the nanosecond field; digits beyond the
/// ninth are required to be digits but add nothing. An empty part counts as
/// zero; any non-digit denotes nothing.
pub open spec fn spec_parse_frac(s: Seq<char>) -> Option<int> {
    if s.len() == 0 {
        Some(0)
    } else if !all_digits(s) {
        None
    } else if s.len() <= 9 {
        Some(digits_val(s) * pow10((9 - s.len()) as nat))
    } else {
        Some(digits_val(s.take(9)))
    }
}

/// What a whole input denotes. The empty string, the bare dot and any
/// non-ASCII input denote nothing; otherwise the input splits at the first
/// dot and both parts must denote a value.
pub open spec fn spec_parse(s: Seq<char>) -> Option<TimeView> {
    if s.len() == 0 || (s.len() == 1 && s[0] == '.') || !is_ascii_chars(s) {
        None
    } else {
        let dot = spec_dot_pos(s);
        let secs_part = s.take(dot);
        let frac_part = if dot == s.len() {
            Seq::<char>::empty()
        } else {
            s.skip(dot + 1)
        };
        if spec_parse_secs(secs_part) is Some && spec_parse_frac(frac_part) is Some {
            Some(
                TimeView {
                    secs: spec_parse_secs(secs_part).unwrap(),
                    nanos: spec_parse_frac(frac_part).unwrap(),
                },
            )
        } else {
            None
        }
    }
}

/// An index left of which no dot occurs, and which holds a dot or the end,
/// is the first dot position.
pub(crate) proof fn lemma_dot_pos_at(s: Seq<char>, i: int)
    requires
        0 <= i <= s.len(),
        forall|j: int| 0 <= j < i ==> s[j] != '.',
        i < s.len() ==> s[i] == '.',
    ensures
        spec_dot_pos(s) == i,
    decreases i,
{
    if i > 0 {
        lemma_dot_pos_at(s.drop_first(), i - 1);
    }
}

/// Read the integer part `s[..end]` as a signed 64-bit second count.
fn parse_secs_part(s: &str, end: usize) -> (r: Option<i64>)
    requires
        s.is_ascii(),
        end <= s@.len(),
    ensures
        r is Some <==> spec_parse_secs(s@.take(end as int)) is Some,
        r matches Some(v) ==> Some(v as int) == spec_parse_secs(s@.take(end as int)),
{
    let ghost part = s@.take(end as int);
    if end == 0 {
        return Some(0);
    }
    let first = s.get_ascii(0);
    let neg = first == 45;
    let start: usize = if first == 45 || first == 43 {
        1
    } else {
        0
    };
    let ghost digits = if start == 1 {
        part.drop_first()
    } else {
        part
    };
    proof {
        assert(digits =~= s@.subrange(start as int, end as int));
    }
    if start == end {
        // a bare sign: there are no digits to read
        return None;
    }
    let mut i: usize = start;
    let mut acc: u64 = 0;
    while i < end
        invariant
            s.is_ascii(),
            0 < end <= s@.len(),
            start <= i <= end,
            part == s@.take(end as int),
            (s@[0] == '-' || s@[0] == '+') <==> start == 1,
            neg <==> s@[0] == '-',
            digits == (if part[0] == '-' || part[0] == '+' {
                part.drop_first()
            } else {
                part
            }),
            digits == s@.subrange(start as int, end as int),
            all_digits(s@.subrange(start as int, i as int)),
            acc == digits_val(s@.subrange(start as int, i as int)),
        decreases end - i,
    {
        let b = s.get_ascii(i);
        let ghost seen = s@.subrange(start as int, i as int);
        proof {
            assert(s@.subrange(start as int, i as int + 1) =~= seen.push(s@[i as int]));
            lemma_digits_val_push(seen, s@[i as int]);
        }
        if b < 48 || b > 57 {
            // a non-digit inside the digit run
            proof {
                assert(!is_digit_char(digits[i - start]));
            }
            return None;
        }
        proof {
            assert(is_digit_char(s@[i as int]) && digit_val(s@[i as int]) == b - 48);
        }
        let acc10 = match acc.checked_mul(10) {
            Some(x) => x,
            None => {
                proof {
                    lemma_secs_overflow(s@, start as int, end as int, i as int);
                }
                return None;
            },
        };
        let next = match acc10.checked_add((b - 48) as u64) {
            Some(x) => x,
            None => {
                proof {
                    lemma_secs_overflow(s@, start as int, end as int, i as int);
                }
                return None;
            },
        };
        acc = next;
        i += 1;
    }
    proof {
        lemma_digits_val_nonneg(digits);
    }
    if neg {
        if acc > 9_223_372_036_854_775_808u64 {
            return None;
        }
        if acc == 9_223_372_036_854_775_808u64 {
            Some(i64::MIN)
        } else {
            Some(-(acc as i64))
        }
    } else {
        if acc > 9_223_372_036_854_775_807u64 {
            return None;
        }
        Some(acc as i64)
    }
}

/// When the digits read so far already denote more than `u64::MAX`, the
/// whole digit run is out of the signed 64-bit range, whatever follows.
proof fn lemma_secs_overflow(s: Seq<char>, start: int, end: int, i: int)
    requires
        0 <= start <= i < end <= s.len(),
        all_digits(s.subrange(start, i)),
        is_digit_char(s[i]),
        digits_val(s.subrange(start, i + 1)) > u64::MAX,
    ensures
        all_digits(s.subrange(start, end)) ==> digits_val(s.subrange(start, end)) > u64::MAX,
{
    let digits = s.subrange(start, end);
    if all_digits(digits) {
        let step = s.subrange(start, i + 1);
        assert(step =~= digits.take(i + 1 - start));
        lemma_digits_val_prefix(digits, i + 1 - start);
        let seen = s.subrange(start, i);
        assert(seen =~= step.drop_last());
        lemma_digits_val_push(seen, s[i]);
        lemma_digits_val_nonneg(seen);
    }
}

/// The exact power of ten for a small exponent.
fn pow10_u32(e: u32) -> (r: u32)
    requires
        e <= 9,
    ensures
        r == pow10(e as nat),
{
    proof {
        reveal_with_fuel(pow10, 11);
    }
    match e {
        0 => 1,
        1 => 10,
        2 => 100,
        3 => 1_000,
        4 => 10_000,
        5 => 100_000,
        6 => 1_000_000,
        7 => 10_000_000,
        8 => 100_000_000,
        _ => 1_000_000_000,
    }
}

/// Read the fractional part `s[start..]` as a nanosecond count.
fn parse_frac_part(s: &str, start: usize) -> (r: Option<u32>)
    requires
        s.is_ascii(),
        start <= s@.len(),
    ensures
        r is Some <==> spec_parse_frac(s@.skip(start as int)) is Some,
        r matches Some(v) ==> Some(v as int) == spec_parse_frac(s@.skip(start as int)),
        r matches Some(v) ==> v < NANOS_PER_SEC,
{
    let ghost frac = s@.skip(start as int);
    let n = s.unicode_len();
    let flen = n - start;
    if flen == 0 {
        return Some(0);
    }
    let digits_end: usize = if flen <= 9 {
        n
    } else {
        start + 9
    };
    let mut i: usize = start;
    let mut acc: u32 = 0;
    while i < digits_end
        invariant
            s.is_ascii(),
            start <= i <= digits_end <= n == s@.len(),
            digits_end - start <= 9,
            frac == s@.skip(start as int),
            all_digits(s@.subrange(start as int, i as int)),
            acc == digits_val(s@.subrange(start as int, i as int)),
        decreases digits_end - i,
    {
        let b = s.get_ascii(i);
        let ghost seen = s@.subrange(start as int, i as int);
        proof {
            assert(s@.subrange(start as int, i as int + 1) =~= seen.push(s@[i as int]));
            lemma_digits_val_push(seen, s@[i as int]);
        }
        if b < 48 || b > 57 {
            proof {
                assert(!is_digit_char(frac[i - start]));
            }
            return None;
        }
        proof {
            assert(is_digit_char(s@[i as int]) && digit_val(s@[i as int]) == b - 48);
            lemma_digits_val_bound(seen);
            lemma_pow10_mono((i - start) as nat, 8);
            lemma_pow10_concrete();
        }
        acc = acc * 10 + (b - 48) as u32;
        i += 1;
    }
    if flen <= 9 {
        proof {
            assert(s@.subrange(start as int, n as int) =~= frac);
            lemma_digits_val_bound(frac);
            lemma_scaled_frac_bound(digits_val(frac), frac.len());
            lemma_pow10_concrete();
        }
        let factor = pow10_u32(9 - flen as u32);
        Some(acc * factor)
    } else {
        let ghost head = s@.subrange(start as int, start as int + 9);
        proof {
            assert(head =~= frac.take(9));
            lemma_digits_val_bound(head);
            lemma_pow10_concrete();
        }
        let mut j: usize = digits_end;
        while j < n
            invariant
                s.is_ascii(),
                digits_end <= j <= n == s@.len(),
                start + 9 == digits_end <= n,
                frac == s@.skip(start as int),
                forall|k: int|
                    digits_end <= k < j ==> is_digit_char(#[trigger] s@[k]),
            decreases n - j,
        {
            let b = s.get_ascii(j);
            if b < 48 || b > 57 {
                proof {
                    assert(!is_digit_char(frac[j - start]));
                }
                return None;
            }
            j += 1;
        }
        proof {
            assert forall|k: int| 0 <= k < frac.len() implies is_digit_char(
                #[trigger] frac[k],
            ) by {
                if k < 9 {
                    assert(frac[k] == head[k]);
                } else {
                    assert(frac[k] == s@[start + k]);
                }
            }
        }
        Some(acc)
    }
}

impl UtcTime {
    /// Parse a `[sign]digits[.digits]` string. The result is `Ok` exactly
    /// for the inputs the grammar accepts, and carries the denoted instant.
    pub fn parse(s: &str) -> (r: Result<Self, ConversionError>)
        ensures
            r is Ok <==> spec_parse(s@) is Some,
            r matches Ok(t) ==> Some(t@) == spec_parse(s@),
    {
        if !s.is_ascii() {
            return Err(ConversionError);
        }
        let n = s.unicode_len();
        if n == 0 {
            return Err(ConversionError);
        }
        if n == 1 && s.get_ascii(0) == 46 {
            return Err(ConversionError);
        }
        let mut dot: usize = 0;
        while dot < n && s.get_ascii(dot) != 46
            invariant
                s.is_ascii(),
                dot <= n == s@.len(),
                forall|j: int| 0 <= j < dot ==> s@[j] != '.',
            decreases n - dot,
        {
            dot += 1;
        }
        proof {
            lemma_dot_pos_at(s@, dot as int);
        }
        let secs = match parse_secs_part(s, dot) {
            Some(v) => v,
            None => {
                return Err(ConversionError);
            },
        };
        let nanos: u32 = if dot == n {
            0
        } else {
            match parse_frac_part(s, dot + 1) {
                Some(v) => v,
                None => {
                    return Err(ConversionError);
                },
            }
        };
        Ok(Self::new_unchecked(secs, nanos))
    }
}

impl core::str::FromStr for UtcTime {
    type Err = ConversionError;

    /// Parsing through `str::parse`; the same as [`UtcTime::parse`].
    fn from_str(s: &str) -> (r: Result<UtcTime, ConversionError>)
        ensures
            r is Ok <==> spec_parse(s@) is Some,
            r matches Ok(t) ==> Some(t@) == spec_parse(s@),
    {
        UtcTime::parse(s)
    }
}

} // verus!
