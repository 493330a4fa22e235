//! Decimal digits: the spec-level reading and writing of numbers in base
//! ten, shared by the parser and the formatter.

use vstd::prelude::*;

verus! {

/// `c` is an ASCII decimal digit.
pub open spec fn is_digit_char(c: char) -> bool {
    '0' <= c && c <= '9'
}

/// The numeric value of one digit character.
pub open spec fn digit_val(c: char) -> int {
    c as int - '0' as int
}

/// Every character of `s` is an ASCII decimal digit.
pub open spec fn all_digits(s: Seq<char>) -> bool {
    forall|i: int| 0 <= i < s.len() ==> is_digit_char(#[trigger] s[i])
}

/// The number a digit string denotes, most significant digit first.
pub open spec fn digits_val(s: Seq<char>) -> int
    decreases s.len(),
{
    if s.len() == 0 {
        0
    } else {
        digits_val(s.drop_last()) * 10 + digit_val(s.last())
    }
}

/// The `n`-th power of ten.
pub open spec fn pow10(n: nat) -> int
    decreases n,
{
    if n == 0 {
        1
    } else {
        10 * pow10((n - 1) as nat)
    }
}

/// The decimal digit bytes of `n`, most significant first; a single `b'0'`
/// for zero.
pub open spec fn dec_bytes(n: nat) -> Seq<u8>
    decreases n,
{
    if n < 10 {
        seq![(48 + n) as u8]
    } else {
        dec_bytes(n / 10) + seq![(48 + n % 10) as u8]
    }
}

/// The decimal digit bytes of `n` zero-padded on the left to width `w`,
/// keeping only the `w` least significant digits.
pub open spec fn dec_bytes_padded(n: nat, w: nat) -> Seq<u8>
    decreases w,
{
    if w == 0 {
        Seq::empty()
    } else {
        dec_bytes_padded(n / 10, (w - 1) as nat) + seq![(48 + n % 10) as u8]
    }
}

/// A digit string denotes a non-negative number.
pub proof fn lemma_digits_val_nonneg(s: Seq<char>)
    requires
        all_digits(s),
    ensures
        digits_val(s) >= 0,
    decreases s.len(),
{
    if s.len() > 0 {
        assert(all_digits(s.drop_last()));
        lemma_digits_val_nonneg(s.drop_last());
    }
}

/// A digit string of length `L` denotes a number below `10^L`.
pub proof fn lemma_digits_val_bound(s: Seq<char>)
    requires
        all_digits(s),
    ensures
        0 <= digits_val(s) < pow10(s.len()),
    decreases s.len(),
{
    if s.len() > 0 {
        assert(all_digits(s.drop_last()));
        lemma_digits_val_bound(s.drop_last());
    }
}

/// Dropping trailing digits never increases the denoted number.
pub proof fn lemma_digits_val_prefix(s: Seq<char>, i: int)
    requires
        all_digits(s),
        0 <= i <= s.len(),
    ensures
        0 <= digits_val(s.take(i)) <= digits_val(s),
    decreases s.len(),
{
    assert(all_digits(s.take(i)));
    lemma_digits_val_nonneg(s.take(i));
    if i < s.len() {
        let head = s.drop_last();
        assert(all_digits(head));
        assert(head.take(i) =~= s.take(i));
        lemma_digits_val_prefix(head, i);
        lemma_digits_val_nonneg(head);
    } else {
        assert(s.take(i) =~= s);
    }
}

/// Reading one more digit multiplies the prefix value by ten and adds the
/// digit.
pub proof fn lemma_digits_val_push(s: Seq<char>, c: char)
    ensures
        digits_val(s.push(c)) == digits_val(s) * 10 + digit_val(c),
{
    assert(s.push(c).drop_last() =~= s);
}

/// Powers of ten multiply by adding exponents.
pub proof fn lemma_pow10_adds(a: nat, b: nat)
    ensures
        pow10(a) * pow10(b) == pow10(a + b),
    decreases a,
{
    if a == 0 {
    } else {
        lemma_pow10_adds((a - 1) as nat, b);
        assert(pow10(a) * pow10(b) == 10 * (pow10((a - 1) as nat) * pow10(b)))
            by (nonlinear_arith)
            requires
                pow10(a) == 10 * pow10((a - 1) as nat),
        ;
    }
}

/// Powers of ten are positive.
pub proof fn lemma_pow10_pos(n: nat)
    ensures
        pow10(n) >= 1,
    decreases n,
{
    if n > 0 {
        lemma_pow10_pos((n - 1) as nat);
    }
}

/// Powers of ten grow with the exponent.
pub proof fn lemma_pow10_mono(a: nat, b: nat)
    requires
        a <= b,
    ensures
        pow10(a) <= pow10(b),
    decreases b,
{
    if a < b {
        lemma_pow10_mono(a, (b - 1) as nat);
        lemma_pow10_pos((b - 1) as nat);
    }
}

/// The powers of ten around the nanosecond field, written out.
pub proof fn lemma_pow10_concrete()
    ensures
        pow10(8) == 100_000_000,
        pow10(9) == 1_000_000_000,
{
    reveal_with_fuel(pow10, 11);
}

/// Scaling a short digit string up to nine digits stays below one billion:
/// a value below `10^L`, scaled by `10^(9-L)`, lies below `10^9`.
pub proof fn lemma_scaled_frac_bound(v: int, l: nat)
    requires
        l <= 9,
        0 <= v < pow10(l),
    ensures
        0 <= v * pow10((9 - l) as nat) < pow10(9),
{
    let f = pow10((9 - l) as nat);
    lemma_pow10_pos((9 - l) as nat);
    lemma_pow10_adds(l, (9 - l) as nat);
    assert(0 <= v * f && v * f < pow10(l) * f) by (nonlinear_arith)
        requires
            0 <= v < pow10(l),
            f >= 1,
    ;
}

/// The characters of the same code points as a byte string.
pub open spec fn bytes_as_chars(s: Seq<u8>) -> Seq<char> {
    Seq::new(s.len(), |i: int| s[i] as char)
}

/// Reading code points distributes over concatenation.
pub proof fn lemma_bytes_as_chars_concat(a: Seq<u8>, b: Seq<u8>)
    ensures
        bytes_as_chars(a + b) == bytes_as_chars(a) + bytes_as_chars(b),
{
    assert(bytes_as_chars(a + b) =~= bytes_as_chars(a) + bytes_as_chars(b));
}

/// The digit string written for `n` reads back as `n`: it is never empty,
/// holds only digits, and denotes `n` itself.
pub proof fn lemma_dec_bytes_val(n: nat)
    ensures
        dec_bytes(n).len() >= 1,
        all_digits(bytes_as_chars(dec_bytes(n))),
        digits_val(bytes_as_chars(dec_bytes(n))) == n,
    decreases n,
{
    let chars = bytes_as_chars(dec_bytes(n));
    if n < 10 {
        let single = seq![(48 + n) as u8 as char];
        assert(chars =~= single);
        assert(single.drop_last() =~= Seq::<char>::empty());
        assert(digits_val(Seq::<char>::empty()) == 0);
        assert(digits_val(single) == digit_val(single.last()));
        assert(is_digit_char(chars[0]));
    } else {
        lemma_dec_bytes_val(n / 10);
        let pre = bytes_as_chars(dec_bytes(n / 10));
        let last = (48 + n % 10) as u8 as char;
        lemma_bytes_as_chars_concat(dec_bytes(n / 10), seq![(48 + n % 10) as u8]);
        assert(bytes_as_chars(seq![(48 + n % 10) as u8]) =~= seq![last]);
        assert(chars =~= pre.push(last));
        lemma_digits_val_push(pre, last);
        assert(forall|i: int| 0 <= i < chars.len() - 1 ==> chars[i] == pre[i]);
        assert(all_digits(chars));
    }
}

/// The `w`-digit padded string written for `n < 10^w` reads back as `n`:
/// it is exactly `w` digits and denotes `n` itself.
pub proof fn lemma_dec_bytes_padded_val(n: nat, w: nat)
    requires
        n < pow10(w),
    ensures
        dec_bytes_padded(n, w).len() == w,
        all_digits(bytes_as_chars(dec_bytes_padded(n, w))),
        digits_val(bytes_as_chars(dec_bytes_padded(n, w))) == n,
    decreases w,
{
    let chars = bytes_as_chars(dec_bytes_padded(n, w));
    if w == 0 {
        assert(chars =~= Seq::<char>::empty());
    } else {
        assert(n / 10 < pow10((w - 1) as nat));
        lemma_dec_bytes_padded_val(n / 10, (w - 1) as nat);
        let pre = bytes_as_chars(dec_bytes_padded(n / 10, (w - 1) as nat));
        let last = (48 + n % 10) as u8 as char;
        lemma_bytes_as_chars_concat(
            dec_bytes_padded(n / 10, (w - 1) as nat),
            seq![(48 + n % 10) as u8],
        );
        assert(bytes_as_chars(seq![(48 + n % 10) as u8]) =~= seq![last]);
        assert(chars =~= pre.push(last));
        lemma_digits_val_push(pre, last);
        assert(forall|i: int| 0 <= i < chars.len() - 1 ==> chars[i] == pre[i]);
        assert(all_digits(chars));
    }
}

/// The bytes written for any number are ASCII digits.
pub proof fn lemma_dec_bytes_ascii(n: nat)
    ensures
        forall|i: int|
            0 <= i < dec_bytes(n).len() ==> 48 <= #[trigger] dec_bytes(n)[i] <= 57,
    decreases n,
{
    if n < 10 {
        assert forall|i: int| 0 <= i < dec_bytes(n).len() implies 48 <= #[trigger] dec_bytes(
            n,
        )[i] <= 57 by {
            assert(dec_bytes(n)[i] == (48 + n) as u8);
        }
    } else {
        lemma_dec_bytes_ascii(n / 10);
        let pre = dec_bytes(n / 10);
        assert forall|i: int| 0 <= i < dec_bytes(n).len() implies 48 <= #[trigger] dec_bytes(
            n,
        )[i] <= 57 by {
            if i < pre.len() {
                assert(dec_bytes(n)[i] == pre[i]);
            } else {
                assert(dec_bytes(n)[i] == (48 + n % 10) as u8);
            }
        }
    }
}

/// The padded bytes written for any number are ASCII digits.
pub proof fn lemma_dec_bytes_padded_ascii(n: nat, w: nat)
    ensures
        forall|i: int|
            0 <= i < dec_bytes_padded(n, w).len() ==> 48 <= #[trigger] dec_bytes_padded(
                n,
                w,
            )[i] <= 57,
    decreases w,
{
    if w > 0 {
        lemma_dec_bytes_padded_ascii(n / 10, (w - 1) as nat);
        let pre = dec_bytes_padded(n / 10, (w - 1) as nat);
        assert forall|i: int|
            0 <= i < dec_bytes_padded(n, w).len() implies 48 <= #[trigger] dec_bytes_padded(
            n,
            w,
        )[i] <= 57 by {
            if i < pre.len() {
                assert(dec_bytes_padded(n, w)[i] == pre[i]);
            } else {
                assert(dec_bytes_padded(n, w)[i] == (48 + n % 10) as u8);
            }
        }
    }
}

} // verus!
