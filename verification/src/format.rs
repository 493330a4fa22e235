//! Rendering a timestamp as `seconds.fffffffff`, with the signed second
//! count in decimal and exactly nine zero-padded fractional digits.

use vstd::prelude::*;

use crate::digits::bytes_as_chars;
use crate::digits::dec_bytes;
use crate::digits::dec_bytes_padded;
use crate::digits::lemma_dec_bytes_ascii;
use crate::digits::lemma_dec_bytes_padded_ascii;
use crate::TimeView;
use crate::UtcTime;

verus! {

/// The rendered form of a timestamp, as bytes: the whole-second count in
/// decimal, `-` first when negative, then `.`, then the nanosecond count
/// zero-padded to nine digits.
pub open spec fn spec_format_bytes(m: TimeView) -> Seq<u8> {
    (if m.secs < 0 {
        seq![45u8] + dec_bytes((-m.secs) as nat)
    } else {
        dec_bytes(m.secs as nat)
    }) + seq![46u8] + dec_bytes_padded(m.nanos as nat, 9)
}

/// The rendered form of a timestamp, as characters. Every byte of the form
/// is ASCII, so each becomes the character of the same code point.
pub open spec fn spec_format(m: TimeView) -> Seq<char> {
    bytes_as_chars(spec_format_bytes(m))
}

/// Every byte of the rendered form is ASCII: a digit, the dot, or the
/// minus sign.
pub(crate) proof fn lemma_format_bytes_ascii(m: TimeView)
    ensures
        forall|i: int|
            0 <= i < spec_format_bytes(m).len() ==> #[trigger] spec_format_bytes(m)[i] < 128,
{
    let intpart = if m.secs < 0 {
        seq![45u8] + dec_bytes((-m.secs) as nat)
    } else {
        dec_bytes(m.secs as nat)
    };
    if m.secs < 0 {
        lemma_dec_bytes_ascii((-m.secs) as nat);
    } else {
        lemma_dec_bytes_ascii(m.secs as nat);
    }
    lemma_dec_bytes_padded_ascii(m.nanos as nat, 9);
    let pad = dec_bytes_padded(m.nanos as nat, 9);
    assert forall|i: int|
        0 <= i < spec_format_bytes(m).len() implies #[trigger] spec_format_bytes(m)[i] < 128 by {
        if i < intpart.len() {
            assert(spec_format_bytes(m)[i] == intpart[i]);
            if m.secs < 0 && i > 0 {
                assert(intpart[i] == dec_bytes((-m.secs) as nat)[i - 1]);
            }
        } else if i == intpart.len() {
            assert(spec_format_bytes(m)[i] == 46u8);
        } else {
            assert(spec_format_bytes(m)[i] == pad[i - intpart.len() - 1]);
        }
    }
}

/// Relies on String::from_utf8: bytes below 0x80 are ASCII, and decode to
/// the characters of the same code points, one per byte.
#[verifier::external_body]
fn ascii_to_string(v: Vec<u8>) -> (r: String)
    requires
        forall|i: int| 0 <= i < v@.len() ==> v@[i] < 128,
    ensures
        r@.len() == v@.len(),
        forall|i: int| 0 <= i < v@.len() ==> r@[i] == (#[trigger] v@[i]) as char,
{
    match String::from_utf8(v) {
        Ok(s) => s,
        Err(_) => String::new(),
    }
}

/// Append the decimal digits of `n`, most significant first.
fn push_dec_u64(out: &mut Vec<u8>, n: u64)
    ensures
        final(out)@ == old(out)@ + dec_bytes(n as nat),
    decreases n,
{
    if n >= 10 {
        push_dec_u64(out, n / 10);
    }
    out.push(48 + (n % 10) as u8);
    proof {
        assert(final(out)@ =~= old(out)@ + dec_bytes(n as nat));
    }
}

/// Append the `w` least significant decimal digits of `n`, zero-padded.
fn push_dec_padded(out: &mut Vec<u8>, n: u32, w: u32)
    ensures
        final(out)@ == old(out)@ + dec_bytes_padded(n as nat, w as nat),
    decreases w,
{
    if w > 0 {
        push_dec_padded(out, n / 10, w - 1);
        out.push(48 + (n % 10) as u8);
    }
    proof {
        assert(final(out)@ =~= old(out)@ + dec_bytes_padded(n as nat, w as nat));
    }
}

impl UtcTime {
    /// Render as `"{seconds}.{nanos:09}"`; the nanosecond field is always
    /// nine digits, whatever the sign of the seconds.
    pub fn to_display_string(&self) -> (r: String)
        ensures
            r@ == spec_format(self@),
    {
        let secs: i64 = self.as_secs();
        let nanos: u32 = self.subsec_nanos();
        let mut out: Vec<u8> = Vec::new();
        if secs < 0 {
            out.push(45);
            let mag: u64 = (-(secs as i128)) as u64;
            push_dec_u64(&mut out, mag);
        } else {
            push_dec_u64(&mut out, secs as u64);
        }
        out.push(46);
        push_dec_padded(&mut out, nanos, 9);
        proof {
            assert(out@ =~= spec_format_bytes(self@));
            lemma_format_bytes_ascii(self@);
        }
        let r = ascii_to_string(out);
        proof {
            assert(r@ =~= spec_format(self@));
        }
        r
    }
}

} // verus!
