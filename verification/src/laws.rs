//! Library-wide laws, stated once over the mathematical views.

use vstd::prelude::*;

use vstd::utf8::is_ascii_chars;

use crate::digits::bytes_as_chars;
use crate::digits::dec_bytes;
use crate::digits::dec_bytes_padded;
use crate::digits::lemma_bytes_as_chars_concat;
use crate::digits::lemma_dec_bytes_padded_val;
use crate::digits::lemma_dec_bytes_val;
use crate::digits::lemma_pow10_concrete;
use crate::format::lemma_format_bytes_ascii;
use crate::format::spec_format;
use crate::format::spec_format_bytes;
use crate::parse::lemma_dot_pos_at;
use crate::parse::spec_parse;
use crate::parse::spec_parse_frac;
use crate::parse::spec_parse_secs;
use crate::spec_from_parts;
use crate::TimeView;
use crate::UtcTime;

verus! {

/// Encoding then decoding is the identity: decoding the
/// `(seconds, nanoseconds)` pair of any valid timestamp accepts the pair
/// and yields an equal value.
pub proof fn lemma_parts_round_trip(t: UtcTime)
    requires
        t.valid(),
    ensures
        spec_from_parts(t@.secs, t@.nanos) == Some(t@),
{
}

/// Formatting is lossless: parsing the rendered form of any valid
/// timestamp succeeds and yields an equal value.
pub proof fn lemma_format_parse_round_trip(t: UtcTime)
    requires
        t.valid(),
    ensures
        spec_parse(spec_format(t@)) == Some(t@),
{
    let m = t@;
    let mag: nat = if m.secs < 0 {
        (-m.secs) as nat
    } else {
        m.secs as nat
    };
    let intbytes = if m.secs < 0 {
        seq![45u8] + dec_bytes(mag)
    } else {
        dec_bytes(mag)
    };
    let padbytes = dec_bytes_padded(m.nanos as nat, 9);
    let bytes = spec_format_bytes(m);
    let chars = spec_format(m);
    let digitchars = bytes_as_chars(dec_bytes(mag));
    let intchars = bytes_as_chars(intbytes);
    let padchars = bytes_as_chars(padbytes);

    lemma_dec_bytes_val(mag);
    lemma_pow10_concrete();
    lemma_dec_bytes_padded_val(m.nanos as nat, 9);
    lemma_format_bytes_ascii(m);

    // the rendered characters split as integer part, dot, fraction
    assert(bytes =~= intbytes + seq![46u8] + padbytes);
    lemma_bytes_as_chars_concat(intbytes + seq![46u8], padbytes);
    lemma_bytes_as_chars_concat(intbytes, seq![46u8]);
    assert(bytes_as_chars(seq![46u8]) =~= seq!['.']);
    if m.secs < 0 {
        lemma_bytes_as_chars_concat(seq![45u8], dec_bytes(mag));
        assert(bytes_as_chars(seq![45u8]) =~= seq!['-']);
        assert(intchars =~= seq!['-'] + digitchars);
    } else {
        assert(intchars =~= digitchars);
    }
    assert(chars =~= intchars + seq!['.'] + padchars);
    let intlen = intchars.len() as int;

    // every rendered character is ASCII
    assert forall|i: int| 0 <= i < chars.len() implies '\0' <= #[trigger] chars[i]
        <= '\u{7f}' by {
        assert(chars[i] == bytes[i] as char);
        assert(bytes[i] < 128);
    }
    assert(is_ascii_chars(chars));

    // the first dot is the one the formatter wrote
    assert forall|j: int| 0 <= j < intlen implies #[trigger] chars[j] != '.' by {
        assert(chars[j] == intchars[j]);
        if m.secs < 0 && j > 0 {
            assert(intchars[j] == digitchars[j - 1]);
        }
    }
    assert(chars[intlen] == '.');
    lemma_dot_pos_at(chars, intlen);

    // the integer part reads back as the second count
    let secs_part = chars.take(intlen);
    assert(secs_part =~= intchars);
    if m.secs < 0 {
        assert(intchars[0] == '-');
        assert(intchars.drop_first() =~= digitchars);
        assert(spec_parse_secs(intchars) == Some(m.secs));
    } else {
        assert(intchars[0] == digitchars[0]);
        assert(intchars[0] != '-' && intchars[0] != '+');
        assert(spec_parse_secs(intchars) == Some(m.secs));
    }

    // the fraction reads back as the nanosecond count
    assert(chars.skip(intlen + 1) =~= padchars);
    assert(padchars.len() == 9);
    assert(spec_parse_frac(padchars) == Some(m.nanos));

    assert(spec_parse(chars) == Some(m));
}

} // verus!
