use vstd::prelude::*;
use vstd::utf8::*;

use crate::errors::DecodeError;

verus! {

/// The characters of an ASCII byte string, byte for byte.
pub open spec fn ascii_chars(s: Seq<u8>) -> Seq<char> {
    s.map_values(|b: u8| b as char)
}

/// Relies on `str`'s `PartialEq`: two string slices are equal exactly
/// when their character sequences are.
#[verifier::external_body]
pub fn str_eq(a: &str, b: &str) -> (r: bool)
    ensures
        r == (a@ == b@),
{
    a == b
}

/// Relies on `String::from_utf8`: returns the decoded text exactly when
/// the bytes are valid UTF-8, and an `InvalidUtf8` error otherwise.
#[verifier::external_body]
pub fn bytes_to_utf8(bytes: Vec<u8>) -> (r: Result<String, DecodeError>)
    ensures
        r is Ok <==> valid_utf8(bytes@),
        r matches Ok(s) ==> s@ == decode_utf8(bytes@),
        r matches Err(e) ==> e == DecodeError::InvalidUtf8,
{
    match String::from_utf8(bytes) {
        Ok(s) => Ok(s),
        Err(_) => Err(DecodeError::InvalidUtf8),
    }
}

/// Bytes below 128 are valid UTF-8 and decode to themselves.
pub proof fn lemma_ascii_bytes_decode(bytes: Seq<u8>)
    requires
        forall|i: int| 0 <= i < bytes.len() ==> bytes[i] < 128,
    ensures
        valid_utf8(bytes),
        decode_utf8(bytes) == ascii_chars(bytes),
{
    let chars = ascii_chars(bytes);
    assert(is_ascii_chars(chars));
    is_ascii_chars_encode_utf8(chars);
    assert(forall|i: int| 0 <= i < chars.len() ==> chars[i] as u8 == bytes[i]);
    assert(encode_utf8(chars) =~= bytes);
    encode_utf8_valid_utf8(chars);
    encode_utf8_decode_utf8(chars);
}

/// Turn a byte string known to be ASCII into its text.
pub fn ascii_bytes_to_string(bytes: Vec<u8>) -> (s: String)
    requires
        forall|i: int| 0 <= i < bytes@.len() ==> bytes@[i] < 128,
    ensures
        s@ == ascii_chars(bytes@),
{
    proof {
        lemma_ascii_bytes_decode(bytes@);
    }
    match bytes_to_utf8(bytes) {
        Ok(s) => s,
        Err(_) => {
            proof {
                assert(false);
            }
            String::new()
        },
    }
}

/// The lowercase hex digit of a value below 16, as an ASCII byte.
pub open spec fn hex_ascii(n: u8) -> u8 {
    if n < 10 {
        (48 + n) as u8
    } else {
        (87 + n) as u8
    }
}

/// The lowercase hex rendering of a byte string, two digits per byte.
pub open spec fn hex_bytes(s: Seq<u8>) -> Seq<u8>
    decreases s.len(),
{
    if s.len() == 0 {
        Seq::empty()
    } else {
        hex_bytes(s.drop_last()) + seq![hex_ascii(s.last() / 16), hex_ascii(s.last() % 16)]
    }
}

pub proof fn lemma_hex_bytes_props(s: Seq<u8>)
    ensures
        hex_bytes(s).len() == 2 * s.len(),
        forall|i: int| 0 <= i < hex_bytes(s).len() ==> #[trigger] hex_bytes(s)[i] < 128,
    decreases s.len(),
{
    if s.len() > 0 {
        lemma_hex_bytes_props(s.drop_last());
    }
}

/// The `0x`-prefixed lowercase hex text of a byte string.
pub open spec fn hex_chars(b: Seq<u8>) -> Seq<char> {
    ascii_chars(seq![48u8, 120u8] + hex_bytes(b))
}

/// The hex text of a byte string holds the two prefix characters and
/// two digits per byte: for a 32-byte scalar, 66 characters in all.
pub proof fn lemma_hex_chars_len(b: Seq<u8>)
    ensures
        hex_chars(b).len() == 2 + 2 * b.len(),
{
    lemma_hex_bytes_props(b);
}

/// Render a byte string as `0x`-prefixed lowercase hex, two digits per
/// byte.
pub fn hex_string(b: &Vec<u8>) -> (s: String)
    ensures
        s@ == hex_chars(b@),
        s@.len() == 2 + 2 * b@.len(),
{
    let mut out: Vec<u8> = Vec::new();
    out.push(48);
    out.push(120);
    let mut i: usize = 0;
    while i < b.len()
        invariant
            i <= b@.len(),
            out@ =~= seq![48u8, 120u8] + hex_bytes(b@.take(i as int)),
            forall|k: int| 0 <= k < out@.len() ==> out@[k] < 128,
        decreases b@.len() - i,
    {
        proof {
            assert(b@.take(i as int) =~= b@.take(i + 1).drop_last());
            assert(b@.take(i + 1).last() == b@[i as int]);
        }
        let byte: u8 = b[i];
        let hi: u8 = byte / 16;
        let lo: u8 = byte % 16;
        out.push(if hi < 10 { 48 + hi } else { 87 + hi });
        out.push(if lo < 10 { 48 + lo } else { 87 + lo });
        i = i + 1;
    }
    proof {
        assert(b@.take(b@.len() as int) =~= b@);
        lemma_hex_bytes_props(b@);
    }
    ascii_bytes_to_string(out)
}

/// The decimal digits of `n`, most significant first, as ASCII bytes.
pub open spec fn dec_digits(n: nat) -> Seq<u8>
    decreases n,
{
    if n < 10 {
        seq![(48 + n) as u8]
    } else {
        dec_digits(n / 10).push((48 + n % 10) as u8)
    }
}

pub proof fn lemma_dec_digits_props(n: nat)
    ensures
        dec_digits(n).len() >= 1,
        forall|i: int| 0 <= i < dec_digits(n).len() ==> 48 <= #[trigger] dec_digits(n)[i] < 58,
    decreases n,
{
    if n >= 10 {
        lemma_dec_digits_props(n / 10);
    }
}

/// Strip trailing ASCII zeros.
pub open spec fn trim_zeros(s: Seq<u8>) -> Seq<u8>
    decreases s.len(),
{
    if s.len() > 0 && s.last() == 48 {
        trim_zeros(s.drop_last())
    } else {
        s
    }
}

/// `n` ASCII zeros.
pub open spec fn zero_bytes(n: nat) -> Seq<u8> {
    Seq::new(n, |i: int| 48u8)
}

/// The display text of the decimal number `m / 10^scale`, as ASCII
/// bytes: `0` for zero; otherwise the integer part, and, for a positive
/// scale, a point and the fractional digits with trailing zeros dropped
/// but at least one digit kept.
pub open spec fn decimal_ascii(m: nat, scale: nat) -> Seq<u8> {
    if m == 0 {
        seq![48u8]
    } else {
        let ds = dec_digits(m);
        let padded = if ds.len() >= scale + 1 {
            ds
        } else {
            zero_bytes((scale + 1 - ds.len()) as nat) + ds
        };
        let ip = padded.take(padded.len() - scale);
        if scale == 0 {
            ip
        } else {
            let ft = trim_zeros(padded.skip(padded.len() - scale));
            ip + seq![46u8] + (if ft.len() == 0 {
                seq![48u8]
            } else {
                ft
            })
        }
    }
}

/// The display text of the decimal number `m / 10^scale`.
pub open spec fn decimal_chars(m: nat, scale: nat) -> Seq<char> {
    ascii_chars(decimal_ascii(m, scale))
}

/// A zero magnitude displays as the single character `0`, whatever
/// scale it is rendered at.
pub proof fn lemma_zero_displays_as_zero(scale: nat)
    ensures
        decimal_chars(0, scale) =~= seq!['0'],
{
    assert(decimal_ascii(0, scale) =~= seq![48u8]);
    assert(decimal_chars(0, scale)[0] == 48u8 as char);
}

/// Append the decimal digits of `x`, most significant first.
fn push_digits(x: u128, out: &mut Vec<u8>)
    ensures
        final(out)@ == old(out)@ + dec_digits(x as nat),
        final(out)@.len() > old(out)@.len(),
    decreases x,
{
    if x < 10 {
        out.push((48 + x) as u8);
        proof {
            assert(final(out)@ =~= old(out)@ + dec_digits(x as nat));
        }
    } else {
        let d: u8 = (48 + x % 10) as u8;
        push_digits(x / 10, out);
        out.push(d);
        proof {
            assert(dec_digits(x as nat) == dec_digits((x as nat) / 10).push(
                (48 + (x as nat) % 10) as u8,
            ));
            assert(final(out)@ =~= old(out)@ + dec_digits(x as nat));
        }
    }
}

/// Render `m / 10^scale` as decimal display text.
#[verifier::rlimit(100)]
pub fn render_decimal(m: u128, scale: u32) -> (s: String)
    ensures
        s@ == decimal_chars(m as nat, scale as nat),
{
    if m == 0 {
        let mut out: Vec<u8> = Vec::new();
        out.push(48);
        proof {
            assert(out@ =~= decimal_ascii(0, scale as nat));
        }
        return ascii_bytes_to_string(out);
    }
    let sc: usize = scale as usize;
    let mut ds: Vec<u8> = Vec::new();
    push_digits(m, &mut ds);
    proof {
        assert(ds@ =~= dec_digits(m as nat));
        lemma_dec_digits_props(m as nat);
    }
    let mut padded: Vec<u8> = Vec::new();
    if ds.len() <= sc {
        let need: usize = sc - ds.len() + 1;
        let mut i: usize = 0;
        while i < need
            invariant
                i <= need,
                padded@ =~= zero_bytes(i as nat),
            decreases need - i,
        {
            padded.push(48);
            proof {
                assert(padded@ =~= zero_bytes((i + 1) as nat));
            }
            i = i + 1;
        }
    }
    let ghost zn = padded@.len();
    let mut i: usize = 0;
    while i < ds.len()
        invariant
            i <= ds@.len(),
            padded@ =~= zero_bytes(zn) + ds@.take(i as int),
        decreases ds@.len() - i,
    {
        padded.push(ds[i]);
        i = i + 1;
    }
    proof {
        assert(ds@.take(ds@.len() as int) =~= ds@);
        if ds@.len() >= scale + 1 {
            assert(zn == 0);
            assert(padded@ =~= dec_digits(m as nat));
        } else {
            assert(padded@ =~= zero_bytes((scale + 1 - dec_digits(m as nat).len()) as nat)
                + dec_digits(m as nat));
        }
        assert(forall|k: int|
            0 <= k < padded@.len() ==> 48 <= #[trigger] padded@[k] < 58);
        assert(padded@.len() >= sc + 1);
    }
    let ghost spec_padded = padded@;
    let ip_len: usize = padded.len() - sc;
    let mut out: Vec<u8> = Vec::new();
    let mut i: usize = 0;
    while i < ip_len
        invariant
            i <= ip_len,
            ip_len <= padded@.len(),
            padded@ == spec_padded,
            out@ =~= spec_padded.take(i as int),
        decreases ip_len - i,
    {
        out.push(padded[i]);
        i = i + 1;
    }
    if sc == 0 {
        proof {
            assert(out@ =~= decimal_ascii(m as nat, scale as nat));
            assert(forall|k: int| 0 <= k < out@.len() ==> out@[k] < 128);
        }
        return ascii_bytes_to_string(out);
    }
    out.push(46);
    let mut end: usize = padded.len();
    while end > ip_len && padded[end - 1] == 48
        invariant
            ip_len <= end <= padded@.len(),
            padded@ == spec_padded,
            trim_zeros(spec_padded.skip(ip_len as int)) == trim_zeros(
                spec_padded.subrange(ip_len as int, end as int),
            ),
        decreases end,
    {
        proof {
            assert(spec_padded.subrange(ip_len as int, end as int).drop_last()
                =~= spec_padded.subrange(ip_len as int, end - 1));
        }
        end = end - 1;
    }
    proof {
        assert(spec_padded.skip(ip_len as int) =~= spec_padded.subrange(
            ip_len as int,
            spec_padded.len() as int,
        ));
        let t = spec_padded.subrange(ip_len as int, end as int);
        assert(trim_zeros(spec_padded.skip(ip_len as int)) == t);
    }
    if end == ip_len {
        out.push(48);
    } else {
        let mut i: usize = ip_len;
        while i < end
            invariant
                ip_len <= i <= end <= padded@.len(),
                padded@ == spec_padded,
                out@ =~= spec_padded.take(ip_len as int) + seq![46u8] + spec_padded.subrange(
                    ip_len as int,
                    i as int,
                ),
            decreases end - i,
        {
            out.push(padded[i]);
            i = i + 1;
        }
    }
    proof {
        assert(out@ =~= decimal_ascii(m as nat, scale as nat));
        assert(forall|k: int| 0 <= k < out@.len() ==> out@[k] < 128);
    }
    ascii_bytes_to_string(out)
}

} // verus!
