//! How a stored value is written out: raw bytes and a line break, or, on an
//! interactive terminal, a placeholder for bytes that are not text.

use vstd::prelude::*;
use vstd::string::StringSliceAdditionalSpecFns;
use vstd::utf8::valid_utf8;

verus! {

/// The decimal digits of `n`, most significant first.
pub open spec fn decimal(n: nat) -> Seq<u8>
    decreases n,
{
    if n < 10 {
        seq![(n + 48) as u8]
    } else {
        decimal(n / 10).push(((n % 10) + 48) as u8)
    }
}

/// The bytes of `binary data (<n> bytes)` and a line break.
pub open spec fn placeholder(n: nat) -> Seq<u8> {
    seq![98u8, 105, 110, 97, 114, 121, 32, 100, 97, 116, 97, 32, 40] + decimal(n) + seq![
        32u8,
        98,
        121,
        116,
        101,
        115,
        41,
        10,
    ]
}

/// What is written for `value`: on a terminal, a value that is not valid
/// UTF-8 becomes a placeholder giving its length; otherwise the value itself
/// and a line break.
pub open spec fn rendered(value: Seq<u8>, output_is_terminal: bool) -> Seq<u8> {
    if output_is_terminal && !valid_utf8(value) {
        placeholder(value.len())
    } else {
        value.push(10u8)
    }
}

/// What is written for one row of a listing: its key, the delimiter, and
/// the rendered value.
pub open spec fn rendered_row(
    key: Seq<u8>,
    delimiter: Seq<u8>,
    value: Seq<u8>,
    output_is_terminal: bool,
) -> Seq<u8> {
    key + delimiter + rendered(value, output_is_terminal)
}

/// Relies on std::str::from_utf8: it succeeds exactly on valid UTF-8.
#[verifier::external_body]
fn is_utf8(bytes: &[u8]) -> (r: bool)
    ensures
        r == valid_utf8(bytes@),
{
    std::str::from_utf8(bytes).is_ok()
}

/// Appends the bytes of `b` to `out`.
fn append(out: &mut Vec<u8>, b: &[u8])
    ensures
        final(out)@ == old(out)@ + b@,
{
    let ghost start = out@;
    let mut i: usize = 0;
    while i < b.len()
        invariant
            i <= b@.len(),
            out@ == start + b@.subrange(0, i as int),
        decreases b@.len() - i,
    {
        out.push(b[i]);
        assert(b@.subrange(0, i + 1) =~= b@.subrange(0, i as int).push(b@[i as int]));
        i = i + 1;
    }
    assert(b@.subrange(0, i as int) =~= b@);
}

/// The decimal digits of `n`, most significant first.
pub fn decimal_digits(n: usize) -> (r: Vec<u8>)
    ensures
        r@ == decimal(n as nat),
    decreases n,
{
    if n < 10 {
        let mut r: Vec<u8> = Vec::new();
        r.push((n + 48) as u8);
        assert(r@ =~= decimal(n as nat));
        r
    } else {
        let mut r = decimal_digits(n / 10);
        r.push((n % 10 + 48) as u8);
        r
    }
}

/// The placeholder written instead of `n` bytes that are not text.
pub fn binary_placeholder(n: usize) -> (r: Vec<u8>)
    ensures
        r@ == placeholder(n as nat),
{
    let mut r: Vec<u8> = Vec::new();
    let head: [u8; 13] = [98, 105, 110, 97, 114, 121, 32, 100, 97, 116, 97, 32, 40];
    let tail: [u8; 8] = [32, 98, 121, 116, 101, 115, 41, 10];
    append(&mut r, &head);
    let digits = decimal_digits(n);
    append(&mut r, digits.as_slice());
    append(&mut r, &tail);
    assert(head@ =~= seq![98u8, 105, 110, 97, 114, 121, 32, 100, 97, 116, 97, 32, 40]);
    assert(tail@ =~= seq![32u8, 98, 121, 116, 101, 115, 41, 10]);
    assert(r@ =~= placeholder(n as nat));
    r
}

/// The bytes to write for `value`.
pub fn render_value(value: &[u8], output_is_terminal: bool) -> (r: Vec<u8>)
    ensures
        r@ == rendered(value@, output_is_terminal),
{
    if output_is_terminal && !is_utf8(value) {
        binary_placeholder(value.len())
    } else {
        let mut r: Vec<u8> = Vec::new();
        append(&mut r, value);
        r.push(10u8);
        r
    }
}

/// The bytes to write for one row of a listing.
pub fn render_row(key: &str, delimiter: &str, value: &[u8], output_is_terminal: bool) -> (r: Vec<
    u8,
>)
    ensures
        r@ == rendered_row(key.spec_bytes(), delimiter.spec_bytes(), value@, output_is_terminal),
{
    let mut r: Vec<u8> = Vec::new();
    append(&mut r, key.as_bytes());
    append(&mut r, delimiter.as_bytes());
    let v = render_value(value, output_is_terminal);
    append(&mut r, v.as_slice());
    assert(r@ =~= rendered_row(key.spec_bytes(), delimiter.spec_bytes(), value@, output_is_terminal));
    r
}

} // verus!
