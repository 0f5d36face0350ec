//! Text encodings used on the wire: lower-case hex for MAC digests and
//! decimal rendering of numeric query parameters.

use vstd::prelude::*;

verus! {

/// Relies on `String::push` (std): appends exactly the one character.
pub assume_specification[ String::push ](s: &mut String, ch: char)
    ensures
        final(s)@ == old(s)@ + seq![ch],
;

pub const HEX_DIGITS: [char; 16] = [
    '0', '1', '2', '3', '4', '5', '6', '7', '8', '9', 'a', 'b', 'c', 'd', 'e', 'f',
];

pub const DEC_DIGITS: [char; 10] = ['0', '1', '2', '3', '4', '5', '6', '7', '8', '9'];

/// The lower-case hex rendering of a byte sequence: two digits per byte,
/// high nibble first.
pub open spec fn hex_of(bytes: Seq<u8>) -> Seq<char>
    decreases bytes.len(),
{
    if bytes.len() == 0 {
        seq![]
    } else {
        seq![
            HEX_DIGITS@[(bytes.first() / 16) as int],
            HEX_DIGITS@[(bytes.first() % 16) as int],
        ] + hex_of(bytes.drop_first())
    }
}

/// Renders a byte sequence as lower-case hex, two digits per byte.
pub fn hex_encode(bytes: &Vec<u8>) -> (r: String)
    ensures
        r@ == hex_of(bytes@),
{
    let mut r = String::new();
    assert(bytes@.skip(0) == bytes@);
    for i in 0..bytes.len()
        invariant
            hex_of(bytes@) =~= r@ + hex_of(bytes@.skip(i as int)),
    {
        let b = bytes[i];
        assert(bytes@.skip(i as int).first() == b);
        assert(bytes@.skip(i as int).drop_first() =~= bytes@.skip(i + 1));
        r.push(HEX_DIGITS[(b / 16) as usize]);
        r.push(HEX_DIGITS[(b % 16) as usize]);
    }
    r
}

/// The decimal rendering of a number, most significant digit first, with
/// no leading zeroes (a single `'0'` for zero).
pub open spec fn dec_of(n: u64) -> Seq<char>
    decreases n,
{
    if n < 10 {
        seq![DEC_DIGITS@[n as int]]
    } else {
        dec_of((n / 10) as u64) + seq![DEC_DIGITS@[(n % 10) as int]]
    }
}

fn push_decimal(s: &mut String, n: u64)
    ensures
        final(s)@ == old(s)@ + dec_of(n),
    decreases n,
{
    if n >= 10 {
        push_decimal(s, n / 10);
    }
    s.push(DEC_DIGITS[(n % 10) as usize]);
    proof {
        if n < 10 {
            assert(n % 10 == n);
        }
        assert(old(s)@ + dec_of(n) =~= s@);
    }
}

/// Renders a number in decimal, as it is written in a query string.
pub fn u64_to_string(n: u64) -> (r: String)
    ensures
        r@ == dec_of(n),
{
    let mut r = String::new();
    push_decimal(&mut r, n);
    r
}

} // verus!
