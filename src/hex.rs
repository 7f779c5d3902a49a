//! Lower-case hexadecimal dumps of byte sequences.

use vstd::prelude::*;

verus! {

/// The lower-case hex digit of a value below 16.
pub open spec fn hex_digit(n: u8) -> char
    recommends
        n < 16,
{
    if n < 10 {
        (48 + n) as u8 as char
    } else {
        (87 + n) as u8 as char
    }
}

/// The two digits of a byte.
pub open spec fn hex_pair(b: u8) -> Seq<char> {
    seq![hex_digit(b >> 4u8), hex_digit(b & 0x0f)]
}

/// The bytes written as two-digit lower-case hex pairs joined by `-`.
pub open spec fn hex_dump_of(s: Seq<u8>) -> Seq<char>
    decreases s.len(),
{
    if s.len() == 0 {
        Seq::empty()
    } else if s.len() == 1 {
        hex_pair(s[0])
    } else {
        hex_dump_of(s.drop_last()) + seq!['-'] + hex_pair(s.last())
    }
}

/// Relies on `String::push`: appends one character.
#[verifier::external_body]
fn push_char(s: &mut String, c: char)
    ensures
        final(s)@ == old(s)@.push(c),
{
    s.push(c);
}

fn digit(n: u8) -> (r: char)
    requires
        n < 16,
    ensures
        r == hex_digit(n),
{
    if n < 10 {
        (48 + n) as char
    } else {
        (87 + n) as char
    }
}

/// The bytes as two-digit lower-case hex pairs joined by `-`
/// (`[0x0a, 0xff]` gives `0a-ff`).
pub fn hex_dump(data: &[u8]) -> (r: String)
    ensures
        r@ == hex_dump_of(data@),
{
    let mut s = String::new();
    let mut i: usize = 0;
    while i < data.len()
        invariant
            i <= data@.len(),
            s@ == hex_dump_of(data@.subrange(0, i as int)),
        decreases data@.len() - i,
    {
        let b = data[i];
        if i > 0 {
            push_char(&mut s, '-');
        }
        assert(b >> 4u8 < 16 && b & 0x0f < 16) by (bit_vector);
        push_char(&mut s, digit(b >> 4u8));
        push_char(&mut s, digit(b & 0x0f));
        let ghost prefix = data@.subrange(0, i + 1);
        assert(prefix.drop_last() =~= data@.subrange(0, i as int));
        assert(prefix.last() == b);
        assert(s@ =~= hex_dump_of(prefix));
        i = i + 1;
    }
    assert(data@.subrange(0, data@.len() as int) =~= data@);
    s
}

} // verus!
