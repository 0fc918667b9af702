//! Reading big-endian wire fields and raw byte runs out of the input
//! buffer.

use vstd::prelude::*;

verus! {

/// The unsigned big-endian 16-bit value at offset `i`.
pub open spec fn be_u16(s: Seq<u8>, i: int) -> int {
    s[i] * 256 + s[i + 1]
}

/// The unsigned big-endian 32-bit value at offset `i`.
pub open spec fn be_u32(s: Seq<u8>, i: int) -> int {
    s[i] * 0x1000000 + s[i + 1] * 0x10000 + s[i + 2] * 0x100 + s[i + 3]
}

/// The signed big-endian 16-bit value at offset `i`.
pub open spec fn be_i16(s: Seq<u8>, i: int) -> int {
    be_u16(s, i) as u16 as i16 as int
}

/// The signed big-endian 32-bit value at offset `i`.
pub open spec fn be_i32(s: Seq<u8>, i: int) -> int {
    be_u32(s, i) as u32 as i32 as int
}

/// The characters a run of raw name bytes stands for, one character
/// per byte.
pub open spec fn chars_of_bytes(s: Seq<u8>) -> Seq<char> {
    Seq::new(s.len(), |i: int| s[i] as char)
}

/// Read the unsigned big-endian 16-bit field at `pos`.
pub fn read_u16(bytes: &[u8], pos: usize) -> (r: u16)
    requires
        pos + 2 <= bytes@.len(),
    ensures
        r == be_u16(bytes@, pos as int),
{
    (bytes[pos] as u16) * 256 + (bytes[pos + 1] as u16)
}

/// Read the unsigned big-endian 32-bit field at `pos`.
pub fn read_u32(bytes: &[u8], pos: usize) -> (r: u32)
    requires
        pos + 4 <= bytes@.len(),
    ensures
        r == be_u32(bytes@, pos as int),
{
    (bytes[pos] as u32) * 0x1000000 + (bytes[pos + 1] as u32) * 0x10000 + (bytes[pos + 2] as u32)
        * 0x100 + (bytes[pos + 3] as u32)
}

/// Read the signed big-endian 16-bit field at `pos`.
pub fn read_i16(bytes: &[u8], pos: usize) -> (r: i16)
    requires
        pos + 2 <= bytes@.len(),
    ensures
        r == be_i16(bytes@, pos as int),
{
    read_u16(bytes, pos) as i16
}

/// Read the signed big-endian 32-bit field at `pos`.
pub fn read_i32(bytes: &[u8], pos: usize) -> (r: i32)
    requires
        pos + 4 <= bytes@.len(),
    ensures
        r == be_i32(bytes@, pos as int),
{
    read_u32(bytes, pos) as i32
}

/// Copy the byte run `[from, to)` out of the input buffer.
pub fn copy_range(bytes: &[u8], from: usize, to: usize) -> (r: Vec<u8>)
    requires
        from <= to <= bytes@.len(),
    ensures
        r@ == bytes@.subrange(from as int, to as int),
{
    let mut out: Vec<u8> = Vec::new();
    let mut i: usize = from;
    while i < to
        invariant
            from <= i <= to <= bytes@.len(),
            out@ == bytes@.subrange(from as int, i as int),
        decreases to - i,
    {
        out.push(bytes[i]);
        proof {
            assert(out@ =~= bytes@.subrange(from as int, i + 1));
        }
        i += 1;
    }
    out
}

/// Relies on String::push from std: pushing a character appends exactly
/// that character to the end of the string.
#[verifier::external_body]
fn push_char(s: &mut String, c: char)
    ensures
        final(s)@ == old(s)@.push(c),
{
    s.push(c)
}

/// Turn the byte run `[from, to)` of the input buffer into text, one
/// character per byte.
pub fn read_name(bytes: &[u8], from: usize, to: usize) -> (r: String)
    requires
        from <= to <= bytes@.len(),
    ensures
        r@ == chars_of_bytes(bytes@.subrange(from as int, to as int)),
{
    let mut s = String::new();
    let mut i: usize = from;
    while i < to
        invariant
            from <= i <= to <= bytes@.len(),
            s@ == chars_of_bytes(bytes@.subrange(from as int, i as int)),
        decreases to - i,
    {
        let c = bytes[i] as char;
        push_char(&mut s, c);
        proof {
            assert(s@ =~= chars_of_bytes(bytes@.subrange(from as int, i + 1)));
        }
        i += 1;
    }
    s
}

} // verus!
