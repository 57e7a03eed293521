//! Reading and writing integers in kernel property blobs.
//!
//! A blob is a sequence of bytes without any alignment. Its integers are in
//! the byte order of the host, which the caller names.

use vstd::prelude::*;

verus! {

/// The order of the bytes of an integer in a blob.
#[derive(Clone, Copy, Debug, PartialEq, Eq, Structural)]
pub enum ByteOrder {
    /// Least significant byte first.
    Little,
    /// Most significant byte first.
    Big,
}

/// The unsigned 32-bit integer whose four bytes start at `at`.
pub open spec fn spec_read_u32(b: Seq<u8>, at: int, order: ByteOrder) -> int
    recommends
        0 <= at,
        at + 4 <= b.len(),
{
    match order {
        ByteOrder::Little => b[at] as int + 0x100 * (b[at + 1] as int) + 0x1_0000 * (b[at
            + 2] as int) + 0x100_0000 * (b[at + 3] as int),
        ByteOrder::Big => b[at + 3] as int + 0x100 * (b[at + 2] as int) + 0x1_0000 * (b[at
            + 1] as int) + 0x100_0000 * (b[at] as int),
    }
}

/// The unsigned 64-bit integer whose eight bytes start at `at`.
pub open spec fn spec_read_u64(b: Seq<u8>, at: int, order: ByteOrder) -> int
    recommends
        0 <= at,
        at + 8 <= b.len(),
{
    match order {
        ByteOrder::Little => spec_read_u32(b, at, order) + 0x1_0000_0000 * spec_read_u32(
            b,
            at + 4,
            order,
        ),
        ByteOrder::Big => spec_read_u32(b, at + 4, order) + 0x1_0000_0000 * spec_read_u32(
            b,
            at,
            order,
        ),
    }
}

/// Reads the unsigned 32-bit integer whose four bytes start at `at`.
pub fn read_u32(b: &[u8], at: usize, order: ByteOrder) -> (v: u32)
    requires
        at + 4 <= b@.len(),
    ensures
        v == spec_read_u32(b@, at as int, order),
{
    let b0: u32 = b[at] as u32;
    let b1: u32 = b[at + 1] as u32;
    let b2: u32 = b[at + 2] as u32;
    let b3: u32 = b[at + 3] as u32;
    match order {
        ByteOrder::Little => b0 + 0x100 * b1 + 0x1_0000 * b2 + 0x100_0000 * b3,
        ByteOrder::Big => b3 + 0x100 * b2 + 0x1_0000 * b1 + 0x100_0000 * b0,
    }
}

/// Reads the unsigned 64-bit integer whose eight bytes start at `at`.
pub fn read_u64(b: &[u8], at: usize, order: ByteOrder) -> (v: u64)
    requires
        at + 8 <= b@.len(),
    ensures
        v == spec_read_u64(b@, at as int, order),
{
    let n: usize = b.len();
    assert(at + 8 <= n);
    let first: u64 = read_u32(b, at, order) as u64;
    let second: u64 = read_u32(b, at + 4, order) as u64;
    match order {
        ByteOrder::Little => first + 0x1_0000_0000 * second,
        ByteOrder::Big => second + 0x1_0000_0000 * first,
    }
}

/// The four bytes of the signed 32-bit integer `v`, which is stored in two's
/// complement.
pub open spec fn spec_i32_bytes(v: i32, order: ByteOrder) -> Seq<u8> {
    let u: int = if v >= 0 {
        v as int
    } else {
        v as int + 0x1_0000_0000
    };
    let b0 = (u % 0x100) as u8;
    let b1 = ((u / 0x100) % 0x100) as u8;
    let b2 = ((u / 0x1_0000) % 0x100) as u8;
    let b3 = ((u / 0x100_0000) % 0x100) as u8;
    match order {
        ByteOrder::Little => seq![b0, b1, b2, b3],
        ByteOrder::Big => seq![b3, b2, b1, b0],
    }
}

/// Appends the four bytes of `v` to `out`.
pub fn write_i32(out: &mut Vec<u8>, v: i32, order: ByteOrder)
    ensures
        final(out)@ == old(out)@ + spec_i32_bytes(v, order),
{
    let u: i64 = if v >= 0 {
        v as i64
    } else {
        v as i64 + 0x1_0000_0000
    };
    let b0: u8 = (u % 0x100) as u8;
    let b1: u8 = ((u / 0x100) % 0x100) as u8;
    let b2: u8 = ((u / 0x1_0000) % 0x100) as u8;
    let b3: u8 = ((u / 0x100_0000) % 0x100) as u8;
    let ghost before = out@;
    match order {
        ByteOrder::Little => {
            out.push(b0);
            out.push(b1);
            out.push(b2);
            out.push(b3);
        },
        ByteOrder::Big => {
            out.push(b3);
            out.push(b2);
            out.push(b1);
            out.push(b0);
        },
    }
    assert(out@ =~= before + spec_i32_bytes(v, order));
}

} // verus!
