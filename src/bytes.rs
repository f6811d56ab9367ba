use vstd::prelude::*;

verus! {

/// Types that may be filled from any bytes: plain integers and arrays of
/// them, never anything that holds a reference.
pub trait ByteValued: Copy + Default + Send + Sync {}

impl ByteValued for u8 {}
impl ByteValued for u16 {}
impl ByteValued for u32 {}
impl ByteValued for u64 {}
impl ByteValued for usize {}
impl ByteValued for i8 {}
impl ByteValued for i16 {}
impl ByteValued for i32 {}
impl ByteValued for i64 {}
impl ByteValued for isize {}

impl ByteValued for [u8; 0] {}
impl ByteValued for [u8; 1] {}
impl ByteValued for [u8; 2] {}
impl ByteValued for [u8; 3] {}
impl ByteValued for [u8; 4] {}
impl ByteValued for [u8; 5] {}
impl ByteValued for [u8; 6] {}
impl ByteValued for [u8; 7] {}
impl ByteValued for [u8; 8] {}
impl ByteValued for [u8; 9] {}
impl ByteValued for [u8; 10] {}
impl ByteValued for [u8; 11] {}
impl ByteValued for [u8; 12] {}
impl ByteValued for [u8; 13] {}
impl ByteValued for [u8; 14] {}
impl ByteValued for [u8; 15] {}
impl ByteValued for [u8; 16] {}
impl ByteValued for [u8; 17] {}
impl ByteValued for [u8; 18] {}
impl ByteValued for [u8; 19] {}
impl ByteValued for [u8; 20] {}
impl ByteValued for [u8; 21] {}
impl ByteValued for [u8; 22] {}
impl ByteValued for [u8; 23] {}
impl ByteValued for [u8; 24] {}
impl ByteValued for [u8; 25] {}
impl ByteValued for [u8; 26] {}
impl ByteValued for [u8; 27] {}
impl ByteValued for [u8; 28] {}
impl ByteValued for [u8; 29] {}
impl ByteValued for [u8; 30] {}
impl ByteValued for [u8; 31] {}
impl ByteValued for [u8; 32] {}
impl ByteValued for [u16; 0] {}
impl ByteValued for [u16; 1] {}
impl ByteValued for [u16; 2] {}
impl ByteValued for [u16; 3] {}
impl ByteValued for [u16; 4] {}
impl ByteValued for [u16; 5] {}
impl ByteValued for [u16; 6] {}
impl ByteValued for [u16; 7] {}
impl ByteValued for [u16; 8] {}
impl ByteValued for [u16; 9] {}
impl ByteValued for [u16; 10] {}
impl ByteValued for [u16; 11] {}
impl ByteValued for [u16; 12] {}
impl ByteValued for [u16; 13] {}
impl ByteValued for [u16; 14] {}
impl ByteValued for [u16; 15] {}
impl ByteValued for [u16; 16] {}
impl ByteValued for [u16; 17] {}
impl ByteValued for [u16; 18] {}
impl ByteValued for [u16; 19] {}
impl ByteValued for [u16; 20] {}
impl ByteValued for [u16; 21] {}
impl ByteValued for [u16; 22] {}
impl ByteValued for [u16; 23] {}
impl ByteValued for [u16; 24] {}
impl ByteValued for [u16; 25] {}
impl ByteValued for [u16; 26] {}
impl ByteValued for [u16; 27] {}
impl ByteValued for [u16; 28] {}
impl ByteValued for [u16; 29] {}
impl ByteValued for [u16; 30] {}
impl ByteValued for [u16; 31] {}
impl ByteValued for [u16; 32] {}
impl ByteValued for [u32; 0] {}
impl ByteValued for [u32; 1] {}
impl ByteValued for [u32; 2] {}
impl ByteValued for [u32; 3] {}
impl ByteValued for [u32; 4] {}
impl ByteValued for [u32; 5] {}
impl ByteValued for [u32; 6] {}
impl ByteValued for [u32; 7] {}
impl ByteValued for [u32; 8] {}
impl ByteValued for [u32; 9] {}
impl ByteValued for [u32; 10] {}
impl ByteValued for [u32; 11] {}
impl ByteValued for [u32; 12] {}
impl ByteValued for [u32; 13] {}
impl ByteValued for [u32; 14] {}
impl ByteValued for [u32; 15] {}
impl ByteValued for [u32; 16] {}
impl ByteValued for [u32; 17] {}
impl ByteValued for [u32; 18] {}
impl ByteValued for [u32; 19] {}
impl ByteValued for [u32; 20] {}
impl ByteValued for [u32; 21] {}
impl ByteValued for [u32; 22] {}
impl ByteValued for [u32; 23] {}
impl ByteValued for [u32; 24] {}
impl ByteValued for [u32; 25] {}
impl ByteValued for [u32; 26] {}
impl ByteValued for [u32; 27] {}
impl ByteValued for [u32; 28] {}
impl ByteValued for [u32; 29] {}
impl ByteValued for [u32; 30] {}
impl ByteValued for [u32; 31] {}
impl ByteValued for [u32; 32] {}
impl ByteValued for [u64; 0] {}
impl ByteValued for [u64; 1] {}
impl ByteValued for [u64; 2] {}
impl ByteValued for [u64; 3] {}
impl ByteValued for [u64; 4] {}
impl ByteValued for [u64; 5] {}
impl ByteValued for [u64; 6] {}
impl ByteValued for [u64; 7] {}
impl ByteValued for [u64; 8] {}
impl ByteValued for [u64; 9] {}
impl ByteValued for [u64; 10] {}
impl ByteValued for [u64; 11] {}
impl ByteValued for [u64; 12] {}
impl ByteValued for [u64; 13] {}
impl ByteValued for [u64; 14] {}
impl ByteValued for [u64; 15] {}
impl ByteValued for [u64; 16] {}
impl ByteValued for [u64; 17] {}
impl ByteValued for [u64; 18] {}
impl ByteValued for [u64; 19] {}
impl ByteValued for [u64; 20] {}
impl ByteValued for [u64; 21] {}
impl ByteValued for [u64; 22] {}
impl ByteValued for [u64; 23] {}
impl ByteValued for [u64; 24] {}
impl ByteValued for [u64; 25] {}
impl ByteValued for [u64; 26] {}
impl ByteValued for [u64; 27] {}
impl ByteValued for [u64; 28] {}
impl ByteValued for [u64; 29] {}
impl ByteValued for [u64; 30] {}
impl ByteValued for [u64; 31] {}
impl ByteValued for [u64; 32] {}
impl ByteValued for [usize; 0] {}
impl ByteValued for [usize; 1] {}
impl ByteValued for [usize; 2] {}
impl ByteValued for [usize; 3] {}
impl ByteValued for [usize; 4] {}
impl ByteValued for [usize; 5] {}
impl ByteValued for [usize; 6] {}
impl ByteValued for [usize; 7] {}
impl ByteValued for [usize; 8] {}
impl ByteValued for [usize; 9] {}
impl ByteValued for [usize; 10] {}
impl ByteValued for [usize; 11] {}
impl ByteValued for [usize; 12] {}
impl ByteValued for [usize; 13] {}
impl ByteValued for [usize; 14] {}
impl ByteValued for [usize; 15] {}
impl ByteValued for [usize; 16] {}
impl ByteValued for [usize; 17] {}
impl ByteValued for [usize; 18] {}
impl ByteValued for [usize; 19] {}
impl ByteValued for [usize; 20] {}
impl ByteValued for [usize; 21] {}
impl ByteValued for [usize; 22] {}
impl ByteValued for [usize; 23] {}
impl ByteValued for [usize; 24] {}
impl ByteValued for [usize; 25] {}
impl ByteValued for [usize; 26] {}
impl ByteValued for [usize; 27] {}
impl ByteValued for [usize; 28] {}
impl ByteValued for [usize; 29] {}
impl ByteValued for [usize; 30] {}
impl ByteValued for [usize; 31] {}
impl ByteValued for [usize; 32] {}
impl ByteValued for [i8; 0] {}
impl ByteValued for [i8; 1] {}
impl ByteValued for [i8; 2] {}
impl ByteValued for [i8; 3] {}
impl ByteValued for [i8; 4] {}
impl ByteValued for [i8; 5] {}
impl ByteValued for [i8; 6] {}
impl ByteValued for [i8; 7] {}
impl ByteValued for [i8; 8] {}
impl ByteValued for [i8; 9] {}
impl ByteValued for [i8; 10] {}
impl ByteValued for [i8; 11] {}
impl ByteValued for [i8; 12] {}
impl ByteValued for [i8; 13] {}
impl ByteValued for [i8; 14] {}
impl ByteValued for [i8; 15] {}
impl ByteValued for [i8; 16] {}
impl ByteValued for [i8; 17] {}
impl ByteValued for [i8; 18] {}
impl ByteValued for [i8; 19] {}
impl ByteValued for [i8; 20] {}
impl ByteValued for [i8; 21] {}
impl ByteValued for [i8; 22] {}
impl ByteValued for [i8; 23] {}
impl ByteValued for [i8; 24] {}
impl ByteValued for [i8; 25] {}
impl ByteValued for [i8; 26] {}
impl ByteValued for [i8; 27] {}
impl ByteValued for [i8; 28] {}
impl ByteValued for [i8; 29] {}
impl ByteValued for [i8; 30] {}
impl ByteValued for [i8; 31] {}
impl ByteValued for [i8; 32] {}
impl ByteValued for [i16; 0] {}
impl ByteValued for [i16; 1] {}
impl ByteValued for [i16; 2] {}
impl ByteValued for [i16; 3] {}
impl ByteValued for [i16; 4] {}
impl ByteValued for [i16; 5] {}
impl ByteValued for [i16; 6] {}
impl ByteValued for [i16; 7] {}
impl ByteValued for [i16; 8] {}
impl ByteValued for [i16; 9] {}
impl ByteValued for [i16; 10] {}
impl ByteValued for [i16; 11] {}
impl ByteValued for [i16; 12] {}
impl ByteValued for [i16; 13] {}
impl ByteValued for [i16; 14] {}
impl ByteValued for [i16; 15] {}
impl ByteValued for [i16; 16] {}
impl ByteValued for [i16; 17] {}
impl ByteValued for [i16; 18] {}
impl ByteValued for [i16; 19] {}
impl ByteValued for [i16; 20] {}
impl ByteValued for [i16; 21] {}
impl ByteValued for [i16; 22] {}
impl ByteValued for [i16; 23] {}
impl ByteValued for [i16; 24] {}
impl ByteValued for [i16; 25] {}
impl ByteValued for [i16; 26] {}
impl ByteValued for [i16; 27] {}
impl ByteValued for [i16; 28] {}
impl ByteValued for [i16; 29] {}
impl ByteValued for [i16; 30] {}
impl ByteValued for [i16; 31] {}
impl ByteValued for [i16; 32] {}
impl ByteValued for [i32; 0] {}
impl ByteValued for [i32; 1] {}
impl ByteValued for [i32; 2] {}
impl ByteValued for [i32; 3] {}
impl ByteValued for [i32; 4] {}
impl ByteValued for [i32; 5] {}
impl ByteValued for [i32; 6] {}
impl ByteValued for [i32; 7] {}
impl ByteValued for [i32; 8] {}
impl ByteValued for [i32; 9] {}
impl ByteValued for [i32; 10] {}
impl ByteValued for [i32; 11] {}
impl ByteValued for [i32; 12] {}
impl ByteValued for [i32; 13] {}
impl ByteValued for [i32; 14] {}
impl ByteValued for [i32; 15] {}
impl ByteValued for [i32; 16] {}
impl ByteValued for [i32; 17] {}
impl ByteValued for [i32; 18] {}
impl ByteValued for [i32; 19] {}
impl ByteValued for [i32; 20] {}
impl ByteValued for [i32; 21] {}
impl ByteValued for [i32; 22] {}
impl ByteValued for [i32; 23] {}
impl ByteValued for [i32; 24] {}
impl ByteValued for [i32; 25] {}
impl ByteValued for [i32; 26] {}
impl ByteValued for [i32; 27] {}
impl ByteValued for [i32; 28] {}
impl ByteValued for [i32; 29] {}
impl ByteValued for [i32; 30] {}
impl ByteValued for [i32; 31] {}
impl ByteValued for [i32; 32] {}
impl ByteValued for [i64; 0] {}
impl ByteValued for [i64; 1] {}
impl ByteValued for [i64; 2] {}
impl ByteValued for [i64; 3] {}
impl ByteValued for [i64; 4] {}
impl ByteValued for [i64; 5] {}
impl ByteValued for [i64; 6] {}
impl ByteValued for [i64; 7] {}
impl ByteValued for [i64; 8] {}
impl ByteValued for [i64; 9] {}
impl ByteValued for [i64; 10] {}
impl ByteValued for [i64; 11] {}
impl ByteValued for [i64; 12] {}
impl ByteValued for [i64; 13] {}
impl ByteValued for [i64; 14] {}
impl ByteValued for [i64; 15] {}
impl ByteValued for [i64; 16] {}
impl ByteValued for [i64; 17] {}
impl ByteValued for [i64; 18] {}
impl ByteValued for [i64; 19] {}
impl ByteValued for [i64; 20] {}
impl ByteValued for [i64; 21] {}
impl ByteValued for [i64; 22] {}
impl ByteValued for [i64; 23] {}
impl ByteValued for [i64; 24] {}
impl ByteValued for [i64; 25] {}
impl ByteValued for [i64; 26] {}
impl ByteValued for [i64; 27] {}
impl ByteValued for [i64; 28] {}
impl ByteValued for [i64; 29] {}
impl ByteValued for [i64; 30] {}
impl ByteValued for [i64; 31] {}
impl ByteValued for [i64; 32] {}
impl ByteValued for [isize; 0] {}
impl ByteValued for [isize; 1] {}
impl ByteValued for [isize; 2] {}
impl ByteValued for [isize; 3] {}
impl ByteValued for [isize; 4] {}
impl ByteValued for [isize; 5] {}
impl ByteValued for [isize; 6] {}
impl ByteValued for [isize; 7] {}
impl ByteValued for [isize; 8] {}
impl ByteValued for [isize; 9] {}
impl ByteValued for [isize; 10] {}
impl ByteValued for [isize; 11] {}
impl ByteValued for [isize; 12] {}
impl ByteValued for [isize; 13] {}
impl ByteValued for [isize; 14] {}
impl ByteValued for [isize; 15] {}
impl ByteValued for [isize; 16] {}
impl ByteValued for [isize; 17] {}
impl ByteValued for [isize; 18] {}
impl ByteValued for [isize; 19] {}
impl ByteValued for [isize; 20] {}
impl ByteValued for [isize; 21] {}
impl ByteValued for [isize; 22] {}
impl ByteValued for [isize; 23] {}
impl ByteValued for [isize; 24] {}
impl ByteValued for [isize; 25] {}
impl ByteValued for [isize; 26] {}
impl ByteValued for [isize; 27] {}
impl ByteValued for [isize; 28] {}
impl ByteValued for [isize; 29] {}
impl ByteValued for [isize; 30] {}
impl ByteValued for [isize; 31] {}
impl ByteValued for [isize; 32] {}

/// A range of bytes read and written at addresses of type `A`, such as
/// guest memory.
pub trait Bytes<A> {
    /// Associated error codes
    type E;

    /// Writes from `buf` at `addr`; gives the number of bytes written, fewer
    /// than `buf` holds where the container ends first.
    fn write_slice(&self, buf: &[u8], addr: A) -> (r: Result<usize, Self::E>)
        ensures
            r matches Ok(n) ==> n <= buf@.len();

    /// Reads into `buf` from `addr`; gives the number of bytes read, fewer
    /// than `buf` holds where the container ends first.
    fn read_slice(&self, buf: &mut [u8], addr: A) -> (r: Result<usize, Self::E>)
        ensures
            r matches Ok(n) ==> n <= old(buf)@.len();

    /// Reads a value of `T` at `addr`, which must lie wholly inside.
    fn read_obj<T: ByteValued>(&self, addr: A) -> Result<T, Self::E>;
}

} // verus!
