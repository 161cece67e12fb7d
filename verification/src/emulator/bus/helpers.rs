//! Integer types that the memory bus can read.

use crate::utils::{u16_from_le, u16_from_le_spec, u32_from_le, u32_from_le_spec};
use vstd::prelude::*;

verus! {

/// A value that can be read from consecutive little endian bytes of memory.
pub trait ReadType: Sized {
    /// The size of the type in bytes.
    spec fn spec_size() -> nat;

    /// The value of `spec_size` little endian bytes.
    spec fn spec_from_le(bytes: Seq<u8>) -> Self;

    /// The size of the type in bytes.
    fn size() -> (r: usize)
        ensures
            r == Self::spec_size(),
            1 <= r <= 4,
    ;

    /// Read self from the provided slice.
    ///
    /// The slice must be as long as the type.
    fn from_le_bytes(bytes: &[u8]) -> (r: Self)
        requires
            bytes@.len() == Self::spec_size(),
        ensures
            r == Self::spec_from_le(bytes@),
    ;

    /// Read self from `mem`, starting at `index`.
    fn read_le(mem: &Vec<u8>, index: usize) -> (r: Self)
        requires
            index + Self::spec_size() <= mem@.len(),
        ensures
            r == Self::spec_from_le(mem@.subrange(index as int, index + Self::spec_size())),
    ;

    /// Align the provided address to the appropriate boundary for this current type
    ///
    /// * `u32` - 4-byte alignment (aka, `address & 0xFFFF_FFFC`)
    /// * `u16` - 2-byte alignment (aka, `address & 0xFFFF_FFFE`)
    /// * `u8`  - Any
    fn align_address(address: u32) -> (r: u32)
        ensures
            r == address & !((Self::spec_size() - 1) as u32),
    ;
}

impl ReadType for u8 {
    open spec fn spec_size() -> nat {
        1
    }

    open spec fn spec_from_le(bytes: Seq<u8>) -> u8 {
        bytes[0]
    }

    fn size() -> (r: usize) {
        1
    }

    fn from_le_bytes(bytes: &[u8]) -> (r: u8) {
        bytes[0]
    }

    fn read_le(mem: &Vec<u8>, index: usize) -> (r: u8) {
        mem[index]
    }

    fn align_address(address: u32) -> (r: u32) {
        address & !0u32
    }
}

impl ReadType for u16 {
    open spec fn spec_size() -> nat {
        2
    }

    open spec fn spec_from_le(bytes: Seq<u8>) -> u16 {
        u16_from_le_spec(bytes)
    }

    fn size() -> (r: usize) {
        2
    }

    fn from_le_bytes(bytes: &[u8]) -> (r: u16) {
        let r = u16_from_le(bytes[0], bytes[1]);
        assert(seq![bytes@[0], bytes@[1]] =~= bytes@);
        r
    }

    fn read_le(mem: &Vec<u8>, index: usize) -> (r: u16) {
        let len = mem.len();
        assert(index + 2 <= len);
        let r = u16_from_le(mem[index], mem[index + 1]);
        assert(seq![mem@[index as int], mem@[index + 1]] =~= mem@.subrange(index as int, index + 2));
        r
    }

    fn align_address(address: u32) -> (r: u32) {
        address & !1u32
    }
}

impl ReadType for u32 {
    open spec fn spec_size() -> nat {
        4
    }

    open spec fn spec_from_le(bytes: Seq<u8>) -> u32 {
        u32_from_le_spec(bytes)
    }

    fn size() -> (r: usize) {
        4
    }

    fn from_le_bytes(bytes: &[u8]) -> (r: u32) {
        let r = u32_from_le(bytes[0], bytes[1], bytes[2], bytes[3]);
        assert(seq![bytes@[0], bytes@[1], bytes@[2], bytes@[3]] =~= bytes@);
        r
    }

    fn read_le(mem: &Vec<u8>, index: usize) -> (r: u32) {
        let len = mem.len();
        assert(index + 4 <= len);
        let r = u32_from_le(mem[index], mem[index + 1], mem[index + 2], mem[index + 3]);
        assert(seq![mem@[index as int], mem@[index + 1], mem@[index + 2], mem@[index + 3]]
            =~= mem@.subrange(index as int, index + 4));
        r
    }

    fn align_address(address: u32) -> (r: u32) {
        address & !3u32
    }
}

} // verus!
