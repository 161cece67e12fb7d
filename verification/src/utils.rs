//! Bit manipulation helpers shared by every component of the emulator.

use vstd::prelude::*;

verus! {

/// `true` when adding `val1` and `val2` (as two's complement numbers) to get `result`
/// changed the sign in a way that signals an overflow.
pub open spec fn sign_overflow_spec(val1: u32, val2: u32, result: u32) -> bool {
    ((val1 ^ result) & (val2 ^ result)) >> 31u32 != 0
}

/// Check if a sign overflow occurred.
pub fn has_sign_overflowed(val1: u32, val2: u32, result: u32) -> (r: bool)
    ensures
        r == sign_overflow_spec(val1, val2, result),
{
    ((val1 ^ result) & (val2 ^ result)) >> 31u32 != 0
}

/// The low `size` bits of `data`, read as a two's complement number of `size` bits.
pub open spec fn sign_extend_spec(data: u32, size: u8) -> i32 {
    (((data << ((32 - size) as u32)) as i32) >> ((32 - size) as u32)) as i32
}

/// Sign extend the low `size` bits of `data` to a full 32-bit signed value.
pub fn sign_extend32(data: u32, size: u8) -> (r: i32)
    requires
        1 <= size <= 32,
    ensures
        r == sign_extend_spec(data, size),
{
    let shift: u32 = (32 - size) as u32;
    ((data << shift) as i32) >> shift
}


/// The little endian bytes of a 16-bit value.
pub open spec fn u16_le_bytes(v: u16) -> Seq<u8> {
    seq![v as u8, (v >> 8u16) as u8]
}

/// The little endian bytes of a 32-bit value.
pub open spec fn u32_le_bytes(v: u32) -> Seq<u8> {
    seq![v as u8, (v >> 8u32) as u8, (v >> 16u32) as u8, (v >> 24u32) as u8]
}

/// The 16-bit value of two little endian bytes.
pub open spec fn u16_from_le_spec(b: Seq<u8>) -> u16 {
    ((b[0] as u16) | ((b[1] as u16) << 8u16)) as u16
}

/// The 32-bit value of four little endian bytes.
pub open spec fn u32_from_le_spec(b: Seq<u8>) -> u32 {
    ((b[0] as u32) | ((b[1] as u32) << 8u32) | ((b[2] as u32) << 16u32) | ((b[3] as u32) << 24u32)) as u32
}

/// `s` with the little endian bytes of `v` written at index `i`.
pub open spec fn write_le_u16(s: Seq<u8>, i: int, v: u16) -> Seq<u8> {
    s.update(i, v as u8).update(i + 1, (v >> 8u16) as u8)
}

/// `s` with the little endian bytes of `v` written at index `i`.
pub open spec fn write_le_u32(s: Seq<u8>, i: int, v: u32) -> Seq<u8> {
    s.update(i, v as u8).update(i + 1, (v >> 8u32) as u8).update(i + 2, (v >> 16u32) as u8).update(
        i + 3,
        (v >> 24u32) as u8,
    )
}

/// Combine two little endian bytes.
pub fn u16_from_le(b0: u8, b1: u8) -> (r: u16)
    ensures
        r == u16_from_le_spec(seq![b0, b1]),
{
    (b0 as u16) | ((b1 as u16) << 8u16)
}

/// Combine four little endian bytes.
pub fn u32_from_le(b0: u8, b1: u8, b2: u8, b3: u8) -> (r: u32)
    ensures
        r == u32_from_le_spec(seq![b0, b1, b2, b3]),
{
    (b0 as u32) | ((b1 as u32) << 8u32) | ((b2 as u32) << 16u32) | ((b3 as u32) << 24u32)
}

/// The little endian bytes of a 16-bit value, as `u16::to_le_bytes` returns them.
pub fn u16_to_le(v: u16) -> (r: (u8, u8))
    ensures
        seq![r.0, r.1] == u16_le_bytes(v),
{
    (v as u8, (v >> 8u16) as u8)
}

/// The little endian bytes of a 32-bit value, as `u32::to_le_bytes` returns them.
pub fn u32_to_le(v: u32) -> (r: (u8, u8, u8, u8))
    ensures
        seq![r.0, r.1, r.2, r.3] == u32_le_bytes(v),
{
    (v as u8, (v >> 8u32) as u8, (v >> 16u32) as u8, (v >> 24u32) as u8)
}

/// `v` with its little endian byte `k` replaced by `b`.
pub open spec fn u16_with_byte(v: u16, k: int, b: u8) -> u16 {
    u16_from_le_spec(u16_le_bytes(v).update(k, b))
}

/// `v` with its little endian byte `k` replaced by `b`.
pub open spec fn u32_with_byte(v: u32, k: int, b: u8) -> u32 {
    u32_from_le_spec(u32_le_bytes(v).update(k, b))
}

/// Replace little endian byte `k` of `v`.
pub fn set_byte_u16(v: u16, k: usize, b: u8) -> (r: u16)
    requires
        k < 2,
    ensures
        r == u16_with_byte(v, k as int, b),
{
    let (b0, b1) = u16_to_le(v);
    if k == 0 {
        assert(u16_le_bytes(v).update(0, b) =~= seq![b, b1]);
        u16_from_le(b, b1)
    } else {
        assert(u16_le_bytes(v).update(1, b) =~= seq![b0, b]);
        u16_from_le(b0, b)
    }
}

/// Replace little endian byte `k` of `v`.
pub fn set_byte_u32(v: u32, k: usize, b: u8) -> (r: u32)
    requires
        k < 4,
    ensures
        r == u32_with_byte(v, k as int, b),
{
    let (b0, b1, b2, b3) = u32_to_le(v);
    if k == 0 {
        assert(u32_le_bytes(v).update(0, b) =~= seq![b, b1, b2, b3]);
        u32_from_le(b, b1, b2, b3)
    } else if k == 1 {
        assert(u32_le_bytes(v).update(1, b) =~= seq![b0, b, b2, b3]);
        u32_from_le(b0, b, b2, b3)
    } else if k == 2 {
        assert(u32_le_bytes(v).update(2, b) =~= seq![b0, b1, b, b3]);
        u32_from_le(b0, b1, b, b3)
    } else {
        assert(u32_le_bytes(v).update(3, b) =~= seq![b0, b1, b2, b]);
        u32_from_le(b0, b1, b2, b)
    }
}

/// Little endian byte `k` of `v`.
pub fn byte_of_u16(v: u16, k: usize) -> (r: u8)
    requires
        k < 2,
    ensures
        r == u16_le_bytes(v)[k as int],
{
    let (b0, b1) = u16_to_le(v);
    if k == 0 {
        b0
    } else {
        b1
    }
}

/// Little endian byte `k` of `v`.
pub fn byte_of_u32(v: u32, k: usize) -> (r: u8)
    requires
        k < 4,
    ensures
        r == u32_le_bytes(v)[k as int],
{
    let (b0, b1, b2, b3) = u32_to_le(v);
    if k == 0 {
        b0
    } else if k == 1 {
        b1
    } else if k == 2 {
        b2
    } else {
        b3
    }
}

/// Encoding a 16-bit value to bytes and decoding them gives the value back.
pub proof fn lemma_u16_le_roundtrip(v: u16)
    ensures
        u16_from_le_spec(u16_le_bytes(v)) == v,
{
    assert(((v as u8) as u16 | (((v >> 8u16) as u8) as u16) << 8u16) == v) by (bit_vector);
}

/// Encoding a 32-bit value to bytes and decoding them gives the value back.
pub proof fn lemma_u32_le_roundtrip(v: u32)
    ensures
        u32_from_le_spec(u32_le_bytes(v)) == v,
{
    assert(((v as u8) as u32 | (((v >> 8u32) as u8) as u32) << 8u32 | (((v >> 16u32) as u8) as u32)
        << 16u32 | (((v >> 24u32) as u8) as u32) << 24u32) == v) by (bit_vector);
}

/// Reading 16 bits at the index that 16 bits were written to gives the written value.
pub proof fn lemma_read_after_write_u16(s: Seq<u8>, i: int, v: u16)
    requires
        0 <= i,
        i + 2 <= s.len(),
    ensures
        u16_from_le_spec(write_le_u16(s, i, v).subrange(i, i + 2)) == v,
{
    lemma_u16_le_roundtrip(v);
    assert(write_le_u16(s, i, v).subrange(i, i + 2) =~= u16_le_bytes(v));
}

/// Reading 32 bits at the index that 32 bits were written to gives the written value.
pub proof fn lemma_read_after_write_u32(s: Seq<u8>, i: int, v: u32)
    requires
        0 <= i,
        i + 4 <= s.len(),
    ensures
        u32_from_le_spec(write_le_u32(s, i, v).subrange(i, i + 4)) == v,
{
    lemma_u32_le_roundtrip(v);
    assert(write_le_u32(s, i, v).subrange(i, i + 4) =~= u32_le_bytes(v));
}

/// Bit-field access on integers.
pub trait BitOps: Sized {
    type Output;

    /// The number of bits of the integer type.
    spec fn width() -> nat;

    /// The value of the bits `begin..=end_inclusive`, shifted down to bit 0.
    spec fn bits_spec(self, begin: u8, end_inclusive: u8) -> Self::Output;

    /// Whether bit `bit` is set.
    spec fn bit_spec(self, bit: u8) -> bool;

    /// Return the bits in the specified range.
    ///
    /// `0xBEEF.get_bits(12, 15)` is `0xB`.
    fn get_bits(self, begin: u8, end_inclusive: u8) -> (r: Self::Output)
        requires
            begin <= end_inclusive,
            (end_inclusive as nat) < Self::width(),
            end_inclusive - begin + 1 < Self::width(),
        ensures
            r == self.bits_spec(begin, end_inclusive),
    ;

    /// Check the provided bit, if it's set return `true`, otherwise return `false`.
    fn check_bit(self, bit: u8) -> (r: bool)
        requires
            bit < Self::width(),
        ensures
            r == self.bit_spec(bit),
    ;
}

impl BitOps for u8 {
    type Output = u8;

    open spec fn width() -> nat {
        8
    }

    open spec fn bits_spec(self, begin: u8, end_inclusive: u8) -> u8 {
        (self >> begin) & !(u8::MAX << ((end_inclusive - begin + 1) as u8))
    }

    open spec fn bit_spec(self, bit: u8) -> bool {
        self & (1u8 << (bit as u8)) != 0
    }

    fn get_bits(self, begin: u8, end_inclusive: u8) -> (r: u8) {
        let len: u8 = (end_inclusive - begin + 1) as u8;
        (self >> begin) & !(u8::MAX << len)
    }

    fn check_bit(self, bit: u8) -> (r: bool) {
        (self & (1u8 << (bit as u8))) != 0
    }
}

impl BitOps for u16 {
    type Output = u16;

    open spec fn width() -> nat {
        16
    }

    open spec fn bits_spec(self, begin: u8, end_inclusive: u8) -> u16 {
        (self >> begin) & !(u16::MAX << ((end_inclusive - begin + 1) as u16))
    }

    open spec fn bit_spec(self, bit: u8) -> bool {
        self & (1u16 << (bit as u16)) != 0
    }

    fn get_bits(self, begin: u8, end_inclusive: u8) -> (r: u16) {
        let len: u16 = (end_inclusive - begin + 1) as u16;
        (self >> begin) & !(u16::MAX << len)
    }

    fn check_bit(self, bit: u8) -> (r: bool) {
        (self & (1u16 << (bit as u16))) != 0
    }
}

impl BitOps for u32 {
    type Output = u32;

    open spec fn width() -> nat {
        32
    }

    open spec fn bits_spec(self, begin: u8, end_inclusive: u8) -> u32 {
        (self >> begin) & !(u32::MAX << ((end_inclusive - begin + 1) as u32))
    }

    open spec fn bit_spec(self, bit: u8) -> bool {
        self & (1u32 << (bit as u32)) != 0
    }

    fn get_bits(self, begin: u8, end_inclusive: u8) -> (r: u32) {
        let len: u32 = (end_inclusive - begin + 1) as u32;
        (self >> begin) & !(u32::MAX << len)
    }

    fn check_bit(self, bit: u8) -> (r: bool) {
        (self & (1u32 << (bit as u32))) != 0
    }
}

impl BitOps for u64 {
    type Output = u64;

    open spec fn width() -> nat {
        64
    }

    open spec fn bits_spec(self, begin: u8, end_inclusive: u8) -> u64 {
        (self >> begin) & !(u64::MAX << ((end_inclusive - begin + 1) as u64))
    }

    open spec fn bit_spec(self, bit: u8) -> bool {
        self & (1u64 << (bit as u64)) != 0
    }

    fn get_bits(self, begin: u8, end_inclusive: u8) -> (r: u64) {
        let len: u64 = (end_inclusive - begin + 1) as u64;
        (self >> begin) & !(u64::MAX << len)
    }

    fn check_bit(self, bit: u8) -> (r: bool) {
        (self & (1u64 << (bit as u64))) != 0
    }
}

impl BitOps for usize {
    type Output = usize;

    open spec fn width() -> nat {
        usize::BITS as nat
    }

    open spec fn bits_spec(self, begin: u8, end_inclusive: u8) -> usize {
        (self >> begin) & !(usize::MAX << ((end_inclusive - begin + 1) as usize))
    }

    open spec fn bit_spec(self, bit: u8) -> bool {
        self & (1usize << (bit as usize)) != 0
    }

    fn get_bits(self, begin: u8, end_inclusive: u8) -> (r: usize) {
        let len: usize = (end_inclusive - begin + 1) as usize;
        (self >> begin) & !(usize::MAX << len)
    }

    fn check_bit(self, bit: u8) -> (r: bool) {
        (self & (1usize << (bit as usize))) != 0
    }
}

impl BitOps for i32 {
    type Output = i32;

    open spec fn width() -> nat {
        32
    }

    open spec fn bits_spec(self, begin: u8, end_inclusive: u8) -> i32 {
        (self >> begin) & !((-1i32) << ((end_inclusive - begin + 1) as i32))
    }

    open spec fn bit_spec(self, bit: u8) -> bool {
        self & (1i32 << (bit as i32)) != 0
    }

    fn get_bits(self, begin: u8, end_inclusive: u8) -> (r: i32) {
        let len: i32 = (end_inclusive - begin + 1) as i32;
        (self >> begin) & !((-1i32) << len)
    }

    fn check_bit(self, bit: u8) -> (r: bool) {
        (self & (1i32 << (bit as i32))) != 0
    }
}

} // verus!

verus! {

/// Facts on bits used across the library: masking never gives more than the mask, a five
/// bit colour channel widened to eight bits by repeating its top bits is the channel times
/// eight plus its top three bits, clearing the two low bits subtracts them, and the top
/// four bits of a value are at most 15; bit `k` of the low byte of a value is its bit `k` for
/// `k < 8` and clear above.
pub proof fn lemma_bit_facts()
    by (bit_vector)
    ensures
        forall|x: u32, k: u32| #[trigger] (x & k) <= k,
        forall|x: u16, k: u16| #[trigger] (x & k) <= k,
        forall|x: u8, k: u8| #[trigger] (x & k) <= k,
        forall|x: u8| x < 32 ==> #[trigger] ((x << 3u8) | (x >> 2u8)) as int == x * 8 + x / 4,
        forall|x: u32| (#[trigger] (x & 0xFFFF_FFFC)) + (x & 3) == x,
        forall|x: u8| #[trigger] (x >> 4u8) <= 15,
        forall|x: u16| #[trigger] (x >> 12u16) <= 15,
        forall|x: u32| #[trigger] (x >> 28u32) <= 15,
        forall|x: u32, k: u32|
            k < 32 ==> (#[trigger] (((x & 0xFF) >> k) & 1) == 1) == (k < 8 && (x >> k) & 1 == 1),
{
}

} // verus!
