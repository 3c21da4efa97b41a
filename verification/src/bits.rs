use vstd::prelude::*;

verus! {

/// Fields and single bits of a byte, read as arithmetic: a low mask is a
/// remainder, a right shift a quotient, a flag bit a digit of the binary
/// expansion.
pub(crate) proof fn lemma_byte_fields()
    by (bit_vector)
    ensures
        forall|x: u8| #[trigger] (x & 0x01) == x % 2,
        forall|x: u8| #[trigger] (x & 0x03) == x % 4,
        forall|x: u8| #[trigger] (x & 0x07) == x % 8,
        forall|x: u8| #[trigger] (x & 0x0F) == x % 16,
        forall|x: u8| #[trigger] (x & 0x1F) == x % 32,
        forall|x: u8| #[trigger] (x & 0x3F) == x % 64,
        forall|x: u8| #[trigger] (x & 0x7F) == x % 128,
        forall|x: u8| #[trigger] (x >> 1u8) == x / 2,
        forall|x: u8| #[trigger] (x >> 2u8) == x / 4,
        forall|x: u8| #[trigger] (x >> 3u8) == x / 8,
        forall|x: u8| #[trigger] (x >> 4u8) == x / 16,
        forall|x: u8| #[trigger] (x >> 5u8) == x / 32,
        forall|x: u8| #[trigger] (x >> 6u8) == x / 64,
        forall|x: u8| (#[trigger] (x & 0x80) != 0) == (x / 128 == 1),
        forall|x: u8| (#[trigger] (x & 0x40) != 0) == (x / 64 % 2 == 1),
        forall|x: u8| (#[trigger] (x & 0x20) != 0) == (x / 32 % 2 == 1),
        forall|x: u8| (#[trigger] (x & 0x10) != 0) == (x / 16 % 2 == 1),
        forall|x: u8| (#[trigger] (x & 0x08) != 0) == (x / 8 % 2 == 1),
        forall|x: u8| (#[trigger] (x & 0x04) != 0) == (x / 4 % 2 == 1),
        forall|x: u8| (#[trigger] (x & 0x02) != 0) == (x / 2 % 2 == 1),
        forall|x: u8| (#[trigger] (x & 0xF8) != 0) == (x / 8 != 0),
        forall|x: u8| #[trigger] (x & 0xF8) == x / 8 * 8,
        forall|x: u8| #[trigger] (x & 0xFE) == x / 2 * 2,
        forall|x: u8| #[trigger] (x & !0x01u8) == x / 2 * 2,
        forall|x: u8| #[trigger] (x & 0x80) == x / 128 * 128,
        forall|x: u8, v: u8| #[trigger] ((x & !0x3Fu8) | (v & 0x3F)) == x / 64 * 64 + v % 64,
        forall|x: u8, h: u8| h < 8 ==> #[trigger] ((x & 0xF8) | h) == x / 8 * 8 + h,
{
}

/// Bytes of a 16-bit word, read as arithmetic.
pub(crate) proof fn lemma_word_fields()
    by (bit_vector)
    ensures
        forall|x: u16| #[trigger] (x >> 8u16) == x / 256,
        forall|x: u16| #[trigger] (x & 0xFF) == x % 256,
        forall|x: u16| #[trigger] (x & 0x01) == x % 2,
        forall|h: u16, l: u16| h < 256 && l < 256 ==> #[trigger] ((h << 8u16) | l) == h * 256 + l,
{
}

} // verus!
