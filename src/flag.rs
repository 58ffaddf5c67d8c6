//! The general-purpose bit flag of a local file header.
use vstd::prelude::*;

use crate::bytes::{get_u16, le16, put_u16, u16_at};
use crate::error::DecodeError;

verus! {

/// Position of the bit that marks an encrypted entry.
pub const ENCRYPTED_BIT: u16 = 14;

/// Position of the bit that marks sizes and CRC carried in a trailing data descriptor.
pub const DATA_DESCRIPTOR_BIT: u16 = 12;

/// The two options of the flag field that this library models.
#[derive(Clone, Copy, Debug, PartialEq, Eq, Structural)]
pub struct GeneralPurposeFlag {
    pub encrypted: bool,
    pub data_descriptor: bool,
}

/// Whether bit `i` (0 is the least significant) of `v` is set.
pub open spec fn bit_set(v: u16, i: u16) -> bool {
    (v >> i) & 1 == 1
}

/// The 16-bit field for `f`: bit 14 for `encrypted`, bit 12 for
/// `data_descriptor`, every other bit clear.
pub open spec fn flag_word(f: GeneralPurposeFlag) -> u16 {
    (if f.encrypted { 1u16 << 14u16 } else { 0u16 }) | (if f.data_descriptor {
        1u16 << 12u16
    } else {
        0u16
    })
}

/// The flag that the 16-bit field `v` holds; bits other than 14 and 12 are ignored.
pub open spec fn flag_of(v: u16) -> GeneralPurposeFlag {
    GeneralPurposeFlag { encrypted: bit_set(v, 14), data_descriptor: bit_set(v, 12) }
}

/// Decoding the encoded field, through its two little-endian bytes, gives back the flag.
pub proof fn lemma_flag_round_trip(f: GeneralPurposeFlag)
    ensures
        flag_of(u16_at(le16(flag_word(f)), 0)) == f,
{
    let w = flag_word(f);
    crate::bytes::lemma_u16_round_trip(w);
    let e = f.encrypted;
    let d = f.data_descriptor;
    assert(bit_set(w, 14) == e && bit_set(w, 12) == d) by (bit_vector)
        requires
            w == (if e { 1u16 << 14u16 } else { 0u16 }) | (if d { 1u16 << 12u16 } else { 0u16 }),
    ;
}

/// The encoded field has bit 14 set exactly when the entry is encrypted, bit 12
/// set exactly when a data descriptor follows, and no other bit set.
pub proof fn lemma_flag_bit_isolation(f: GeneralPurposeFlag)
    ensures
        bit_set(flag_word(f), 14) == f.encrypted,
        bit_set(flag_word(f), 12) == f.data_descriptor,
        flag_word(f) & !0x5000u16 == 0,
        !f.encrypted && !f.data_descriptor ==> flag_word(f) == 0,
{
    let w = flag_word(f);
    let e = f.encrypted;
    let d = f.data_descriptor;
    assert(bit_set(w, 14) == e && bit_set(w, 12) == d && w & !0x5000u16 == 0 && (!e && !d ==> w
        == 0)) by (bit_vector)
        requires
            w == (if e { 1u16 << 14u16 } else { 0u16 }) | (if d { 1u16 << 12u16 } else { 0u16 }),
    ;
}

/// Decoding looks at bits 14 and 12 only: clearing or setting any other bit
/// of the field gives the same flag.
pub proof fn lemma_flag_ignores_other_bits(v: u16, w: u16)
    requires
        v & 0x5000u16 == w & 0x5000u16,
    ensures
        flag_of(v) == flag_of(w),
{
    assert(bit_set(v, 14) == bit_set(w, 14) && bit_set(v, 12) == bit_set(w, 12)) by (bit_vector)
        requires
            v & 0x5000u16 == w & 0x5000u16,
    ;
}

impl GeneralPurposeFlag {
    /// The 16-bit field for this flag.
    pub fn to_word(&self) -> (r: u16)
        ensures
            r == flag_word(*self),
    {
        let encrypted: u16 = if self.encrypted { 1u16 << ENCRYPTED_BIT } else { 0 };
        let data_descriptor: u16 = if self.data_descriptor { 1u16 << DATA_DESCRIPTOR_BIT } else { 0 };
        encrypted | data_descriptor
    }

    /// The field for this flag as two little-endian bytes.
    pub fn to_slice(&self) -> (r: [u8; 2])
        ensures
            r@ == le16(flag_word(*self)),
            r@.len() == 2,
    {
        put_u16(self.to_word())
    }

    /// The flag held by a buffer of exactly two little-endian bytes; any other
    /// length is a length mismatch.
    pub fn from_bytes(buf: &[u8]) -> (r: Result<GeneralPurposeFlag, DecodeError>)
        ensures
            buf@.len() == 2 ==> r == Ok::<GeneralPurposeFlag, DecodeError>(
                flag_of(u16_at(buf@, 0)),
            ),
            buf@.len() != 2 ==> r == Err::<GeneralPurposeFlag, DecodeError>(
                DecodeError::LengthMismatch { expected: 2, found: buf@.len() as usize },
            ),
    {
        if buf.len() != 2 {
            return Err(DecodeError::LengthMismatch { expected: 2, found: buf.len() });
        }
        Ok(GeneralPurposeFlag::from(get_u16(buf, 0)))
    }
}

impl From<u16> for GeneralPurposeFlag {
    /// The flag held by the field `value`: bit 14 and bit 12, the rest ignored.
    fn from(value: u16) -> (r: GeneralPurposeFlag) {
        let encrypted = (value >> ENCRYPTED_BIT) & 1 == 1;
        let data_descriptor = (value >> DATA_DESCRIPTOR_BIT) & 1 == 1;
        GeneralPurposeFlag { encrypted, data_descriptor }
    }
}

impl vstd::std_specs::convert::FromSpecImpl<u16> for GeneralPurposeFlag {
    open spec fn obeys_from_spec() -> bool {
        true
    }

    open spec fn from_spec(v: u16) -> GeneralPurposeFlag {
        flag_of(v)
    }
}

} // verus!
