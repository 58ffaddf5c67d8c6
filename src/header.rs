//! The local file header that precedes each entry's data in a zip archive.
use vstd::prelude::*;

use crate::bytes::{
    get_u16, get_u32, le16, le32, lemma_u16_round_trip, lemma_u32_round_trip, put_u16, put_u32,
    u16_at, u32_at,
};
use crate::error::DecodeError;
use crate::flag::{flag_of, flag_word, lemma_flag_round_trip, GeneralPurposeFlag};

verus! {

/// Length in bytes of an encoded local file header.
pub const HEADER_LEN: usize = 26;

/// The fields of a local file header, in their order on disk. Any
/// combination of values is a header.
#[derive(Clone, Copy, Debug, PartialEq, Eq, Structural)]
pub struct LocalFileHeader {
    pub version: u16,
    pub flags: GeneralPurposeFlag,
    pub compression: u16,
    pub mod_time: u16,
    pub mod_date: u16,
    pub crc: u32,
    pub compressed_size: u32,
    pub uncompressed_size: u32,
    pub file_name_length: u16,
    pub extra_field_length: u16,
}

/// The 26 bytes of `h`: every field little-endian, packed in declaration order.
pub open spec fn header_bytes(h: LocalFileHeader) -> Seq<u8> {
    le16(h.version) + le16(flag_word(h.flags)) + le16(h.compression) + le16(h.mod_time) + le16(
        h.mod_date,
    ) + le32(h.crc) + le32(h.compressed_size) + le32(h.uncompressed_size) + le16(
        h.file_name_length,
    ) + le16(h.extra_field_length)
}

/// The header held by the 26 bytes `b`.
pub open spec fn header_of(b: Seq<u8>) -> LocalFileHeader
    recommends
        b.len() == 26,
{
    LocalFileHeader {
        version: u16_at(b, 0),
        flags: flag_of(u16_at(b, 2)),
        compression: u16_at(b, 4),
        mod_time: u16_at(b, 6),
        mod_date: u16_at(b, 8),
        crc: u32_at(b, 10),
        compressed_size: u32_at(b, 14),
        uncompressed_size: u32_at(b, 18),
        file_name_length: u16_at(b, 22),
        extra_field_length: u16_at(b, 24),
    }
}

/// Each byte of `b` from `i` on is the byte of `part` at the same offset.
spec fn holds_at(b: Seq<u8>, i: int, part: Seq<u8>) -> bool {
    i + part.len() <= b.len() && b.subrange(i, i + part.len()) == part
}

proof fn lemma_u16_at_part(b: Seq<u8>, i: int, v: u16)
    requires
        0 <= i,
        holds_at(b, i, le16(v)),
    ensures
        u16_at(b, i) == v,
{
    lemma_u16_round_trip(v);
    assert(b[i] == le16(v)[0] && b[i + 1] == le16(v)[1]) by {
        assert(b.subrange(i, i + 2)[0] == b[i]);
        assert(b.subrange(i, i + 2)[1] == b[i + 1]);
    }
}

proof fn lemma_u32_at_part(b: Seq<u8>, i: int, v: u32)
    requires
        0 <= i,
        holds_at(b, i, le32(v)),
    ensures
        u32_at(b, i) == v,
{
    lemma_u32_round_trip(v);
    let s = b.subrange(i, i + 4);
    assert(s[0] == b[i] && s[1] == b[i + 1] && s[2] == b[i + 2] && s[3] == b[i + 3]);
}

/// An encoded header is 26 bytes long.
pub proof fn lemma_header_len(h: LocalFileHeader)
    ensures
        header_bytes(h).len() == 26,
{
}

/// Decoding an encoded header gives back the header.
pub proof fn lemma_header_round_trip(h: LocalFileHeader)
    ensures
        header_of(header_bytes(h)) == h,
{
    let b = header_bytes(h);
    assert(holds_at(b, 0, le16(h.version))) by {
        assert(b.subrange(0, 2) =~= le16(h.version));
    }
    assert(holds_at(b, 2, le16(flag_word(h.flags)))) by {
        assert(b.subrange(2, 4) =~= le16(flag_word(h.flags)));
    }
    assert(holds_at(b, 4, le16(h.compression))) by {
        assert(b.subrange(4, 6) =~= le16(h.compression));
    }
    assert(holds_at(b, 6, le16(h.mod_time))) by {
        assert(b.subrange(6, 8) =~= le16(h.mod_time));
    }
    assert(holds_at(b, 8, le16(h.mod_date))) by {
        assert(b.subrange(8, 10) =~= le16(h.mod_date));
    }
    assert(holds_at(b, 10, le32(h.crc))) by {
        assert(b.subrange(10, 14) =~= le32(h.crc));
    }
    assert(holds_at(b, 14, le32(h.compressed_size))) by {
        assert(b.subrange(14, 18) =~= le32(h.compressed_size));
    }
    assert(holds_at(b, 18, le32(h.uncompressed_size))) by {
        assert(b.subrange(18, 22) =~= le32(h.uncompressed_size));
    }
    assert(holds_at(b, 22, le16(h.file_name_length))) by {
        assert(b.subrange(22, 24) =~= le16(h.file_name_length));
    }
    assert(holds_at(b, 24, le16(h.extra_field_length))) by {
        assert(b.subrange(24, 26) =~= le16(h.extra_field_length));
    }
    lemma_u16_at_part(b, 0, h.version);
    lemma_u16_at_part(b, 2, flag_word(h.flags));
    lemma_u16_at_part(b, 4, h.compression);
    lemma_u16_at_part(b, 6, h.mod_time);
    lemma_u16_at_part(b, 8, h.mod_date);
    lemma_u32_at_part(b, 10, h.crc);
    lemma_u32_at_part(b, 14, h.compressed_size);
    lemma_u32_at_part(b, 18, h.uncompressed_size);
    lemma_u16_at_part(b, 22, h.file_name_length);
    lemma_u16_at_part(b, 24, h.extra_field_length);
    lemma_flag_round_trip(h.flags);
    lemma_u16_round_trip(flag_word(h.flags));
}

/// The header held by `b`, whose length the caller has checked.
fn decode_exact(b: &[u8]) -> (r: LocalFileHeader)
    requires
        b@.len() == HEADER_LEN,
    ensures
        r == header_of(b@),
{
    LocalFileHeader {
        version: get_u16(b, 0),
        flags: GeneralPurposeFlag::from(get_u16(b, 2)),
        compression: get_u16(b, 4),
        mod_time: get_u16(b, 6),
        mod_date: get_u16(b, 8),
        crc: get_u32(b, 10),
        compressed_size: get_u32(b, 14),
        uncompressed_size: get_u32(b, 18),
        file_name_length: get_u16(b, 22),
        extra_field_length: get_u16(b, 24),
    }
}

impl LocalFileHeader {
    /// The 26 bytes of this header, every field little-endian.
    pub fn to_slice(&self) -> (r: [u8; 26])
        ensures
            r@ == header_bytes(*self),
            r@.len() == 26,
    {
        let version = put_u16(self.version);
        let flags = self.flags.to_slice();
        let compression = put_u16(self.compression);
        let mod_time = put_u16(self.mod_time);
        let mod_date = put_u16(self.mod_date);
        let crc = put_u32(self.crc);
        let compressed_size = put_u32(self.compressed_size);
        let uncompressed_size = put_u32(self.uncompressed_size);
        let file_name_length = put_u16(self.file_name_length);
        let extra_field_length = put_u16(self.extra_field_length);
        let r = [
            version[0],
            version[1],
            flags[0],
            flags[1],
            compression[0],
            compression[1],
            mod_time[0],
            mod_time[1],
            mod_date[0],
            mod_date[1],
            crc[0],
            crc[1],
            crc[2],
            crc[3],
            compressed_size[0],
            compressed_size[1],
            compressed_size[2],
            compressed_size[3],
            uncompressed_size[0],
            uncompressed_size[1],
            uncompressed_size[2],
            uncompressed_size[3],
            file_name_length[0],
            file_name_length[1],
            extra_field_length[0],
            extra_field_length[1],
        ];
        assert(r@ =~= header_bytes(*self));
        r
    }

    /// The header held by a buffer of exactly 26 bytes; any other length is a
    /// length mismatch.
    pub fn from_bytes(buf: &[u8]) -> (r: Result<LocalFileHeader, DecodeError>)
        ensures
            buf@.len() == 26 ==> r == Ok::<LocalFileHeader, DecodeError>(header_of(buf@)),
            buf@.len() != 26 ==> r == Err::<LocalFileHeader, DecodeError>(
                DecodeError::LengthMismatch { expected: 26, found: buf@.len() as usize },
            ),
    {
        if buf.len() != HEADER_LEN {
            return Err(DecodeError::LengthMismatch { expected: HEADER_LEN, found: buf.len() });
        }
        Ok(decode_exact(buf))
    }
}

impl From<[u8; 26]> for LocalFileHeader {
    /// The header held by the 26 bytes `value`.
    fn from(value: [u8; 26]) -> (r: LocalFileHeader) {
        decode_exact(value.as_slice())
    }
}

impl vstd::std_specs::convert::FromSpecImpl<[u8; 26]> for LocalFileHeader {
    open spec fn obeys_from_spec() -> bool {
        true
    }

    open spec fn from_spec(v: [u8; 26]) -> LocalFileHeader {
        header_of(v@)
    }
}

} // verus!
