//! Encoding and decoding of the fixed 26-byte local file header of a zip
//! archive entry, and of the 16-bit general-purpose flag field inside it.
mod bytes;
mod error;
mod flag;
mod header;

pub use bytes::{le16, le32, u16_at, u32_at};
pub use error::DecodeError;
pub use flag::{
    bit_set, flag_of, flag_word, lemma_flag_bit_isolation, lemma_flag_ignores_other_bits,
    lemma_flag_round_trip, GeneralPurposeFlag, DATA_DESCRIPTOR_BIT, ENCRYPTED_BIT,
};
pub use header::{
    header_bytes, header_of, lemma_header_len, lemma_header_round_trip, LocalFileHeader,
    HEADER_LEN,
};
