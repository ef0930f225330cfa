//! CRC32C checksums, which travel as the base64 text of their four bytes.

use crate::encode::{base64_bytes, base64_decode, base64_encode, base64_text};
use vstd::prelude::*;

verus! {

/// The four bytes of `value`, most significant first.
pub open spec fn be_bytes(value: u32) -> Seq<u8> {
    seq![
        (value / 0x100_0000) as u8,
        (value / 0x1_0000 % 0x100) as u8,
        (value / 0x100 % 0x100) as u8,
        (value % 0x100) as u8,
    ]
}

/// The number whose bytes, most significant first, are the four of `bytes`.
pub open spec fn be_value(bytes: Seq<u8>) -> int {
    bytes[0] * 0x100_0000 + bytes[1] * 0x1_0000 + bytes[2] * 0x100 + bytes[3]
}

/// Why a text is not a checksum.
#[derive(Clone, Copy, Debug, PartialEq, Eq, Structural)]
pub enum ChecksumError {
    /// The text is not base64.
    Encoding,
    /// The text stands for more or fewer than four bytes.
    Length,
}

/// The checksum that `text` stands for.
pub open spec fn checksum_spec(text: Seq<char>) -> Result<u32, ChecksumError> {
    match base64_bytes(text) {
        None => Err(ChecksumError::Encoding),
        Some(bytes) => if bytes.len() == 4 {
            Ok(be_value(bytes) as u32)
        } else {
            Err(ChecksumError::Length)
        },
    }
}

/// The text that stands for a checksum in a JSON body.
pub fn serialize(value: &Option<u32>) -> (written: Option<String>)
    ensures
        match *value {
            Some(checksum) => written matches Some(text) && text@ == base64_text(
                be_bytes(checksum),
            ),
            None => written is None,
        },
{
    match *value {
        Some(checksum) => {
            let mut bytes: Vec<u8> = Vec::new();
            bytes.push((checksum / 0x100_0000) as u8);
            bytes.push((checksum / 0x1_0000 % 0x100) as u8);
            bytes.push((checksum / 0x100 % 0x100) as u8);
            bytes.push((checksum % 0x100) as u8);
            assert(bytes@ =~= be_bytes(checksum));
            Some(base64_encode(bytes.as_slice()))
        },
        None => None,
    }
}

/// The checksum that a text of a JSON body stands for.
pub fn deserialize(written: Option<&str>) -> (value: Result<Option<u32>, ChecksumError>)
    ensures
        match written {
            Some(text) => match value {
                Ok(read) => read matches Some(checksum) && checksum_spec(text@) == Ok::<
                    u32,
                    ChecksumError,
                >(checksum),
                Err(error) => checksum_spec(text@) == Err::<u32, ChecksumError>(error),
            },
            None => value == Ok::<Option<u32>, ChecksumError>(None),
        },
{
    match written {
        None => Ok(None),
        Some(text) => match base64_decode(text) {
            None => Err(ChecksumError::Encoding),
            Some(bytes) => {
                if bytes.len() != 4 {
                    return Err(ChecksumError::Length);
                }
                let checksum: u32 = (bytes[0] as u32) * 0x100_0000 + (bytes[1] as u32) * 0x1_0000
                    + (bytes[2] as u32) * 0x100 + (bytes[3] as u32);
                Ok(Some(checksum))
            },
        },
    }
}

/// The bytes of a checksum give the checksum back.
pub proof fn be_bytes_round_trip(value: u32)
    ensures
        be_value(be_bytes(value)) == value,
{
}

} // verus!
