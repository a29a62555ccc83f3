//! The framing of save files: which format version a file is in.
//!
//! A save file is a CBOR map whose first entry is the format version: the map's
//! header, the key `"version"` (a header byte and seven characters), and then
//! the version number, which is therefore the byte at position 9.

use vstd::prelude::*;

verus! {

/// The position of the version byte.
pub const VERSION_BYTE: usize = 9;

/// The format versions that can be read.
#[derive(Clone, Copy, Debug, PartialEq, Eq, Structural)]
pub enum SaveFormat {
    /// The first format, which is upgraded when it is read.
    V0,
    /// The current format.
    V1,
}

/// Why a save file cannot be read.
#[derive(Clone, Copy, Debug, PartialEq, Eq, Structural)]
pub enum FormatError {
    /// The file is too short to hold a version.
    TooShort,
    /// The file is of a version that is not known.
    Unsupported(u8),
}

/// The version that files are written in.
pub const CURRENT_VERSION: u64 = 1;

/// The format version of the save file `bytes`.
pub fn save_format(bytes: &[u8]) -> (r: Result<SaveFormat, FormatError>)
    ensures
        bytes@.len() <= VERSION_BYTE ==> r == Err::<SaveFormat, FormatError>(FormatError::TooShort),
        bytes@.len() > VERSION_BYTE ==> r == match bytes@[VERSION_BYTE as int] {
            0 => Ok(SaveFormat::V0),
            1 => Ok(SaveFormat::V1),
            n => Err(FormatError::Unsupported(n)),
        },
{
    if bytes.len() <= VERSION_BYTE {
        return Err(FormatError::TooShort);
    }
    match bytes[VERSION_BYTE] {
        0 => Ok(SaveFormat::V0),
        1 => Ok(SaveFormat::V1),
        n => Err(FormatError::Unsupported(n)),
    }
}

} // verus!
