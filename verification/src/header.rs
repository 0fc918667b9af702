//! Validating and extracting the fixed file header.
//!
//! The header is a fixed-length big-endian byte run: a 4-byte magic
//! signature, a 2-byte version that must be 1, six reserved bytes that
//! must be zero, a 2-byte channel count, 4-byte height and width, a
//! depth byte and a 2-byte color mode code. Each validation produces
//! its own distinct failure, checked in the order the fields are laid
//! out, and a failed validation aborts the whole decode.

use vstd::prelude::*;

use crate::channel::is_defined_depth;
use crate::channel::validate_depth;
use crate::error::Error;
use crate::error::HeaderError;
use crate::layer::MAX_DIMENSION;
use crate::wire::be_u16;
use crate::wire::be_u32;
use crate::wire::read_u16;
use crate::wire::read_u32;

verus! {

/// The number of bytes of the fixed header.
pub const HEADER_LEN: usize = 25;

/// Canvas-level metadata, fixed for the lifetime of the decoded
/// object once the header has been validated.
#[derive(Debug, Clone, Copy, PartialEq, Eq, Structural)]
pub struct PsdHeader {
    /// The number of canvas-level channels announced by the header.
    pub channel_count: u16,
    /// The height of the canvas in pixels.
    pub height: u32,
    /// The width of the canvas in pixels.
    pub width: u32,
    /// The validated sample bit depth.
    pub depth: u8,
    /// The validated color mode code.
    pub color_mode: u8,
}

/// True when the four leading bytes are the magic signature `8BPS`.
pub open spec fn signature_ok(s: Seq<u8>) -> bool {
    s[0] == 0x38u8 && s[1] == 0x42u8 && s[2] == 0x50u8 && s[3] == 0x53u8
}

/// True when all six reserved bytes are zero.
pub open spec fn reserved_ok(s: Seq<u8>) -> bool {
    forall|i: int| 6 <= i < 12 ==> s[i] == 0u8
}

/// True of the color mode codes the format recognizes.
pub open spec fn is_valid_color_mode(b: u8) -> bool {
    b == 0 || b == 1 || b == 2 || b == 3 || b == 4 || b == 7 || b == 8 || b == 9
}

/// What validating the header yields: the extracted fields, or the
/// first failure in field order — length, signature, version, reserved
/// bytes, height range, width range, depth, color mode.
pub open spec fn spec_parse_header(s: Seq<u8>) -> Result<PsdHeader, Error> {
    if s.len() < HEADER_LEN {
        Err(Error::Header(HeaderError::InvalidFileError))
    } else if !signature_ok(s) {
        Err(Error::Header(HeaderError::InvalidSignature))
    } else if be_u16(s, 4) != 1 {
        Err(Error::Header(HeaderError::InvalidVersion))
    } else if !reserved_ok(s) {
        Err(Error::Header(HeaderError::InvalidReserved))
    } else if !(1 <= be_u32(s, 14) <= MAX_DIMENSION as int) {
        Err(Error::Header(HeaderError::HeightOutOfRange(be_u32(s, 14) as u32)))
    } else if !(1 <= be_u32(s, 18) <= MAX_DIMENSION as int) {
        Err(Error::Header(HeaderError::WidthOutOfRange(be_u32(s, 18) as u32)))
    } else if s[22] != 8 {
        if is_defined_depth(s[22]) {
            Err(Error::Depth(crate::error::DepthError::UnsupportedDepth))
        } else {
            Err(Error::Depth(crate::error::DepthError::InvalidDepth(s[22])))
        }
    } else if !(s[23] == 0 && is_valid_color_mode(s[24])) {
        Err(Error::Header(HeaderError::InvalidColorMode(s[24])))
    } else {
        Ok(
            PsdHeader {
                channel_count: be_u16(s, 12) as u16,
                height: be_u32(s, 14) as u32,
                width: be_u32(s, 18) as u32,
                depth: s[22],
                color_mode: s[24],
            },
        )
    }
}

/// True when the six reserved bytes of the header are all zero.
fn reserved_zero(bytes: &[u8]) -> (r: bool)
    requires
        bytes@.len() >= 12,
    ensures
        r == reserved_ok(bytes@),
{
    let mut i: usize = 6;
    while i < 12
        invariant
            6 <= i <= 12,
            bytes@.len() >= 12,
            forall|j: int| 6 <= j < i ==> bytes@[j] == 0u8,
        decreases 12 - i,
    {
        if bytes[i] != 0 {
            proof {
                assert(bytes@[i as int] != 0u8);
            }
            return false;
        }
        i += 1;
    }
    true
}

/// Validate and extract the fixed header at the front of the input.
/// Returns exactly what the spec-level validation yields: the header
/// on success, and the first failure in field order otherwise.
pub fn parse_header(bytes: &[u8]) -> (r: Result<PsdHeader, Error>)
    ensures
        r == spec_parse_header(bytes@),
{
    if bytes.len() < HEADER_LEN {
        return Err(Error::Header(HeaderError::InvalidFileError));
    }
    if !(bytes[0] == 0x38 && bytes[1] == 0x42 && bytes[2] == 0x50 && bytes[3] == 0x53) {
        return Err(Error::Header(HeaderError::InvalidSignature));
    }
    if read_u16(bytes, 4) != 1 {
        return Err(Error::Header(HeaderError::InvalidVersion));
    }
    if !reserved_zero(bytes) {
        return Err(Error::Header(HeaderError::InvalidReserved));
    }
    let height = read_u32(bytes, 14);
    if height < 1 || height > MAX_DIMENSION {
        return Err(Error::Header(HeaderError::HeightOutOfRange(height)));
    }
    let width = read_u32(bytes, 18);
    if width < 1 || width > MAX_DIMENSION {
        return Err(Error::Header(HeaderError::WidthOutOfRange(width)));
    }
    let depth = match validate_depth(bytes[22]) {
        Ok(d) => d,
        Err(e) => {
            return Err(Error::Depth(e));
        },
    };
    if !(bytes[23] == 0 && (bytes[24] == 0 || bytes[24] == 1 || bytes[24] == 2 || bytes[24] == 3
        || bytes[24] == 4 || bytes[24] == 7 || bytes[24] == 8 || bytes[24] == 9)) {
        return Err(Error::Header(HeaderError::InvalidColorMode(bytes[24])));
    }
    Ok(
        PsdHeader {
            channel_count: read_u16(bytes, 12),
            height,
            width,
            depth,
            color_mode: bytes[24],
        },
    )
}

} // verus!
