//! The failure vocabulary shared by every part of the decoder.
//!
//! Three categories — header, channel and depth failures — are unified
//! under one top-level [`Error`] so that internal code can short-circuit
//! uniformly while callers still see which category a failure came from.

use vstd::prelude::*;

use crate::channel::PsdChannelKind;

verus! {

/// The umbrella error returned by decoding and compositing.
///
/// Every failure of the decoder is one of these three categories,
/// wrapped losslessly so a caller can branch on the origin.
#[derive(Debug, Clone, Copy, PartialEq, Eq, Structural)]
pub enum Error {
    /// The fixed file header was malformed or out of range.
    Header(HeaderError),
    /// A channel table entry, payload or query was invalid.
    Channel(ChannelError),
    /// The sample bit depth was malformed or unsupported.
    Depth(DepthError),
}

/// A failure while validating the fixed file header.
#[derive(Debug, Clone, Copy, PartialEq, Eq, Structural)]
pub enum HeaderError {
    /// The input ended before a complete structure could be read, or a
    /// declared structure was inconsistent with the rest of the file.
    InvalidFileError,
    /// The four leading bytes were not the magic signature.
    InvalidSignature,
    /// The two-byte version field was not 1.
    InvalidVersion,
    /// One of the six reserved bytes was nonzero.
    InvalidReserved,
    /// The canvas height was outside the supported range; carries the
    /// height that was read.
    HeightOutOfRange(u32),
    /// The canvas width was outside the supported range; carries the
    /// width that was read.
    WidthOutOfRange(u32),
    /// The color mode code was not in the recognized set; carries the
    /// low byte of the code that was read.
    InvalidColorMode(u8),
}

/// A failure concerning one channel's identity, storage or lookup.
#[derive(Debug, Clone, Copy, PartialEq, Eq, Structural)]
pub enum ChannelError {
    /// A wire channel id that names no known channel kind.
    InvalidId(i16),
    /// A channel kind that is not valid in the requested context.
    InvalidKind(PsdChannelKind),
    /// A two-byte compression code that names no known method.
    InvalidCompression(u16),
    /// A queried or required channel kind is absent from the entity.
    NotFound(PsdChannelKind),
    /// A sample value outside the range a context accepts.
    OutOfRange(u8),
    /// One layer announced the same channel kind twice.
    DuplicateChannel(PsdChannelKind),
    /// A run-length compressed stream ended early, or one of its units
    /// would overshoot the expected decoded length.
    MalformedRleStream,
}

/// A failure while validating the sample bit depth.
#[derive(Debug, Clone, Copy, PartialEq, Eq, Structural)]
pub enum DepthError {
    /// A depth byte that names no depth the format defines; carries the
    /// byte that was read.
    InvalidDepth(u8),
    /// A depth the format defines but this decoder does not handle.
    UnsupportedDepth,
}

impl From<HeaderError> for Error {
    fn from(err: HeaderError) -> (r: Error)
        ensures
            r == Error::Header(err),
    {
        Error::Header(err)
    }
}

impl vstd::std_specs::convert::FromSpecImpl<HeaderError> for Error {
    open spec fn obeys_from_spec() -> bool {
        true
    }

    open spec fn from_spec(err: HeaderError) -> Error {
        Error::Header(err)
    }
}

impl From<ChannelError> for Error {
    fn from(err: ChannelError) -> (r: Error)
        ensures
            r == Error::Channel(err),
    {
        Error::Channel(err)
    }
}

impl vstd::std_specs::convert::FromSpecImpl<ChannelError> for Error {
    open spec fn obeys_from_spec() -> bool {
        true
    }

    open spec fn from_spec(err: ChannelError) -> Error {
        Error::Channel(err)
    }
}

impl From<DepthError> for Error {
    fn from(err: DepthError) -> (r: Error)
        ensures
            r == Error::Depth(err),
    {
        Error::Depth(err)
    }
}

impl vstd::std_specs::convert::FromSpecImpl<DepthError> for Error {
    open spec fn obeys_from_spec() -> bool {
        true
    }

    open spec fn from_spec(err: DepthError) -> Error {
        Error::Depth(err)
    }
}

} // verus!
