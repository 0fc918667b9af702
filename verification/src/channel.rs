//! Channel identity, compression method and channel byte storage.
//!
//! Maps raw wire codes to semantic channel kinds and compression
//! methods, validates the sample bit depth, and models one channel's
//! stored bytes together with the fixed-size per-kind channel map.

use vstd::prelude::*;

use crate::error::ChannelError;
use crate::error::DepthError;
use crate::rle::rle_decode_spec;

verus! {

/// The semantic role of one stored channel, identified on the wire by a
/// signed 16-bit id: Red 0, Green 1, Blue 2, transparency mask -1,
/// user-supplied layer mask -2, real user-supplied layer mask -3.
#[derive(Debug, Clone, Copy, PartialEq, Eq, Structural)]
pub enum PsdChannelKind {
    Red,
    Green,
    Blue,
    TransparencyMask,
    UserSuppliedLayerMask,
    RealUserSuppliedLayerMask,
}

impl PsdChannelKind {
    /// The wire id this kind is written as.
    pub open spec fn wire_id_spec(self) -> int {
        match self {
            PsdChannelKind::Red => 0,
            PsdChannelKind::Green => 1,
            PsdChannelKind::Blue => 2,
            PsdChannelKind::TransparencyMask => -1,
            PsdChannelKind::UserSuppliedLayerMask => -2,
            PsdChannelKind::RealUserSuppliedLayerMask => -3,
        }
    }

    /// The channel kind a wire id names, if any.
    pub open spec fn kind_of_spec(id: i16) -> Option<PsdChannelKind> {
        if id == 0 {
            Some(PsdChannelKind::Red)
        } else if id == 1 {
            Some(PsdChannelKind::Green)
        } else if id == 2 {
            Some(PsdChannelKind::Blue)
        } else if id == -1 {
            Some(PsdChannelKind::TransparencyMask)
        } else if id == -2 {
            Some(PsdChannelKind::UserSuppliedLayerMask)
        } else if id == -3 {
            Some(PsdChannelKind::RealUserSuppliedLayerMask)
        } else {
            None
        }
    }

    /// Map a signed 16-bit wire id to its channel kind; any id outside
    /// the closed set fails with `InvalidId` carrying that id.
    pub fn new(id: i16) -> (r: Result<PsdChannelKind, ChannelError>)
        ensures
            r == match Self::kind_of_spec(id) {
                Some(k) => Result::<PsdChannelKind, ChannelError>::Ok(k),
                None => Result::<PsdChannelKind, ChannelError>::Err(ChannelError::InvalidId(id)),
            },
    {
        if id == 0 {
            Ok(PsdChannelKind::Red)
        } else if id == 1 {
            Ok(PsdChannelKind::Green)
        } else if id == 2 {
            Ok(PsdChannelKind::Blue)
        } else if id == -1 {
            Ok(PsdChannelKind::TransparencyMask)
        } else if id == -2 {
            Ok(PsdChannelKind::UserSuppliedLayerMask)
        } else if id == -3 {
            Ok(PsdChannelKind::RealUserSuppliedLayerMask)
        } else {
            Err(ChannelError::InvalidId(id))
        }
    }

    /// The wire id this kind is written as.
    pub fn wire_id(&self) -> (r: i16)
        ensures
            r == self.wire_id_spec(),
    {
        match self {
            PsdChannelKind::Red => 0,
            PsdChannelKind::Green => 1,
            PsdChannelKind::Blue => 2,
            PsdChannelKind::TransparencyMask => -1,
            PsdChannelKind::UserSuppliedLayerMask => -2,
            PsdChannelKind::RealUserSuppliedLayerMask => -3,
        }
    }
}

/// How one channel's payload is stored on the wire: raw samples
/// (code 0) or a run-length compressed stream (code 1).
#[derive(Debug, Clone, Copy, PartialEq, Eq, Structural)]
pub enum PsdChannelCompression {
    RawData,
    RleCompressed,
}

impl PsdChannelCompression {
    /// The compression method a two-byte wire code names, if any.
    pub open spec fn compression_of_spec(code: u16) -> Option<PsdChannelCompression> {
        if code == 0 {
            Some(PsdChannelCompression::RawData)
        } else if code == 1 {
            Some(PsdChannelCompression::RleCompressed)
        } else {
            None
        }
    }

    /// Map a two-byte wire code to its compression method; any
    /// unrecognized code fails with `InvalidCompression` carrying it.
    pub fn new(code: u16) -> (r: Result<PsdChannelCompression, ChannelError>)
        ensures
            r == match Self::compression_of_spec(code) {
                Some(c) => Result::<PsdChannelCompression, ChannelError>::Ok(c),
                None => Result::<PsdChannelCompression, ChannelError>::Err(
                    ChannelError::InvalidCompression(code),
                ),
            },
    {
        if code == 0 {
            Ok(PsdChannelCompression::RawData)
        } else if code == 1 {
            Ok(PsdChannelCompression::RleCompressed)
        } else {
            Err(ChannelError::InvalidCompression(code))
        }
    }
}

/// True of the depth values the format defines.
pub open spec fn is_defined_depth(raw: u8) -> bool {
    raw == 1 || raw == 8 || raw == 16 || raw == 32
}

/// Validate the sample bit depth byte. The format defines depths 1, 8,
/// 16 and 32; this decoder handles 8-bit samples only. A byte naming
/// no defined depth fails with `InvalidDepth` carrying it; a defined
/// but unhandled depth fails with `UnsupportedDepth`.
pub fn validate_depth(raw: u8) -> (r: Result<u8, DepthError>)
    ensures
        r == if raw == 8 {
            Result::<u8, DepthError>::Ok(8u8)
        } else if is_defined_depth(raw) {
            Result::<u8, DepthError>::Err(DepthError::UnsupportedDepth)
        } else {
            Result::<u8, DepthError>::Err(DepthError::InvalidDepth(raw))
        },
{
    if raw == 8 {
        Ok(8)
    } else if raw == 1 || raw == 16 || raw == 32 {
        Err(DepthError::UnsupportedDepth)
    } else {
        Err(DepthError::InvalidDepth(raw))
    }
}

/// One channel's stored bytes: either raw samples, one byte per canvas
/// pixel, or a run-length compressed stream that expands to one byte
/// per canvas pixel. Immutable after construction; expanding a
/// compressed stream never changes the stored bytes.
#[derive(Debug, PartialEq, Eq)]
pub enum ChannelBytes {
    RawData(Vec<u8>),
    RleCompressed(Vec<u8>),
}

impl ChannelBytes {
    /// The compression method this storage was built from.
    pub open spec fn compression_spec(&self) -> PsdChannelCompression {
        match self {
            ChannelBytes::RawData(_) => PsdChannelCompression::RawData,
            ChannelBytes::RleCompressed(_) => PsdChannelCompression::RleCompressed,
        }
    }

    /// The bytes exactly as stored, compressed or not.
    pub open spec fn stored_spec(&self) -> Seq<u8> {
        match self {
            ChannelBytes::RawData(v) => v@,
            ChannelBytes::RleCompressed(v) => v@,
        }
    }

    /// Well-formed storage for a canvas of `expected` pixels: raw bytes
    /// have exactly one byte per pixel, and a compressed stream expands
    /// to exactly one byte per pixel.
    pub open spec fn wf(&self, expected: int) -> bool {
        match self {
            ChannelBytes::RawData(v) => v@.len() == expected,
            ChannelBytes::RleCompressed(v) => rle_decode_spec(v@, expected) is Some,
        }
    }

    /// The expanded per-pixel bytes this storage holds.
    pub open spec fn decoded_spec(&self, expected: int) -> Seq<u8> {
        match self {
            ChannelBytes::RawData(v) => v@,
            ChannelBytes::RleCompressed(v) => rle_decode_spec(v@, expected)->Some_0,
        }
    }

    /// The compression method this storage was built from.
    pub fn compression(&self) -> (r: PsdChannelCompression)
        ensures
            r == self.compression_spec(),
    {
        match self {
            ChannelBytes::RawData(_) => PsdChannelCompression::RawData,
            ChannelBytes::RleCompressed(_) => PsdChannelCompression::RleCompressed,
        }
    }

    /// The bytes exactly as stored, compressed or not.
    pub fn stored(&self) -> (r: &Vec<u8>)
        ensures
            r@ == self.stored_spec(),
    {
        match self {
            ChannelBytes::RawData(v) => v,
            ChannelBytes::RleCompressed(v) => v,
        }
    }
}

/// The channels of one entity, at most one per kind. The kind set is
/// small and closed, so one slot per kind keeps the "unique per kind"
/// invariant structurally.
#[derive(Debug, PartialEq, Eq)]
pub struct ChannelMap {
    red: Option<ChannelBytes>,
    green: Option<ChannelBytes>,
    blue: Option<ChannelBytes>,
    transparency_mask: Option<ChannelBytes>,
    user_supplied_layer_mask: Option<ChannelBytes>,
    real_user_supplied_layer_mask: Option<ChannelBytes>,
}

impl ChannelMap {
    /// The slot a kind occupies.
    pub closed spec fn get_spec(&self, kind: PsdChannelKind) -> Option<ChannelBytes> {
        match kind {
            PsdChannelKind::Red => self.red,
            PsdChannelKind::Green => self.green,
            PsdChannelKind::Blue => self.blue,
            PsdChannelKind::TransparencyMask => self.transparency_mask,
            PsdChannelKind::UserSuppliedLayerMask => self.user_supplied_layer_mask,
            PsdChannelKind::RealUserSuppliedLayerMask => self.real_user_supplied_layer_mask,
        }
    }

    /// A map with every slot empty.
    pub fn new() -> (r: ChannelMap)
        ensures
            forall|k: PsdChannelKind| #[trigger] r.get_spec(k) is None,
    {
        ChannelMap {
            red: None,
            green: None,
            blue: None,
            transparency_mask: None,
            user_supplied_layer_mask: None,
            real_user_supplied_layer_mask: None,
        }
    }

    /// Borrow the slot a kind occupies.
    pub fn get(&self, kind: PsdChannelKind) -> (r: &Option<ChannelBytes>)
        ensures
            *r == self.get_spec(kind),
    {
        match kind {
            PsdChannelKind::Red => &self.red,
            PsdChannelKind::Green => &self.green,
            PsdChannelKind::Blue => &self.blue,
            PsdChannelKind::TransparencyMask => &self.transparency_mask,
            PsdChannelKind::UserSuppliedLayerMask => &self.user_supplied_layer_mask,
            PsdChannelKind::RealUserSuppliedLayerMask => &self.real_user_supplied_layer_mask,
        }
    }

    /// Fill one kind's slot, leaving every other slot as it was.
    pub fn insert(&mut self, kind: PsdChannelKind, bytes: ChannelBytes)
        ensures
            final(self).get_spec(kind) == Some(bytes),
            forall|k: PsdChannelKind|
                k != kind ==> #[trigger] final(self).get_spec(k) == old(self).get_spec(k),
    {
        match kind {
            PsdChannelKind::Red => self.red = Some(bytes),
            PsdChannelKind::Green => self.green = Some(bytes),
            PsdChannelKind::Blue => self.blue = Some(bytes),
            PsdChannelKind::TransparencyMask => self.transparency_mask = Some(bytes),
            PsdChannelKind::UserSuppliedLayerMask => self.user_supplied_layer_mask = Some(bytes),
            PsdChannelKind::RealUserSuppliedLayerMask => self.real_user_supplied_layer_mask = Some(
                bytes,
            ),
        }
    }
}

} // verus!
