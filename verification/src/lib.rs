//! A verified decoder for the layered Photoshop image format.
//!
//! The decoder validates the fixed binary header, reads the layer and
//! channel metadata tables, expands run-length compressed channel
//! payloads, and composites the stored channels into an interleaved
//! RGBA byte sequence, both for the whole canvas and for each layer.

pub mod channel;
pub mod error;
pub mod header;
pub mod layer;
pub mod psd;
pub mod rle;
pub mod wire;

pub use channel::ChannelBytes;
pub use channel::ChannelMap;
pub use channel::PsdChannelCompression;
pub use channel::PsdChannelKind;
pub use error::ChannelError;
pub use error::DepthError;
pub use error::Error;
pub use error::HeaderError;
pub use header::PsdHeader;
pub use layer::LayerRecord;
pub use layer::PsdLayer;
pub use layer::MAX_DIMENSION;
pub use layer::MISSING_ALPHA_SAMPLE;
pub use layer::MISSING_COLOR_SAMPLE;
pub use psd::decode;
pub use psd::Psd;
pub use rle::rle_decompress;
