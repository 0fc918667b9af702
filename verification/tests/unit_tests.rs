//! Unit tests of the channel model, the run-length decoder, and the
//! coordinate remap.

use psd::rle_decompress;
use psd::ChannelError;
use psd::LayerRecord;
use psd::PsdChannelCompression;
use psd::PsdChannelKind;
use psd::PsdLayer;

#[test]
fn inclusive_rectangle_width_and_height() {
    // top 0, bottom 3, left 0, right 4.
    let layer = PsdLayer::new("r".to_string(), 0, 0, 3, 4, 10, 10);
    assert_eq!(layer.height(), 4);
    assert_eq!(layer.width(), 5);
}

#[test]
fn layer_record_height_is_inclusive() {
    let record = LayerRecord::new("r".to_string(), Vec::new(), 0, 0, 3, 4);
    assert_eq!(record.height(), 4);
    assert_eq!(record.name(), "r");
    assert_eq!(record.top(), 0);
    assert_eq!(record.left(), 0);
    assert_eq!(record.bottom(), 3);
    assert_eq!(record.right(), 4);
}

#[test]
fn canvas_index_remaps_subrectangle() {
    // Canvas 10 wide; layer 3 wide starting at column 2 of row 1.
    let layer = PsdLayer::new("l".to_string(), 1, 2, 2, 4, 10, 10);
    assert_eq!(layer.canvas_index(0), 12);
    assert_eq!(layer.canvas_index(1), 13);
    assert_eq!(layer.canvas_index(2), 14);
    assert_eq!(layer.canvas_index(3), 22);
}

#[test]
fn channel_kind_wire_ids_round_trip() {
    let kinds = [
        (0, PsdChannelKind::Red),
        (1, PsdChannelKind::Green),
        (2, PsdChannelKind::Blue),
        (-1, PsdChannelKind::TransparencyMask),
        (-2, PsdChannelKind::UserSuppliedLayerMask),
        (-3, PsdChannelKind::RealUserSuppliedLayerMask),
    ];
    for (id, kind) in kinds {
        assert_eq!(PsdChannelKind::new(id), Ok(kind));
        assert_eq!(kind.wire_id(), id);
    }
    assert_eq!(
        PsdChannelKind::new(3),
        Err(ChannelError::InvalidId(3))
    );
    assert_eq!(
        PsdChannelKind::new(-4),
        Err(ChannelError::InvalidId(-4))
    );
}

#[test]
fn compression_wire_codes() {
    assert_eq!(
        PsdChannelCompression::new(0),
        Ok(PsdChannelCompression::RawData)
    );
    assert_eq!(
        PsdChannelCompression::new(1),
        Ok(PsdChannelCompression::RleCompressed)
    );
    assert_eq!(
        PsdChannelCompression::new(2),
        Err(ChannelError::InvalidCompression(2))
    );
}

#[test]
fn rle_decodes_known_buffer() {
    // A literal run of three bytes, then one byte repeated three times.
    let encoded = [2, 97, 98, 99, 254, 120];
    let decoded = rle_decompress(&encoded, 6).unwrap();
    assert_eq!(decoded, vec![97, 98, 99, 120, 120, 120]);
}

#[test]
fn rle_skips_no_op_control() {
    let encoded = [128, 0, 9, 128, 255, 7];
    let decoded = rle_decompress(&encoded, 3).unwrap();
    assert_eq!(decoded, vec![9, 7, 7]);
}

#[test]
fn rle_stops_exactly_at_expected_length() {
    let encoded = [0, 42, 99, 99, 99];
    let decoded = rle_decompress(&encoded, 1).unwrap();
    assert_eq!(decoded, vec![42]);
}

#[test]
fn rle_truncated_stream_fails() {
    let encoded = [2, 97];
    assert_eq!(
        rle_decompress(&encoded, 6),
        Err(ChannelError::MalformedRleStream)
    );
    let empty: [u8; 0] = [];
    assert_eq!(
        rle_decompress(&empty, 1),
        Err(ChannelError::MalformedRleStream)
    );
}

#[test]
fn rle_overshooting_unit_fails() {
    // The repeat unit would produce three bytes with only two owed.
    let encoded = [254, 7];
    assert_eq!(
        rle_decompress(&encoded, 2),
        Err(ChannelError::MalformedRleStream)
    );
}

#[test]
fn rle_empty_output_needs_no_input() {
    let empty: [u8; 0] = [];
    assert_eq!(rle_decompress(&empty, 0).unwrap(), Vec::<u8>::new());
}
