//! End-to-end tests of decoding and compositing.

use psd::decode;
use psd::ChannelError;
use psd::DepthError;
use psd::Error;
use psd::HeaderError;
use psd::PsdChannelCompression;
use psd::PsdChannelKind;

fn push_u16(v: &mut Vec<u8>, x: u16) {
    v.push((x >> 8) as u8);
    v.push((x & 0xff) as u8);
}

fn push_u32(v: &mut Vec<u8>, x: u32) {
    v.push((x >> 24) as u8);
    v.push((x >> 16) as u8);
    v.push((x >> 8) as u8);
    v.push((x & 0xff) as u8);
}

fn push_i32(v: &mut Vec<u8>, x: i32) {
    push_u32(v, x as u32);
}

fn push_i16(v: &mut Vec<u8>, x: i16) {
    push_u16(v, x as u16);
}

fn header_bytes(channel_count: u16, height: u32, width: u32, depth: u8, mode: u8) -> Vec<u8> {
    let mut v = vec![0x38, 0x42, 0x50, 0x53, 0x00, 0x01];
    v.extend_from_slice(&[0, 0, 0, 0, 0, 0]);
    push_u16(&mut v, channel_count);
    push_u32(&mut v, height);
    push_u32(&mut v, width);
    v.push(depth);
    v.push(0);
    v.push(mode);
    v
}

/// A whole image with no layers: header, zero layer count, then the
/// canvas channel table and payloads. Each channel is (wire id,
/// compression code, payload bytes after the code).
fn canvas_psd(width: u32, height: u32, channels: &[(i16, u16, Vec<u8>)]) -> Vec<u8> {
    let mut v = header_bytes(channels.len() as u16, height, width, 8, 3);
    push_u16(&mut v, 0);
    for (id, _code, data) in channels {
        push_i16(&mut v, *id);
        push_u32(&mut v, (data.len() + 2) as u32);
    }
    for (_id, code, data) in channels {
        push_u16(&mut v, *code);
        v.extend_from_slice(data);
    }
    v
}

#[test]
fn decode_minimal_canvas() {
    let bytes = canvas_psd(2, 2, &[(0, 0, vec![10, 20, 30, 40])]);
    let psd = decode(&bytes).unwrap();
    assert_eq!(psd.width(), 2);
    assert_eq!(psd.height(), 2);
    assert_eq!(psd.depth(), 8);
    assert_eq!(psd.color_mode(), 3);
    assert_eq!(psd.channel_count(), 1);
    assert_eq!(psd.name(), "");
    assert_eq!(psd.layers().len(), 0);
}

#[test]
fn rgba_interleaves_with_fallbacks() {
    let bytes = canvas_psd(2, 2, &[(0, 0, vec![10, 20, 30, 40])]);
    let psd = decode(&bytes).unwrap();
    let rgba = psd.rgba().unwrap();
    assert_eq!(
        rgba,
        vec![10, 0, 0, 255, 20, 0, 0, 255, 30, 0, 0, 255, 40, 0, 0, 255]
    );
}

#[test]
fn rgba_uses_all_four_channels() {
    let bytes = canvas_psd(
        1,
        2,
        &[
            (0, 0, vec![1, 2]),
            (1, 0, vec![3, 4]),
            (2, 0, vec![5, 6]),
            (-1, 0, vec![7, 8]),
        ],
    );
    let psd = decode(&bytes).unwrap();
    let rgba = psd.rgba().unwrap();
    assert_eq!(rgba, vec![1, 3, 5, 7, 2, 4, 6, 8]);
}

#[test]
fn corrupt_signature_fails_with_signature_error() {
    let good = canvas_psd(2, 2, &[(0, 0, vec![10, 20, 30, 40])]);
    for i in 0..4 {
        let mut bad = good.clone();
        bad[i] ^= 0xff;
        assert_eq!(
            decode(&bad),
            Err(Error::Header(HeaderError::InvalidSignature)),
            "corrupting signature byte {} must fail with the signature error",
            i
        );
    }
}

#[test]
fn truncated_header_fails() {
    let bytes = header_bytes(0, 1, 1, 8, 3);
    assert_eq!(
        decode(&bytes[..10]),
        Err(Error::Header(HeaderError::InvalidFileError))
    );
}

#[test]
fn bad_version_fails() {
    let mut bytes = canvas_psd(1, 1, &[(0, 0, vec![9])]);
    bytes[5] = 2;
    assert_eq!(decode(&bytes), Err(Error::Header(HeaderError::InvalidVersion)));
}

#[test]
fn nonzero_reserved_fails() {
    let mut bytes = canvas_psd(1, 1, &[(0, 0, vec![9])]);
    bytes[7] = 1;
    assert_eq!(decode(&bytes), Err(Error::Header(HeaderError::InvalidReserved)));
}

#[test]
fn height_out_of_range_fails() {
    let bytes = canvas_psd(1, 0, &[(0, 0, vec![])]);
    assert_eq!(
        decode(&bytes),
        Err(Error::Header(HeaderError::HeightOutOfRange(0)))
    );
    let bytes = canvas_psd(1, 30001, &[(0, 0, vec![9])]);
    assert_eq!(
        decode(&bytes),
        Err(Error::Header(HeaderError::HeightOutOfRange(30001)))
    );
}

#[test]
fn width_out_of_range_fails() {
    let bytes = canvas_psd(0, 1, &[(0, 0, vec![])]);
    assert_eq!(
        decode(&bytes),
        Err(Error::Header(HeaderError::WidthOutOfRange(0)))
    );
}

#[test]
fn depth_errors_are_distinguished() {
    let bytes = canvas_psd(1, 1, &[(0, 0, vec![9])]);
    let mut unsupported = bytes.clone();
    unsupported[22] = 16;
    assert_eq!(
        decode(&unsupported),
        Err(Error::Depth(DepthError::UnsupportedDepth))
    );
    let mut invalid = bytes.clone();
    invalid[22] = 7;
    assert_eq!(
        decode(&invalid),
        Err(Error::Depth(DepthError::InvalidDepth(7)))
    );
}

#[test]
fn invalid_color_mode_fails() {
    let mut bytes = canvas_psd(1, 1, &[(0, 0, vec![9])]);
    bytes[24] = 5;
    assert_eq!(
        decode(&bytes),
        Err(Error::Header(HeaderError::InvalidColorMode(5)))
    );
}

#[test]
fn invalid_channel_id_fails() {
    let bytes = canvas_psd(1, 1, &[(3, 0, vec![9])]);
    assert_eq!(decode(&bytes), Err(Error::Channel(ChannelError::InvalidId(3))));
}

#[test]
fn invalid_compression_code_fails() {
    let bytes = canvas_psd(1, 1, &[(0, 2, vec![9])]);
    assert_eq!(
        decode(&bytes),
        Err(Error::Channel(ChannelError::InvalidCompression(2)))
    );
}

#[test]
fn duplicate_channel_fails() {
    let bytes = canvas_psd(1, 1, &[(0, 0, vec![9]), (0, 0, vec![9])]);
    assert_eq!(
        decode(&bytes),
        Err(Error::Channel(ChannelError::DuplicateChannel(
            PsdChannelKind::Red
        )))
    );
}

#[test]
fn raw_payload_of_wrong_length_fails() {
    let bytes = canvas_psd(1, 2, &[(0, 0, vec![9])]);
    assert_eq!(
        decode(&bytes),
        Err(Error::Header(HeaderError::InvalidFileError))
    );
}

#[test]
fn malformed_rle_payload_fails() {
    // A literal run announcing three bytes but holding one.
    let bytes = canvas_psd(2, 2, &[(0, 1, vec![2, 9])]);
    assert_eq!(
        decode(&bytes),
        Err(Error::Channel(ChannelError::MalformedRleStream))
    );
}

#[test]
fn compression_reports_how_channels_were_stored() {
    let bytes = canvas_psd(
        2,
        2,
        &[(0, 0, vec![10, 20, 30, 40]), (1, 1, vec![3, 5, 6, 7, 8])],
    );
    let psd = decode(&bytes).unwrap();
    assert_eq!(
        psd.compression(PsdChannelKind::Red),
        Ok(PsdChannelCompression::RawData)
    );
    assert_eq!(
        psd.compression(PsdChannelKind::Green),
        Ok(PsdChannelCompression::RleCompressed)
    );
    assert_eq!(
        psd.compression(PsdChannelKind::Blue),
        Err(ChannelError::NotFound(PsdChannelKind::Blue))
    );
}

#[test]
fn rle_channel_composites_to_decoded_samples() {
    // Green stored as a literal run of 5, 6, 7, 8.
    let bytes = canvas_psd(
        2,
        2,
        &[(0, 0, vec![10, 20, 30, 40]), (1, 1, vec![3, 5, 6, 7, 8])],
    );
    let psd = decode(&bytes).unwrap();
    let rgba = psd.rgba().unwrap();
    assert_eq!(
        rgba,
        vec![10, 5, 0, 255, 20, 6, 0, 255, 30, 7, 0, 255, 40, 8, 0, 255]
    );
}

#[test]
fn rgba_without_red_fails_with_not_found_red() {
    let bytes = canvas_psd(1, 1, &[(1, 0, vec![9])]);
    let psd = decode(&bytes).unwrap();
    assert_eq!(
        psd.rgba(),
        Err(Error::Channel(ChannelError::NotFound(PsdChannelKind::Red)))
    );
}

/// An image with one layer: the layer record announces one raw Red
/// channel holding one byte per canvas pixel, and the canvas holds its
/// own raw Red channel.
fn one_layer_psd(
    width: u32,
    height: u32,
    rect: (i32, i32, i32, i32),
    name: &str,
    layer_red: Vec<u8>,
    canvas_red: Vec<u8>,
) -> Vec<u8> {
    let mut v = header_bytes(1, height, width, 8, 3);
    push_u16(&mut v, 1);
    let (top, left, bottom, right) = rect;
    push_i32(&mut v, top);
    push_i32(&mut v, left);
    push_i32(&mut v, bottom);
    push_i32(&mut v, right);
    push_u16(&mut v, 1);
    push_i16(&mut v, 0);
    push_u32(&mut v, (layer_red.len() + 2) as u32);
    v.push(name.len() as u8);
    v.extend_from_slice(name.as_bytes());
    push_u16(&mut v, 0);
    v.extend_from_slice(&layer_red);
    push_i16(&mut v, 0);
    push_u32(&mut v, (canvas_red.len() + 2) as u32);
    push_u16(&mut v, 0);
    v.extend_from_slice(&canvas_red);
    v
}

#[test]
fn layer_geometry_and_name() {
    let bytes = one_layer_psd(
        3,
        2,
        (1, 1, 1, 2),
        "hi",
        vec![1, 2, 3, 4, 5, 6],
        vec![9, 9, 9, 9, 9, 9],
    );
    let psd = decode(&bytes).unwrap();
    assert_eq!(psd.layers().len(), 1);
    let layer = &psd.layers()[0];
    assert_eq!(layer.name(), "hi");
    assert_eq!(layer.width(), 2);
    assert_eq!(layer.height(), 1);
    assert_eq!(
        layer.compression(PsdChannelKind::Red),
        Ok(PsdChannelCompression::RawData)
    );
    assert_eq!(
        layer.compression(PsdChannelKind::TransparencyMask),
        Err(ChannelError::NotFound(PsdChannelKind::TransparencyMask))
    );
}

#[test]
fn layer_rgba_remaps_into_canvas_buffers() {
    // Canvas 3 wide, 2 tall; the layer covers columns 1..=2 of row 1.
    // Its pixels sit at canvas indexes 4 and 5 of the full-canvas
    // channel buffer 1, 2, 3, 4, 5, 6.
    let bytes = one_layer_psd(
        3,
        2,
        (1, 1, 1, 2),
        "hi",
        vec![1, 2, 3, 4, 5, 6],
        vec![9, 9, 9, 9, 9, 9],
    );
    let psd = decode(&bytes).unwrap();
    let layer = &psd.layers()[0];
    let rgba = layer.rgba().unwrap();
    assert_eq!(rgba.len(), 2 * 1 * 4);
    assert_eq!(rgba, vec![5, 0, 0, 255, 6, 0, 0, 255]);
}

#[test]
fn layer_rect_outside_canvas_fails() {
    let bytes = one_layer_psd(
        2,
        2,
        (0, 0, 1, 2),
        "x",
        vec![1, 2, 3, 4],
        vec![9, 9, 9, 9],
    );
    assert_eq!(
        decode(&bytes),
        Err(Error::Header(HeaderError::InvalidFileError))
    );
}

#[test]
fn decode_and_composite_twice_are_identical() {
    let bytes = canvas_psd(
        2,
        2,
        &[(0, 0, vec![10, 20, 30, 40]), (1, 1, vec![3, 5, 6, 7, 8])],
    );
    let psd1 = decode(&bytes).unwrap();
    let psd2 = decode(&bytes).unwrap();
    let r1 = psd1.rgba().unwrap();
    let r2 = psd1.rgba().unwrap();
    let r3 = psd2.rgba().unwrap();
    assert_eq!(r1, r2);
    assert_eq!(r1, r3);
}

#[test]
fn compositing_never_alters_stored_channels() {
    let bytes = canvas_psd(
        2,
        2,
        &[(0, 0, vec![10, 20, 30, 40]), (1, 1, vec![3, 5, 6, 7, 8])],
    );
    let psd = decode(&bytes).unwrap();
    let red_before = psd.get_channel(PsdChannelKind::Red).unwrap().stored().clone();
    let green_before = psd
        .get_channel(PsdChannelKind::Green)
        .unwrap()
        .stored()
        .clone();
    let _ = psd.rgba().unwrap();
    assert_eq!(
        psd.compression(PsdChannelKind::Red),
        Ok(PsdChannelCompression::RawData)
    );
    assert_eq!(
        psd.compression(PsdChannelKind::Green),
        Ok(PsdChannelCompression::RleCompressed)
    );
    assert_eq!(psd.get_channel(PsdChannelKind::Red).unwrap().stored(), &red_before);
    assert_eq!(
        psd.get_channel(PsdChannelKind::Green).unwrap().stored(),
        &green_before
    );
    assert_eq!(red_before, vec![10, 20, 30, 40]);
    assert_eq!(green_before, vec![3, 5, 6, 7, 8]);
}

#[test]
fn two_layers_keep_file_order() {
    // Canvas 2 wide, 1 tall. Layer "a" covers column 0, layer "b"
    // column 1; payloads follow in record order, then the canvas
    // channel.
    let mut v = header_bytes(1, 1, 2, 8, 3);
    push_u16(&mut v, 2);
    for (name, left) in [("a", 0i32), ("b", 1i32)] {
        push_i32(&mut v, 0);
        push_i32(&mut v, left);
        push_i32(&mut v, 0);
        push_i32(&mut v, left);
        push_u16(&mut v, 1);
        push_i16(&mut v, 0);
        push_u32(&mut v, 4);
        v.push(name.len() as u8);
        v.extend_from_slice(name.as_bytes());
    }
    for data in [[1u8, 2], [3, 4]] {
        push_u16(&mut v, 0);
        v.extend_from_slice(&data);
    }
    push_i16(&mut v, 0);
    push_u32(&mut v, 4);
    push_u16(&mut v, 0);
    v.extend_from_slice(&[5, 6]);
    let psd = decode(&v).unwrap();
    assert_eq!(psd.layers().len(), 2);
    assert_eq!(psd.layers()[0].name(), "a");
    assert_eq!(psd.layers()[1].name(), "b");
    assert_eq!(psd.layers()[0].rgba().unwrap(), vec![1, 0, 0, 255]);
    assert_eq!(psd.layers()[1].rgba().unwrap(), vec![4, 0, 0, 255]);
    assert_eq!(psd.rgba().unwrap(), vec![5, 0, 0, 255, 6, 0, 0, 255]);
}

#[test]
fn trailing_bytes_are_ignored() {
    let mut bytes = canvas_psd(1, 1, &[(0, 0, vec![9])]);
    bytes.push(42);
    let psd = decode(&bytes).unwrap();
    assert_eq!(psd.rgba().unwrap(), vec![9, 0, 0, 255]);
}
