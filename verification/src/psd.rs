//! The whole-image aggregate and the single decoding entry point.
//!
//! Decoding reads the fixed header, the layer record table, each
//! record's announced channel payloads, and the canvas-level channel
//! section, and yields a frozen [`Psd`] — or the first failure, with
//! nothing partially constructed ever observable.

use vstd::prelude::*;

use crate::channel::ChannelBytes;
use crate::channel::PsdChannelCompression;
use crate::channel::PsdChannelKind;
use crate::error::ChannelError;
use crate::error::Error;
use crate::error::HeaderError;
use crate::header::spec_parse_header;
use crate::header::parse_header;
use crate::header::PsdHeader;
use crate::header::HEADER_LEN;
use crate::layer::LayerRecord;
use crate::layer::PsdLayer;
use crate::layer::MAX_DIMENSION;
use crate::rle::rle_decode_spec;
use crate::rle::rle_decompress;
use crate::wire::be_i32;
use crate::wire::be_u16;
use crate::wire::be_u32;
use crate::wire::be_i16;
use crate::wire::chars_of_bytes;
use crate::wire::copy_range;
use crate::wire::read_i32;
use crate::wire::read_u16;
use crate::wire::read_u32;
use crate::wire::read_i16;
use crate::wire::read_name;

verus! {

/// The mathematical shape of one stored channel: how it was stored and
/// the stored bytes themselves, without the two-byte compression code.
#[verifier::ext_equal]
pub ghost struct ChannelBytesModel {
    pub compression: PsdChannelCompression,
    pub stored: Seq<u8>,
}

impl ChannelBytes {
    /// The mathematical shape of this storage.
    pub open spec fn model(&self) -> ChannelBytesModel {
        ChannelBytesModel { compression: self.compression_spec(), stored: self.stored_spec() }
    }
}

/// The mathematical shape of one layer record as announced in the
/// layer table.
#[verifier::ext_equal]
pub ghost struct RecordModel {
    pub name: Seq<char>,
    pub table: Seq<(PsdChannelKind, u32)>,
    pub top: int,
    pub left: int,
    pub bottom: int,
    pub right: int,
}

impl LayerRecord {
    /// The mathematical shape of this record.
    pub open spec fn model(&self) -> RecordModel {
        RecordModel {
            name: self.name_spec(),
            table: self.table_spec(),
            top: self.top_spec(),
            left: self.left_spec(),
            bottom: self.bottom_spec(),
            right: self.right_spec(),
        }
    }
}

/// The mathematical shape of one decoded layer.
#[verifier::ext_equal]
pub ghost struct LayerModel {
    pub name: Seq<char>,
    pub top: int,
    pub left: int,
    pub bottom: int,
    pub right: int,
    pub channels: Map<PsdChannelKind, ChannelBytesModel>,
}

impl PsdLayer {
    /// The channels this entity holds, as a mathematical map.
    pub open spec fn channels_model(&self) -> Map<PsdChannelKind, ChannelBytesModel> {
        Map::new(
            |k: PsdChannelKind| self.channel_spec(k) is Some,
            |k: PsdChannelKind| self.channel_spec(k)->Some_0.model(),
        )
    }

    /// The mathematical shape of this entity.
    pub open spec fn model(&self) -> LayerModel {
        LayerModel {
            name: self.name_spec(),
            top: self.top_spec(),
            left: self.left_spec(),
            bottom: self.bottom_spec(),
            right: self.right_spec(),
            channels: self.channels_model(),
        }
    }
}

/// The mathematical shape of a fully decoded image: the header, the
/// canvas-level channels, and the layers in file order.
#[verifier::ext_equal]
pub ghost struct PsdModel {
    pub header: PsdHeader,
    pub canvas_channels: Map<PsdChannelKind, ChannelBytesModel>,
    pub layers: Seq<LayerModel>,
}

/// What parsing `n` channel-table entries at `pos` yields: the
/// announced (kind, byte length) pairs in stream order and the
/// position after the table, or the first failure.
pub open spec fn spec_parse_table(s: Seq<u8>, pos: int, n: int) -> Result<
    (Seq<(PsdChannelKind, u32)>, int),
    Error,
>
    decreases n,
{
    if n <= 0 {
        Ok((Seq::<(PsdChannelKind, u32)>::empty(), pos))
    } else if pos + 6 > s.len() {
        Err(Error::Header(HeaderError::InvalidFileError))
    } else {
        let id = be_i16(s, pos) as i16;
        match PsdChannelKind::kind_of_spec(id) {
            None => Err(Error::Channel(ChannelError::InvalidId(id))),
            Some(kind) => {
                let len = be_u32(s, pos + 2) as u32;
                match spec_parse_table(s, pos + 6, n - 1) {
                    Ok((rest, end)) => Ok((seq![(kind, len)] + rest, end)),
                    Err(e) => Err(e),
                }
            },
        }
    }
}

/// What parsing one layer record at `pos` yields: its rectangle, its
/// channel table, its length-prefixed name and the position after the
/// record, or the first failure.
pub open spec fn spec_parse_record(s: Seq<u8>, pos: int) -> Result<(RecordModel, int), Error> {
    if pos + 18 > s.len() {
        Err(Error::Header(HeaderError::InvalidFileError))
    } else {
        let top = be_i32(s, pos);
        let left = be_i32(s, pos + 4);
        let bottom = be_i32(s, pos + 8);
        let right = be_i32(s, pos + 12);
        let n = be_u16(s, pos + 16);
        match spec_parse_table(s, pos + 18, n) {
            Err(e) => Err(e),
            Ok((table, p2)) => {
                if p2 + 1 > s.len() {
                    Err(Error::Header(HeaderError::InvalidFileError))
                } else {
                    let name_len = s[p2] as int;
                    if p2 + 1 + name_len > s.len() {
                        Err(Error::Header(HeaderError::InvalidFileError))
                    } else {
                        Ok(
                            (
                                RecordModel {
                                    name: chars_of_bytes(s.subrange(p2 + 1, p2 + 1 + name_len)),
                                    table,
                                    top,
                                    left,
                                    bottom,
                                    right,
                                },
                                p2 + 1 + name_len,
                            ),
                        )
                    }
                }
            },
        }
    }
}

/// What parsing `n` layer records at `pos` yields: their shapes in
/// file order and the position after the table, or the first failure.
pub open spec fn spec_parse_records(s: Seq<u8>, pos: int, n: int) -> Result<
    (Seq<RecordModel>, int),
    Error,
>
    decreases n,
{
    if n <= 0 {
        Ok((Seq::<RecordModel>::empty(), pos))
    } else {
        match spec_parse_record(s, pos) {
            Err(e) => Err(e),
            Ok((rec, p2)) => match spec_parse_records(s, p2, n - 1) {
                Err(e) => Err(e),
                Ok((rest, end)) => Ok((seq![rec] + rest, end)),
            },
        }
    }
}

/// What reading the announced channel payloads from entry `i` of a
/// channel table onward yields, given the channels `acc` already read:
/// the finished channel map and the position after the payloads, or
/// the first failure. Each payload is a two-byte compression code and
/// the announced length minus two bytes of channel data; a duplicate
/// kind, a length the input cannot hold, an unrecognized code, raw
/// data that is not one byte per canvas pixel, or a compressed stream
/// that does not expand to one byte per canvas pixel all fail.
pub open spec fn spec_parse_channels(
    s: Seq<u8>,
    pos: int,
    table: Seq<(PsdChannelKind, u32)>,
    i: int,
    area: int,
    acc: Map<PsdChannelKind, ChannelBytesModel>,
) -> Result<(Map<PsdChannelKind, ChannelBytesModel>, int), Error>
    decreases table.len() - i,
{
    if i < 0 || i >= table.len() {
        Ok((acc, pos))
    } else {
        let kind = table[i].0;
        let len = table[i].1 as int;
        if acc.dom().contains(kind) {
            Err(Error::Channel(ChannelError::DuplicateChannel(kind)))
        } else if len < 2 {
            Err(Error::Header(HeaderError::InvalidFileError))
        } else if pos + len > s.len() {
            Err(Error::Header(HeaderError::InvalidFileError))
        } else {
            let code = be_u16(s, pos) as u16;
            let stored = s.subrange(pos + 2, pos + len);
            match PsdChannelCompression::compression_of_spec(code) {
                None => Err(Error::Channel(ChannelError::InvalidCompression(code))),
                Some(PsdChannelCompression::RawData) => {
                    if len - 2 != area {
                        Err(Error::Header(HeaderError::InvalidFileError))
                    } else {
                        spec_parse_channels(
                            s,
                            pos + len,
                            table,
                            i + 1,
                            area,
                            acc.insert(
                                kind,
                                ChannelBytesModel {
                                    compression: PsdChannelCompression::RawData,
                                    stored,
                                },
                            ),
                        )
                    }
                },
                Some(PsdChannelCompression::RleCompressed) => {
                    if rle_decode_spec(stored, area) is None {
                        Err(Error::Channel(ChannelError::MalformedRleStream))
                    } else {
                        spec_parse_channels(
                            s,
                            pos + len,
                            table,
                            i + 1,
                            area,
                            acc.insert(
                                kind,
                                ChannelBytesModel {
                                    compression: PsdChannelCompression::RleCompressed,
                                    stored,
                                },
                            ),
                        )
                    }
                },
            }
        }
    }
}

/// True when a record's rectangle sits inside the canvas the header
/// declares.
pub open spec fn spec_rect_valid(m: RecordModel, header: PsdHeader) -> bool {
    &&& 0 <= m.left <= m.right < header.width as int
    &&& 0 <= m.top <= m.bottom < header.height as int
}

/// What turning the layer records from index `i` onward into layers
/// yields, reading each record's announced payloads in record order
/// starting at `pos`: the layer shapes and the position after the last
/// payload, or the first failure. A rectangle outside the canvas
/// fails.
pub open spec fn spec_parse_layers(
    s: Seq<u8>,
    pos: int,
    recs: Seq<RecordModel>,
    i: int,
    header: PsdHeader,
) -> Result<(Seq<LayerModel>, int), Error>
    decreases recs.len() - i,
{
    if i < 0 || i >= recs.len() {
        Ok((Seq::<LayerModel>::empty(), pos))
    } else {
        let rec = recs[i];
        if !spec_rect_valid(rec, header) {
            Err(Error::Header(HeaderError::InvalidFileError))
        } else {
            match spec_parse_channels(
                s,
                pos,
                rec.table,
                0,
                header.width as int * header.height as int,
                Map::<PsdChannelKind, ChannelBytesModel>::empty(),
            ) {
                Err(e) => Err(e),
                Ok((channels, p2)) => match spec_parse_layers(s, p2, recs, i + 1, header) {
                    Err(e) => Err(e),
                    Ok((rest, end)) => Ok(
                        (
                            seq![
                                LayerModel {
                                    name: rec.name,
                                    top: rec.top,
                                    left: rec.left,
                                    bottom: rec.bottom,
                                    right: rec.right,
                                    channels,
                                },
                            ] + rest,
                            end,
                        ),
                    ),
                },
            }
        }
    }
}

/// What decoding a whole input yields: the image's mathematical shape,
/// or the first failure. After the header come a two-byte layer count,
/// the layer records, each record's payloads in record order, and the
/// canvas-level channel table and payloads, sized by the header's
/// channel count.
pub open spec fn spec_decode(s: Seq<u8>) -> Result<PsdModel, Error> {
    match spec_parse_header(s) {
        Err(e) => Err(e),
        Ok(header) => {
            if s.len() < HEADER_LEN + 2 {
                Err(Error::Header(HeaderError::InvalidFileError))
            } else {
                let n = be_u16(s, HEADER_LEN as int);
                match spec_parse_records(s, HEADER_LEN as int + 2, n) {
                    Err(e) => Err(e),
                    Ok((recs, p1)) => match spec_parse_layers(s, p1, recs, 0, header) {
                        Err(e) => Err(e),
                        Ok((layers, p2)) => match spec_parse_table(
                            s,
                            p2,
                            header.channel_count as int,
                        ) {
                            Err(e) => Err(e),
                            Ok((table, p3)) => match spec_parse_channels(
                                s,
                                p3,
                                table,
                                0,
                                header.width as int * header.height as int,
                                Map::<PsdChannelKind, ChannelBytesModel>::empty(),
                            ) {
                                Err(e) => Err(e),
                                Ok((canvas_channels, _)) => Ok(
                                    PsdModel { header, canvas_channels, layers },
                                ),
                            },
                        },
                    },
                }
            }
        },
    }
}

/// Read `n` channel-table entries at `pos`.
fn parse_table(bytes: &[u8], pos: usize, n: u16) -> (r: Result<(Vec<(PsdChannelKind, u32)>, usize), Error>)
    requires
        pos <= bytes@.len(),
    ensures
        match spec_parse_table(bytes@, pos as int, n as int) {
            Ok((t, end)) => r matches Ok(p) && p.0@ == t && p.1 == end && pos <= p.1 <= bytes@.len(),
            Err(e) => r == Result::<(Vec<(PsdChannelKind, u32)>, usize), Error>::Err(e),
        },
    decreases n,
{
    if n == 0 {
        return Ok((Vec::new(), pos));
    }
    if bytes.len() - pos < 6 {
        return Err(Error::Header(HeaderError::InvalidFileError));
    }
    let id = read_i16(bytes, pos);
    let kind = match PsdChannelKind::new(id) {
        Ok(k) => k,
        Err(e) => {
            return Err(Error::Channel(e));
        },
    };
    let len = read_u32(bytes, pos + 2);
    match parse_table(bytes, pos + 6, n - 1) {
        Err(e) => Err(e),
        Ok((rest, end)) => {
            let ghost rest0 = rest@;
            let mut v = rest;
            v.insert(0, (kind, len));
            proof {
                assert(v@ =~= seq![(kind, len)] + rest0);
            }
            Ok((v, end))
        },
    }
}

/// Read one layer record at `pos`.
fn parse_record(bytes: &[u8], pos: usize) -> (r: Result<(LayerRecord, usize), Error>)
    requires
        pos <= bytes@.len(),
    ensures
        match spec_parse_record(bytes@, pos as int) {
            Ok((m, end)) => r matches Ok(p) && p.0.model() == m && p.1 == end && pos <= p.1
                <= bytes@.len(),
            Err(e) => r == Result::<(LayerRecord, usize), Error>::Err(e),
        },
{
    if bytes.len() - pos < 18 {
        return Err(Error::Header(HeaderError::InvalidFileError));
    }
    let top = read_i32(bytes, pos);
    let left = read_i32(bytes, pos + 4);
    let bottom = read_i32(bytes, pos + 8);
    let right = read_i32(bytes, pos + 12);
    let n = read_u16(bytes, pos + 16);
    let (table, p2) = match parse_table(bytes, pos + 18, n) {
        Ok(p) => p,
        Err(e) => {
            return Err(e);
        },
    };
    if bytes.len() - p2 < 1 {
        return Err(Error::Header(HeaderError::InvalidFileError));
    }
    let name_len = bytes[p2] as usize;
    if bytes.len() - (p2 + 1) < name_len {
        return Err(Error::Header(HeaderError::InvalidFileError));
    }
    let name = read_name(bytes, p2 + 1, p2 + 1 + name_len);
    let record = LayerRecord::new(name, table, top, left, bottom, right);
    proof {
        let (m, _) = spec_parse_record(bytes@, pos as int)->Ok_0;
        assert(record.model() =~~= m);
    }
    Ok((record, p2 + 1 + name_len))
}

/// Read `n` layer records at `pos`.
fn parse_records(bytes: &[u8], pos: usize, n: u16) -> (r: Result<(Vec<LayerRecord>, usize), Error>)
    requires
        pos <= bytes@.len(),
    ensures
        match spec_parse_records(bytes@, pos as int, n as int) {
            Ok((ms, end)) => r matches Ok(p) && p.0@.len() == ms.len() && (forall|i: int|
                0 <= i < ms.len() ==> (#[trigger] p.0@[i]).model() == ms[i]) && p.1 == end && pos
                <= p.1 <= bytes@.len(),
            Err(e) => r == Result::<(Vec<LayerRecord>, usize), Error>::Err(e),
        },
    decreases n,
{
    if n == 0 {
        return Ok((Vec::new(), pos));
    }
    let (record, p2) = match parse_record(bytes, pos) {
        Ok(p) => p,
        Err(e) => {
            return Err(e);
        },
    };
    match parse_records(bytes, p2, n - 1) {
        Err(e) => Err(e),
        Ok((rest, end)) => {
            let mut v = rest;
            v.insert(0, record);
            Ok((v, end))
        },
    }
}

/// True when two layer states share name, rectangle and canvas
/// dimensions — everything but the channels.
pub open spec fn same_shape(a: PsdLayer, b: PsdLayer) -> bool {
    &&& a.name_spec() == b.name_spec()
    &&& a.top_spec() == b.top_spec()
    &&& a.left_spec() == b.left_spec()
    &&& a.bottom_spec() == b.bottom_spec()
    &&& a.right_spec() == b.right_spec()
    &&& a.psd_width_spec() == b.psd_width_spec()
    &&& a.psd_height_spec() == b.psd_height_spec()
}

/// Read the announced payloads of one channel table from entry `i`
/// onward into a layer under construction, in table order.
fn fill_layer_channels(
    bytes: &[u8],
    pos: usize,
    table: &Vec<(PsdChannelKind, u32)>,
    i: usize,
    layer: &mut PsdLayer,
) -> (r: Result<usize, Error>)
    requires
        pos <= bytes@.len(),
        i <= table@.len(),
        old(layer).wf(),
    ensures
        match spec_parse_channels(
            bytes@,
            pos as int,
            table@,
            i as int,
            old(layer).canvas_area_spec(),
            old(layer).channels_model(),
        ) {
            Ok((m, end)) => r matches Ok(p) && p == end && pos <= end <= bytes@.len()
                && final(layer).channels_model() == m && final(layer).wf()
                && same_shape(*final(layer), *old(layer)),
            Err(e) => r matches Err(e2) && e2 == e,
        },
    decreases table@.len() - i,
{
    if i >= table.len() {
        return Ok(pos);
    }
    let (kind, len) = table[i];
    if layer.get_channel(kind).is_some() {
        proof {
            assert(old(layer).channels_model().dom().contains(kind));
        }
        return Err(Error::Channel(ChannelError::DuplicateChannel(kind)));
    }
    proof {
        assert(!old(layer).channels_model().dom().contains(kind));
    }
    if len < 2 {
        return Err(Error::Header(HeaderError::InvalidFileError));
    }
    let len_us = len as usize;
    if bytes.len() - pos < len_us {
        return Err(Error::Header(HeaderError::InvalidFileError));
    }
    let code = read_u16(bytes, pos);
    let comp = match PsdChannelCompression::new(code) {
        Ok(c) => c,
        Err(e) => {
            return Err(Error::Channel(e));
        },
    };
    let area = layer.canvas_area();
    let stored = copy_range(bytes, pos + 2, pos + len_us);
    let ghost stored_view = stored@;
    match comp {
        PsdChannelCompression::RawData => {
            if stored.len() != area {
                return Err(Error::Header(HeaderError::InvalidFileError));
            }
            layer.insert_channel(kind, ChannelBytes::RawData(stored));
        },
        PsdChannelCompression::RleCompressed => {
            match rle_decompress(stored.as_slice(), area) {
                Ok(_) => {},
                Err(e) => {
                    return Err(Error::Channel(e));
                },
            }
            layer.insert_channel(kind, ChannelBytes::RleCompressed(stored));
        },
    }
    proof {
        let cbm = ChannelBytesModel { compression: comp, stored: stored_view };
        assert(layer.channels_model() =~= old(layer).channels_model().insert(kind, cbm));
    }
    fill_layer_channels(bytes, pos + len_us, table, i + 1, layer)
}

/// Turn the layer records from index `i` onward into layers, reading
/// each record's announced payloads in record order starting at `pos`,
/// and append them to `out` in file order.
fn parse_layers(
    bytes: &[u8],
    pos: usize,
    records: &Vec<LayerRecord>,
    i: usize,
    header: &PsdHeader,
    out: &mut Vec<PsdLayer>,
) -> (r: Result<usize, Error>)
    requires
        pos <= bytes@.len(),
        i <= records@.len(),
        1 <= header.width <= MAX_DIMENSION,
        1 <= header.height <= MAX_DIMENSION,
    ensures
        match spec_parse_layers(
            bytes@,
            pos as int,
            records@.map_values(|rec: LayerRecord| rec.model()),
            i as int,
            *header,
        ) {
            Ok((ms, end)) => r matches Ok(p) && p == end && pos <= end <= bytes@.len()
                && final(out)@.len() == old(out)@.len() + ms.len() && (forall|j: int|
                0 <= j < old(out)@.len() ==> final(out)@[j] == old(out)@[j]) && (forall|j: int|
                0 <= j < ms.len() ==> {
                    let l = #[trigger] final(out)@[old(out)@.len() + j];
                    l.model() == ms[j] && l.wf() && l.psd_width_spec() == header.width as int
                        && l.psd_height_spec() == header.height as int
                }),
            Err(e) => r matches Err(e2) && e2 == e,
        },
    decreases records@.len() - i,
{
    let ghost recs_m = records@.map_values(|r2: LayerRecord| r2.model());
    if i >= records.len() {
        return Ok(pos);
    }
    let rec = &records[i];
    let w_i32 = header.width as i32;
    let h_i32 = header.height as i32;
    let top = rec.top();
    let left = rec.left();
    let bottom = rec.bottom();
    let right = rec.right();
    if !(0 <= left && left <= right && right < w_i32 && 0 <= top && top <= bottom && bottom
        < h_i32) {
        proof {
            assert(!spec_rect_valid(recs_m[i as int], *header));
        }
        return Err(Error::Header(HeaderError::InvalidFileError));
    }
    let name = rec.name().clone();
    let mut layer = PsdLayer::new(name, top, left, bottom, right, header.width, header.height);
    proof {
        assert(layer.channels_model() =~= Map::<PsdChannelKind, ChannelBytesModel>::empty());
    }
    let p2 = match fill_layer_channels(bytes, pos, rec.table(), 0, &mut layer) {
        Ok(p) => p,
        Err(e) => {
            return Err(e);
        },
    };
    let ghost lsnap = layer;
    let ghost out0 = out@;
    out.push(layer);
    let r = parse_layers(bytes, p2, records, i + 1, header, out);
    proof {
        if r is Ok {
            let ms0 = spec_parse_layers(bytes@, pos as int, recs_m, i as int, *header)->Ok_0.0;
            let ms_rest = spec_parse_layers(bytes@, p2 as int, recs_m, i + 1, *header)->Ok_0.0;
            assert(lsnap.model() =~~= ms0[0]);
            assert forall|j: int| 0 <= j < ms0.len() implies {
                let l = #[trigger] out@[out0.len() + j];
                l.model() == ms0[j] && l.wf() && l.psd_width_spec() == header.width as int
                    && l.psd_height_spec() == header.height as int
            } by {
                if j == 0 {
                    assert(out@[out0.len() as int] == lsnap);
                } else {
                    assert(out@[out0.len() + 1 + (j - 1)].model() == ms_rest[j - 1]);
                    assert(ms0[j] == ms_rest[j - 1]);
                }
            }
        }
    }
    r
}

/// A fully decoded image: the validated header, the canvas-level
/// channels held by a whole-canvas entity, and the layers in file
/// order. Frozen once decoding has succeeded; no partial or invalid
/// state is ever observable.
#[derive(Debug, PartialEq, Eq)]
pub struct Psd {
    header: PsdHeader,
    canvas: PsdLayer,
    layers: Vec<PsdLayer>,
}

impl Psd {
    /// The validated header.
    pub closed spec fn header_spec(&self) -> PsdHeader {
        self.header
    }

    /// The whole-canvas entity holding the canvas-level channels.
    pub closed spec fn canvas_spec(&self) -> PsdLayer {
        self.canvas
    }

    /// The decoded layers, in file order.
    pub closed spec fn layers_spec(&self) -> Seq<PsdLayer> {
        self.layers@
    }

    /// A fully valid decoded image, as decoding constructs it: the
    /// canvas entity spans exactly the canvas the header declares,
    /// carries no name, and every entity is well-formed for those
    /// canvas dimensions.
    pub open spec fn wf(&self) -> bool {
        &&& 1 <= self.header_spec().width <= MAX_DIMENSION
        &&& 1 <= self.header_spec().height <= MAX_DIMENSION
        &&& self.canvas_spec().wf()
        &&& self.canvas_spec().name_spec() == Seq::<char>::empty()
        &&& self.canvas_spec().top_spec() == 0
        &&& self.canvas_spec().left_spec() == 0
        &&& self.canvas_spec().bottom_spec() == self.header_spec().height as int - 1
        &&& self.canvas_spec().right_spec() == self.header_spec().width as int - 1
        &&& self.canvas_spec().psd_width_spec() == self.header_spec().width as int
        &&& self.canvas_spec().psd_height_spec() == self.header_spec().height as int
        &&& forall|i: int|
            0 <= i < self.layers_spec().len() ==> {
                let l = #[trigger] self.layers_spec()[i];
                l.wf() && l.psd_width_spec() == self.header_spec().width as int
                    && l.psd_height_spec() == self.header_spec().height as int
            }
    }

    /// True when this decoded image has exactly the given mathematical
    /// shape.
    pub open spec fn matches(&self, m: PsdModel) -> bool {
        &&& self.header_spec() == m.header
        &&& self.canvas_spec().channels_model() == m.canvas_channels
        &&& self.layers_spec().len() == m.layers.len()
        &&& forall|i: int|
            0 <= i < m.layers.len() ==> (#[trigger] self.layers_spec()[i]).model() == m.layers[i]
    }

    /// The width of the canvas in pixels.
    pub fn width(&self) -> (r: u32)
        ensures
            r == self.header_spec().width,
    {
        self.header.width
    }

    /// The height of the canvas in pixels.
    pub fn height(&self) -> (r: u32)
        ensures
            r == self.header_spec().height,
    {
        self.header.height
    }

    /// The validated sample bit depth.
    pub fn depth(&self) -> (r: u8)
        ensures
            r == self.header_spec().depth,
    {
        self.header.depth
    }

    /// The validated color mode code.
    pub fn color_mode(&self) -> (r: u8)
        ensures
            r == self.header_spec().color_mode,
    {
        self.header.color_mode
    }

    /// The number of canvas-level channels the header announced.
    pub fn channel_count(&self) -> (r: u16)
        ensures
            r == self.header_spec().channel_count,
    {
        self.header.channel_count
    }

    /// The name of the whole-canvas entity, which is always empty.
    pub fn name(&self) -> (r: &str)
        ensures
            r@ == self.canvas_spec().name_spec(),
    {
        self.canvas.name()
    }

    /// The decoded layers, in file order.
    pub fn layers(&self) -> (r: &Vec<PsdLayer>)
        ensures
            r@ == self.layers_spec(),
    {
        &self.layers
    }

    /// How the canvas-level channel of a kind was stored; a kind the
    /// canvas does not hold fails with `NotFound` carrying that kind.
    pub fn compression(&self, channel: PsdChannelKind) -> (r: Result<
        PsdChannelCompression,
        ChannelError,
    >)
        ensures
            r == match self.canvas_spec().channel_spec(channel) {
                Some(cb) => Result::<PsdChannelCompression, ChannelError>::Ok(
                    cb.compression_spec(),
                ),
                None => Result::<PsdChannelCompression, ChannelError>::Err(
                    ChannelError::NotFound(channel),
                ),
            },
    {
        self.canvas.compression(channel)
    }

    /// Borrow the canvas-level channel stored under a kind, if any.
    pub fn get_channel(&self, channel: PsdChannelKind) -> (r: Option<&ChannelBytes>)
        ensures
            match r {
                Some(cb) => self.canvas_spec().channel_spec(channel) == Some(*cb),
                None => self.canvas_spec().channel_spec(channel) is None,
            },
    {
        self.canvas.get_channel(channel)
    }

    /// Compose the canvas-level channels into one interleaved RGBA
    /// byte sequence, four bytes per canvas pixel, exactly as the
    /// whole-canvas entity composes them.
    pub fn rgba(&self) -> (r: Result<Vec<u8>, Error>)
        requires
            self.wf(),
        ensures
            match r {
                Ok(v) => {
                    &&& self.canvas_spec().channel_spec(PsdChannelKind::Red) is Some
                    &&& v@.len() == self.canvas_spec().width_spec() * self.canvas_spec().height_spec() * 4
                    &&& forall|j: int|
                        0 <= j < v@.len() ==> v@[j] == self.canvas_spec().rgba_byte_spec(j)
                },
                Err(e) => {
                    &&& self.canvas_spec().channel_spec(PsdChannelKind::Red) is None
                    &&& e == Error::Channel(ChannelError::NotFound(PsdChannelKind::Red))
                },
            },
    {
        self.canvas.rgba()
    }
}

/// An input long enough to hold a header whose four leading bytes are
/// not the magic signature decodes to the signature-mismatch failure
/// and never to any other outcome, whatever the rest of the input
/// holds.
pub proof fn lemma_bad_signature_decode(s: Seq<u8>)
    requires
        s.len() >= HEADER_LEN,
        !crate::header::signature_ok(s),
    ensures
        spec_decode(s) == Result::<PsdModel, Error>::Err(
            Error::Header(HeaderError::InvalidSignature),
        ),
{
}

/// Decoding is deterministic: two decoded images whose shapes both
/// come from the same input are equal in shape.
pub proof fn lemma_decode_deterministic(s: Seq<u8>, p1: Psd, p2: Psd)
    requires
        spec_decode(s) is Ok,
        p1.matches(spec_decode(s)->Ok_0),
        p2.matches(spec_decode(s)->Ok_0),
    ensures
        p1.header_spec() == p2.header_spec(),
        p1.canvas_spec().channels_model() == p2.canvas_spec().channels_model(),
        p1.layers_spec().len() == p2.layers_spec().len(),
        forall|i: int|
            0 <= i < p1.layers_spec().len() ==> (#[trigger] p1.layers_spec()[i]).model()
                == p2.layers_spec()[i].model(),
{
}

/// Decode a whole in-memory image. Either every part of the input is
/// valid and the returned image has exactly the shape the spec-level
/// decoding gives it, or the call fails with exactly the spec-level
/// failure and nothing is returned.
pub fn decode(bytes: &[u8]) -> (r: Result<Psd, Error>)
    ensures
        match (r, spec_decode(bytes@)) {
            (Ok(psd), Ok(m)) => psd.wf() && psd.matches(m),
            (Err(e), Err(em)) => e == em,
            _ => false,
        },
{
    let header = match parse_header(bytes) {
        Ok(h) => h,
        Err(e) => {
            return Err(e);
        },
    };
    if bytes.len() < HEADER_LEN + 2 {
        return Err(Error::Header(HeaderError::InvalidFileError));
    }
    let layer_count = read_u16(bytes, HEADER_LEN);
    let (records, p1) = match parse_records(bytes, HEADER_LEN + 2, layer_count) {
        Ok(p) => p,
        Err(e) => {
            return Err(e);
        },
    };
    proof {
        let recs = spec_parse_records(bytes@, HEADER_LEN as int + 2, layer_count as int)->Ok_0.0;
        assert(records@.map_values(|rec: LayerRecord| rec.model()) =~= recs);
    }
    let mut layers: Vec<PsdLayer> = Vec::new();
    let p2 = match parse_layers(bytes, p1, &records, 0, &header, &mut layers) {
        Ok(p) => p,
        Err(e) => {
            return Err(e);
        },
    };
    let (table, p3) = match parse_table(bytes, p2, header.channel_count) {
        Ok(p) => p,
        Err(e) => {
            return Err(e);
        },
    };
    let mut canvas = PsdLayer::new(
        String::new(),
        0,
        0,
        (header.height - 1) as i32,
        (header.width - 1) as i32,
        header.width,
        header.height,
    );
    proof {
        assert(canvas.channels_model() =~= Map::<PsdChannelKind, ChannelBytesModel>::empty());
    }
    match fill_layer_channels(bytes, p3, &table, 0, &mut canvas) {
        Ok(_) => {},
        Err(e) => {
            return Err(e);
        },
    }
    proof {
        let m = spec_decode(bytes@)->Ok_0;
        assert forall|i: int| 0 <= i < m.layers.len() implies {
            let l = #[trigger] layers@[i];
            l.model() == m.layers[i] && l.wf() && l.psd_width_spec() == header.width as int
                && l.psd_height_spec() == header.height as int
        } by {
            assert(layers@[0 + i].model() == m.layers[i] && layers@[0 + i].wf() && layers@[0
                + i].psd_width_spec() == header.width as int && layers@[0 + i].psd_height_spec()
                == header.height as int);
        }
    }
    let psd = Psd { header, canvas, layers };
    Ok(psd)
}

} // verus!
