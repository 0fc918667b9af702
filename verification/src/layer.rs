//! The layer entity and the RGBA compositing engine.
//!
//! A [`PsdLayer`] owns one entity's geometry and channel map — either a
//! single layer's sub-rectangle of the canvas, or the whole canvas
//! itself, whose rectangle starts at the origin and spans the full
//! canvas. The same coordinate remap and pixel walk therefore serves
//! both without special cases.

use vstd::arithmetic::div_mod::lemma_fundamental_div_mod;
use vstd::arithmetic::div_mod::lemma_fundamental_div_mod_converse;
use vstd::arithmetic::div_mod::lemma_mod_bound;
use vstd::prelude::*;

use crate::channel::ChannelBytes;
use crate::channel::ChannelMap;
use crate::channel::PsdChannelCompression;
use crate::channel::PsdChannelKind;
use crate::error::ChannelError;
use crate::error::Error;
use crate::rle::lemma_rle_decode_len;
use crate::rle::rle_decompress;

verus! {

/// The largest canvas width or height the format supports.
pub const MAX_DIMENSION: u32 = 30000;

/// The sample substituted for an absent Green or Blue channel.
pub const MISSING_COLOR_SAMPLE: u8 = 0;

/// The sample substituted for an absent transparency channel: fully
/// opaque.
pub const MISSING_ALPHA_SAMPLE: u8 = 255;

/// One compositable entity: a name, a bounding rectangle in canvas
/// coordinates, the canvas dimensions it sits in, and at most one
/// stored channel per kind. Frozen once decoding has filled it.
#[derive(Debug, PartialEq, Eq)]
pub struct PsdLayer {
    name: String,
    channels: ChannelMap,
    layer_top: i32,
    layer_left: i32,
    layer_bottom: i32,
    layer_right: i32,
    psd_width: u32,
    psd_height: u32,
}

impl PsdLayer {
    /// The characters of this entity's name.
    pub closed spec fn name_spec(&self) -> Seq<char> {
        self.name@
    }

    /// The rectangle's top row, in canvas coordinates.
    pub closed spec fn top_spec(&self) -> int {
        self.layer_top as int
    }

    /// The rectangle's leftmost column, in canvas coordinates.
    pub closed spec fn left_spec(&self) -> int {
        self.layer_left as int
    }

    /// The rectangle's bottom row, in canvas coordinates.
    pub closed spec fn bottom_spec(&self) -> int {
        self.layer_bottom as int
    }

    /// The rectangle's rightmost column, in canvas coordinates.
    pub closed spec fn right_spec(&self) -> int {
        self.layer_right as int
    }

    /// The width of the whole canvas this entity sits in.
    pub closed spec fn psd_width_spec(&self) -> int {
        self.psd_width as int
    }

    /// The height of the whole canvas this entity sits in.
    pub closed spec fn psd_height_spec(&self) -> int {
        self.psd_height as int
    }

    /// The channel stored under a kind, if any.
    pub closed spec fn channel_spec(&self, kind: PsdChannelKind) -> Option<ChannelBytes> {
        self.channels.get_spec(kind)
    }

    /// The rectangle is inclusive: left 0 and right 4 make width 5.
    pub open spec fn width_spec(&self) -> int {
        self.right_spec() - self.left_spec() + 1
    }

    /// The rectangle is inclusive: top 0 and bottom 3 make height 4.
    pub open spec fn height_spec(&self) -> int {
        self.bottom_spec() - self.top_spec() + 1
    }

    /// The number of pixels of the whole canvas; every stored channel
    /// holds one byte per canvas pixel.
    pub open spec fn canvas_area_spec(&self) -> int {
        self.psd_width_spec() * self.psd_height_spec()
    }

    /// The rectangle sits inside its canvas, and the canvas dimensions
    /// are in the supported range.
    pub open spec fn rect_wf(&self) -> bool {
        &&& 0 <= self.left_spec() <= self.right_spec() < self.psd_width_spec()
        &&& 0 <= self.top_spec() <= self.bottom_spec() < self.psd_height_spec()
        &&& self.psd_width_spec() <= MAX_DIMENSION as int
        &&& self.psd_height_spec() <= MAX_DIMENSION as int
    }

    /// Every stored channel is well-formed for this canvas: raw bytes
    /// hold one byte per canvas pixel, and a compressed stream expands
    /// to one byte per canvas pixel.
    pub open spec fn channels_wf(&self) -> bool {
        forall|k: PsdChannelKind|
            match #[trigger] self.channel_spec(k) {
                Some(cb) => cb.wf(self.canvas_area_spec()),
                None => true,
            }
    }

    /// A fully valid entity, as decoding constructs it.
    pub open spec fn wf(&self) -> bool {
        self.rect_wf() && self.channels_wf()
    }

    /// Create a layer with the given name and geometry and no channels
    /// yet. The metadata parser fills the channels in afterwards.
    pub fn new(
        name: String,
        layer_top: i32,
        layer_left: i32,
        layer_bottom: i32,
        layer_right: i32,
        psd_width: u32,
        psd_height: u32,
    ) -> (r: PsdLayer)
        requires
            0 <= layer_left <= layer_right < psd_width,
            0 <= layer_top <= layer_bottom < psd_height,
            psd_width <= MAX_DIMENSION,
            psd_height <= MAX_DIMENSION,
        ensures
            r.name_spec() == name@,
            r.top_spec() == layer_top,
            r.left_spec() == layer_left,
            r.bottom_spec() == layer_bottom,
            r.right_spec() == layer_right,
            r.psd_width_spec() == psd_width,
            r.psd_height_spec() == psd_height,
            forall|k: PsdChannelKind| #[trigger] r.channel_spec(k) is None,
            r.wf(),
    {
        PsdLayer {
            name,
            channels: ChannelMap::new(),
            layer_top,
            layer_left,
            layer_bottom,
            layer_right,
            psd_width,
            psd_height,
        }
    }

    /// Store a channel under a kind, replacing nothing else. Only the
    /// metadata parser calls this, while the entity is being built.
    pub(crate) fn insert_channel(&mut self, kind: PsdChannelKind, bytes: ChannelBytes)
        requires
            bytes.wf(old(self).canvas_area_spec()),
        ensures
            final(self).channel_spec(kind) == Some(bytes),
            forall|k: PsdChannelKind|
                k != kind ==> #[trigger] final(self).channel_spec(k) == old(self).channel_spec(k),
            final(self).name_spec() == old(self).name_spec(),
            final(self).top_spec() == old(self).top_spec(),
            final(self).left_spec() == old(self).left_spec(),
            final(self).bottom_spec() == old(self).bottom_spec(),
            final(self).right_spec() == old(self).right_spec(),
            final(self).psd_width_spec() == old(self).psd_width_spec(),
            final(self).psd_height_spec() == old(self).psd_height_spec(),
            old(self).wf() ==> final(self).wf(),
    {
        self.channels.insert(kind, bytes);
        proof {
            if old(self).wf() {
                assert forall|k: PsdChannelKind|
                    match #[trigger] self.channel_spec(k) {
                        Some(cb) => cb.wf(self.canvas_area_spec()),
                        None => true,
                    } by {
                    if k != kind {
                        assert(self.channel_spec(k) == old(self).channel_spec(k));
                        assert(match old(self).channel_spec(k) {
                            Some(cb) => cb.wf(old(self).canvas_area_spec()),
                            None => true,
                        });
                    }
                }
            }
        }
    }

    /// The name of the layer; the whole-canvas entity's name is empty.
    pub fn name(&self) -> (r: &str)
        ensures
            r@ == self.name_spec(),
    {
        self.name.as_str()
    }

    /// The width of the entity's own rectangle.
    pub fn width(&self) -> (w: u16)
        requires
            self.rect_wf(),
        ensures
            w == self.width_spec(),
    {
        ((self.layer_right - self.layer_left) as u16) + 1
    }

    /// The height of the entity's own rectangle.
    pub fn height(&self) -> (h: u16)
        requires
            self.rect_wf(),
        ensures
            h == self.height_spec(),
    {
        ((self.layer_bottom - self.layer_top) as u16) + 1
    }

    /// How the channel stored under a kind was stored on the wire; a
    /// kind this entity does not hold fails with `NotFound` carrying
    /// that kind.
    pub fn compression(&self, channel: PsdChannelKind) -> (r: Result<
        PsdChannelCompression,
        ChannelError,
    >)
        ensures
            r == match self.channel_spec(channel) {
                Some(cb) => Result::<PsdChannelCompression, ChannelError>::Ok(
                    cb.compression_spec(),
                ),
                None => Result::<PsdChannelCompression, ChannelError>::Err(
                    ChannelError::NotFound(channel),
                ),
            },
    {
        match self.channels.get(channel) {
            Some(cb) => Ok(cb.compression()),
            None => Err(ChannelError::NotFound(channel)),
        }
    }

    /// Borrow the channel stored under a kind, if any.
    pub fn get_channel(&self, channel: PsdChannelKind) -> (r: Option<&ChannelBytes>)
        ensures
            match r {
                Some(cb) => self.channel_spec(channel) == Some(*cb),
                None => self.channel_spec(channel) is None,
            },
    {
        self.channels.get(channel).as_ref()
    }

    /// The number of pixels of the whole canvas this entity sits in.
    pub fn canvas_area(&self) -> (r: usize)
        requires
            self.rect_wf(),
        ensures
            r == self.canvas_area_spec(),
    {
        canvas_area_exec(self.psd_width, self.psd_height)
    }

    /// Where a local pixel index of this entity's rectangle lands in a
    /// full-canvas channel buffer: the row of the index, offset by the
    /// rectangle's top, times the canvas width, plus the column of the
    /// index, offset by the rectangle's left.
    pub open spec fn canvas_index_spec(&self, idx: int) -> int {
        (idx / self.width_spec() + self.top_spec()) * self.psd_width_spec() + (idx
            % self.width_spec()) + self.left_spec()
    }

    /// Remap a local pixel index into the whole canvas. The result is
    /// always inside the canvas's own pixel range.
    pub fn canvas_index(&self, idx: usize) -> (r: usize)
        requires
            self.rect_wf(),
            idx < self.width_spec() * self.height_spec(),
        ensures
            r == self.canvas_index_spec(idx as int),
            r < self.canvas_area_spec(),
    {
        let w = self.width() as usize;
        proof {
            lemma_mod_bound(idx as int, w as int);
            assert(0 <= (idx as int) / (w as int) < self.height_spec()) by (nonlinear_arith)
                requires
                    0 <= (idx as int) < (w as int) * self.height_spec(),
                    0 < (w as int),
            ;
        }
        let left_in_layer = idx % w;
        let left_in_canvas = (self.layer_left as usize) + left_in_layer;
        let top_in_canvas = idx / w + (self.layer_top as usize);
        proof {
            assert((top_in_canvas as int) * (self.psd_width as int) + (left_in_canvas as int) < (
            self.psd_width as int) * (self.psd_height as int) <= 900000000) by (nonlinear_arith)
                requires
                    0 <= (top_in_canvas as int) < (self.psd_height as int),
                    0 <= (left_in_canvas as int) < (self.psd_width as int),
                    self.psd_width as int <= MAX_DIMENSION as int,
                    self.psd_height as int <= MAX_DIMENSION as int,
            ;
        }
        top_in_canvas * (self.psd_width as usize) + left_in_canvas
    }
}

/// The coordinate remap is injective over the entity's own pixel
/// range: two distinct local indexes never land on the same canvas
/// position.
pub proof fn lemma_canvas_index_injective(layer: PsdLayer, i: int, j: int)
    requires
        layer.rect_wf(),
        0 <= i < layer.width_spec() * layer.height_spec(),
        0 <= j < layer.width_spec() * layer.height_spec(),
        i != j,
    ensures
        layer.canvas_index_spec(i) != layer.canvas_index_spec(j),
{
    let w = layer.width_spec();
    let pw = layer.psd_width_spec();
    lemma_fundamental_div_mod(i, w);
    lemma_fundamental_div_mod(j, w);
    lemma_mod_bound(i, w);
    lemma_mod_bound(j, w);
    let ri = i / w;
    let ci = i % w;
    let rj = j / w;
    let cj = j % w;
    if ri == rj {
        assert(ci != cj);
    } else {
        assert((ri + layer.top_spec()) * pw + ci != (rj + layer.top_spec()) * pw + cj)
            by (nonlinear_arith)
            requires
                ri != rj,
                0 <= ci < w <= pw,
                0 <= cj < w <= pw,
        ;
    }
}

/// The coordinate remap stays inside the rectangle the entity
/// declares: the canvas row of every remapped index lies between the
/// rectangle's top and bottom, and the canvas column between its left
/// and right.
pub proof fn lemma_canvas_index_in_rect(layer: PsdLayer, i: int)
    requires
        layer.rect_wf(),
        0 <= i < layer.width_spec() * layer.height_spec(),
    ensures
        layer.top_spec() <= layer.canvas_index_spec(i) / layer.psd_width_spec()
            <= layer.bottom_spec(),
        layer.left_spec() <= layer.canvas_index_spec(i) % layer.psd_width_spec()
            <= layer.right_spec(),
{
    let w = layer.width_spec();
    let pw = layer.psd_width_spec();
    lemma_mod_bound(i, w);
    assert(i / w < layer.height_spec()) by (nonlinear_arith)
        requires
            0 <= i < w * layer.height_spec(),
            0 < w,
    ;
    assert(i / w >= 0) by (nonlinear_arith)
        requires
            0 <= i,
            0 < w,
    ;
    let row = i / w + layer.top_spec();
    let col = i % w + layer.left_spec();
    lemma_fundamental_div_mod_converse(row * pw + col, pw, row, col);
}

/// The coordinate remap covers the whole rectangle the entity
/// declares: every canvas position between the rectangle's corners is
/// hit by a local index of the entity's own range.
pub proof fn lemma_canvas_index_covers(layer: PsdLayer, row: int, col: int)
    requires
        layer.rect_wf(),
        layer.top_spec() <= row <= layer.bottom_spec(),
        layer.left_spec() <= col <= layer.right_spec(),
    ensures
        ({
            let i = (row - layer.top_spec()) * layer.width_spec() + (col - layer.left_spec());
            0 <= i < layer.width_spec() * layer.height_spec() && layer.canvas_index_spec(i) == row
                * layer.psd_width_spec() + col
        }),
{
    let w = layer.width_spec();
    let h = layer.height_spec();
    let lr = row - layer.top_spec();
    let lc = col - layer.left_spec();
    let i = lr * w + lc;
    assert(0 <= lr * w + lc && lr * w + lc < w * h) by (nonlinear_arith)
        requires
            0 <= lr < h,
            0 <= lc < w,
    ;
    lemma_fundamental_div_mod_converse(i, w, lr, lc);
}

impl PsdLayer {
    /// The sample the compositing engine reads for a kind at a canvas
    /// position: the stored channel's expanded byte there, or the
    /// fallback when the entity does not hold that kind.
    pub open spec fn sample_spec(&self, kind: PsdChannelKind, fallback: u8, ci: int) -> u8 {
        match self.channel_spec(kind) {
            Some(cb) => cb.decoded_spec(self.canvas_area_spec())[ci],
            None => fallback,
        }
    }

    /// The byte at position `j` of the composited RGBA sequence: the
    /// pixel is `j / 4`, remapped into the canvas, and `j % 4` selects
    /// red, green, blue or alpha, in that fixed order.
    pub open spec fn rgba_byte_spec(&self, j: int) -> u8 {
        let ci = self.canvas_index_spec(j / 4);
        if j % 4 == 0 {
            self.sample_spec(PsdChannelKind::Red, MISSING_COLOR_SAMPLE, ci)
        } else if j % 4 == 1 {
            self.sample_spec(PsdChannelKind::Green, MISSING_COLOR_SAMPLE, ci)
        } else if j % 4 == 2 {
            self.sample_spec(PsdChannelKind::Blue, MISSING_COLOR_SAMPLE, ci)
        } else {
            self.sample_spec(PsdChannelKind::TransparencyMask, MISSING_ALPHA_SAMPLE, ci)
        }
    }

    /// One channel's expanded full-canvas buffer, or a buffer of the
    /// fallback sample when the entity does not hold the kind.
    fn channel_or_fill(&self, kind: PsdChannelKind, fallback: u8) -> (r: Vec<u8>)
        requires
            self.wf(),
        ensures
            r@.len() == self.canvas_area_spec(),
            forall|ci: int|
                0 <= ci < r@.len() ==> r@[ci] == self.sample_spec(kind, fallback, ci),
    {
        let area = canvas_area_exec(self.psd_width, self.psd_height);
        proof {
            assert(match self.channel_spec(kind) {
                Some(cb) => cb.wf(self.canvas_area_spec()),
                None => true,
            });
        }
        match self.channels.get(kind) {
            Some(cb) => match cb {
                ChannelBytes::RawData(v) => copy_bytes(v),
                ChannelBytes::RleCompressed(v) => {
                    proof {
                        lemma_rle_decode_len(v@, area as int);
                    }
                    match rle_decompress(v.as_slice(), area) {
                        Ok(decoded) => decoded,
                        Err(_) => vstd::pervasive::unreached(),
                    }
                },
            },
            None => fill_bytes(fallback, area),
        }
    }

    /// Compose the entity's channels into one interleaved RGBA byte
    /// sequence, four bytes per pixel of the entity's own rectangle.
    /// The Red channel is required: without it the call fails with
    /// `NotFound` for Red, and succeeds otherwise. Absent Green and
    /// Blue channels read as `MISSING_COLOR_SAMPLE`, an absent
    /// transparency channel as `MISSING_ALPHA_SAMPLE`. Compositing
    /// reads the frozen entity only, so equal states always yield
    /// byte-identical output.
    pub fn rgba(&self) -> (r: Result<Vec<u8>, Error>)
        requires
            self.wf(),
        ensures
            match r {
                Ok(v) => {
                    &&& self.channel_spec(PsdChannelKind::Red) is Some
                    &&& v@.len() == self.width_spec() * self.height_spec() * 4
                    &&& forall|j: int| 0 <= j < v@.len() ==> v@[j] == self.rgba_byte_spec(j)
                },
                Err(e) => {
                    &&& self.channel_spec(PsdChannelKind::Red) is None
                    &&& e == Error::Channel(ChannelError::NotFound(PsdChannelKind::Red))
                },
            },
    {
        if self.get_channel(PsdChannelKind::Red).is_none() {
            return Err(Error::Channel(ChannelError::NotFound(PsdChannelKind::Red)));
        }
        let red = self.channel_or_fill(PsdChannelKind::Red, MISSING_COLOR_SAMPLE);
        let green = self.channel_or_fill(PsdChannelKind::Green, MISSING_COLOR_SAMPLE);
        let blue = self.channel_or_fill(PsdChannelKind::Blue, MISSING_COLOR_SAMPLE);
        let alpha = self.channel_or_fill(PsdChannelKind::TransparencyMask, MISSING_ALPHA_SAMPLE);
        let w = self.width() as usize;
        let h = self.height() as usize;
        proof {
            assert((w as int) * (h as int) <= 900000000) by (nonlinear_arith)
                requires
                    0 <= w as int <= MAX_DIMENSION as int,
                    0 <= h as int <= MAX_DIMENSION as int,
            ;
        }
        let pixels: usize = w * h;
        let mut out: Vec<u8> = Vec::new();
        let mut idx: usize = 0;
        while idx < pixels
            invariant
                self.wf(),
                self.channel_spec(PsdChannelKind::Red) is Some,
                idx <= pixels,
                pixels == self.width_spec() * self.height_spec(),
                pixels <= 900000000,
                red@.len() == self.canvas_area_spec(),
                green@.len() == self.canvas_area_spec(),
                blue@.len() == self.canvas_area_spec(),
                alpha@.len() == self.canvas_area_spec(),
                forall|ci: int|
                    0 <= ci < red@.len() ==> red@[ci] == self.sample_spec(
                        PsdChannelKind::Red,
                        MISSING_COLOR_SAMPLE,
                        ci,
                    ),
                forall|ci: int|
                    0 <= ci < green@.len() ==> green@[ci] == self.sample_spec(
                        PsdChannelKind::Green,
                        MISSING_COLOR_SAMPLE,
                        ci,
                    ),
                forall|ci: int|
                    0 <= ci < blue@.len() ==> blue@[ci] == self.sample_spec(
                        PsdChannelKind::Blue,
                        MISSING_COLOR_SAMPLE,
                        ci,
                    ),
                forall|ci: int|
                    0 <= ci < alpha@.len() ==> alpha@[ci] == self.sample_spec(
                        PsdChannelKind::TransparencyMask,
                        MISSING_ALPHA_SAMPLE,
                        ci,
                    ),
                out@.len() == 4 * idx,
                forall|j: int| 0 <= j < out@.len() ==> out@[j] == self.rgba_byte_spec(j),
            decreases pixels - idx,
        {
            let ci = self.canvas_index(idx);
            out.push(red[ci]);
            out.push(green[ci]);
            out.push(blue[ci]);
            out.push(alpha[ci]);
            proof {
                let base = 4 * idx as int;
                lemma_fundamental_div_mod_converse(base, 4, idx as int, 0);
                lemma_fundamental_div_mod_converse(base + 1, 4, idx as int, 1);
                lemma_fundamental_div_mod_converse(base + 2, 4, idx as int, 2);
                lemma_fundamental_div_mod_converse(base + 3, 4, idx as int, 3);
            }
            idx += 1;
        }
        proof {
            assert(out@.len() == self.width_spec() * self.height_spec() * 4);
        }
        Ok(out)
    }
}

/// Compositing is a pure function of the frozen entity: any two byte
/// sequences that meet the composite's description for the same entity
/// state are byte-identical. Together with the exact contract of
/// `rgba`, composing the same entity twice therefore yields the same
/// bytes both times; the entity itself is never altered, since `rgba`
/// only reads it through a shared borrow.
pub proof fn lemma_rgba_unique(layer: PsdLayer, v1: Seq<u8>, v2: Seq<u8>)
    requires
        v1.len() == layer.width_spec() * layer.height_spec() * 4,
        forall|j: int| 0 <= j < v1.len() ==> v1[j] == layer.rgba_byte_spec(j),
        v2.len() == layer.width_spec() * layer.height_spec() * 4,
        forall|j: int| 0 <= j < v2.len() ==> v2[j] == layer.rgba_byte_spec(j),
    ensures
        v1 == v2,
{
    assert(v1 =~= v2);
}

/// The number of pixels of a canvas, as the compositing engine
/// computes it.
fn canvas_area_exec(psd_width: u32, psd_height: u32) -> (r: usize)
    requires
        psd_width <= MAX_DIMENSION,
        psd_height <= MAX_DIMENSION,
    ensures
        r == psd_width * psd_height,
{
    proof {
        assert((psd_width as int) * (psd_height as int) <= 900000000) by (nonlinear_arith)
            requires
                0 <= psd_width <= MAX_DIMENSION,
                0 <= psd_height <= MAX_DIMENSION,
        ;
    }
    (psd_width as usize) * (psd_height as usize)
}

/// A fresh copy of a stored byte buffer; compositing never mutates the
/// stored bytes themselves.
fn copy_bytes(v: &Vec<u8>) -> (r: Vec<u8>)
    ensures
        r@ == v@,
{
    let mut out: Vec<u8> = Vec::new();
    let mut i: usize = 0;
    while i < v.len()
        invariant
            i <= v@.len(),
            out@ == v@.take(i as int),
        decreases v@.len() - i,
    {
        out.push(v[i]);
        proof {
            assert(out@ =~= v@.take(i + 1));
        }
        i += 1;
    }
    proof {
        assert(v@.take(v@.len() as int) =~= v@);
    }
    out
}

/// A buffer of `n` copies of one fallback sample.
fn fill_bytes(value: u8, n: usize) -> (r: Vec<u8>)
    ensures
        r@.len() == n,
        forall|i: int| 0 <= i < n ==> r@[i] == value,
{
    let mut out: Vec<u8> = Vec::new();
    let mut i: usize = 0;
    while i < n
        invariant
            i <= n,
            out@.len() == i,
            forall|j: int| 0 <= j < i ==> out@[j] == value,
        decreases n - i,
    {
        out.push(value);
        i += 1;
    }
    out
}

/// One layer's metadata as the layer table announces it, read before
/// the layer's channel bytes: a name, the ordered per-kind byte-length
/// table, and the bounding rectangle in canvas coordinates.
#[derive(Debug, PartialEq, Eq)]
pub struct LayerRecord {
    /// The name of the layer.
    pub(crate) name: String,
    /// The channel kinds this record announces and the number of bytes
    /// stored for each, in the order the payloads follow in the stream.
    pub(crate) channel_data_lengths: Vec<(PsdChannelKind, u32)>,
    /// The position of the top of the rectangle.
    pub(crate) top: i32,
    /// The position of the left of the rectangle.
    pub(crate) left: i32,
    /// The position of the bottom of the rectangle.
    pub(crate) bottom: i32,
    /// The position of the right of the rectangle.
    pub(crate) right: i32,
}

impl LayerRecord {
    /// The characters of the name this record announces.
    pub closed spec fn name_spec(&self) -> Seq<char> {
        self.name@
    }

    /// The announced (kind, byte length) table, in stream order.
    pub closed spec fn table_spec(&self) -> Seq<(PsdChannelKind, u32)> {
        self.channel_data_lengths@
    }

    /// The rectangle's top row, in canvas coordinates.
    pub closed spec fn top_spec(&self) -> int {
        self.top as int
    }

    /// The rectangle's leftmost column, in canvas coordinates.
    pub closed spec fn left_spec(&self) -> int {
        self.left as int
    }

    /// The rectangle's bottom row, in canvas coordinates.
    pub closed spec fn bottom_spec(&self) -> int {
        self.bottom as int
    }

    /// The rectangle's rightmost column, in canvas coordinates.
    pub closed spec fn right_spec(&self) -> int {
        self.right as int
    }

    /// Assemble a record from its parsed parts.
    pub fn new(
        name: String,
        channel_data_lengths: Vec<(PsdChannelKind, u32)>,
        top: i32,
        left: i32,
        bottom: i32,
        right: i32,
    ) -> (r: LayerRecord)
        ensures
            r.name_spec() == name@,
            r.table_spec() == channel_data_lengths@,
            r.top_spec() == top,
            r.left_spec() == left,
            r.bottom_spec() == bottom,
            r.right_spec() == right,
    {
        LayerRecord { name, channel_data_lengths, top, left, bottom, right }
    }

    /// The name this record announces.
    pub fn name(&self) -> (r: &String)
        ensures
            r@ == self.name_spec(),
    {
        &self.name
    }

    /// The announced (kind, byte length) table, in stream order.
    pub fn table(&self) -> (r: &Vec<(PsdChannelKind, u32)>)
        ensures
            r@ == self.table_spec(),
    {
        &self.channel_data_lengths
    }

    /// The rectangle's top row, in canvas coordinates.
    pub fn top(&self) -> (r: i32)
        ensures
            r == self.top_spec(),
    {
        self.top
    }

    /// The rectangle's leftmost column, in canvas coordinates.
    pub fn left(&self) -> (r: i32)
        ensures
            r == self.left_spec(),
    {
        self.left
    }

    /// The rectangle's bottom row, in canvas coordinates.
    pub fn bottom(&self) -> (r: i32)
        ensures
            r == self.bottom_spec(),
    {
        self.bottom
    }

    /// The rectangle's rightmost column, in canvas coordinates.
    pub fn right(&self) -> (r: i32)
        ensures
            r == self.right_spec(),
    {
        self.right
    }

    /// The height of this record's rectangle; the rectangle is
    /// inclusive, so top 0 and bottom 3 make height 4.
    pub fn height(&self) -> (r: i32)
        requires
            0 <= self.top_spec() <= self.bottom_spec() < MAX_DIMENSION as int,
        ensures
            r == self.bottom_spec() - self.top_spec() + 1,
    {
        (self.bottom - self.top) + 1
    }
}

} // verus!
