//! Textures: flat row-major pixel grids sampled with clamped, nearest-
//! neighbor lookup, and the decoding of palette-indexed images into color
//! textures.

use vstd::prelude::*;
use crate::fx::{FX_ONE, spec_mul, spec_sub, div_trunc, fx_clamp, fx_mul, fx_sub};
use crate::math::{Float2, Float3};

verus! {

/// Largest texture side length accepted by the sampler, so that fixed-point
/// texel coordinates stay exact.
pub const TEXTURE_LIMIT: usize = 32768;

/// A texture of pixels of type `T`: a flat row-major grid.
#[derive(Debug, Clone)]
pub struct Texture<T> {
    /// Width of the texture in pixels.
    pub width: usize,
    /// Height of the texture in pixels.
    pub height: usize,
    /// The pixels, row by row from the top.
    pub image: Vec<T>,
}

impl<T> Texture<T> {
    /// Whether the pixel buffer matches the dimensions and the sampler's
    /// limits hold.
    pub open spec fn wf(self) -> bool {
        self.image@.len() == self.width * self.height && 1 <= self.width <= TEXTURE_LIMIT && 1
            <= self.height <= TEXTURE_LIMIT
    }
}

/// The texel column sampled for texture coordinate `u`: `u` is clamped to
/// `[0, 1]`, scaled by `size - 1`, truncated to a whole texel, and clamped
/// into the grid.
pub open spec fn spec_texel(u: int, size: int) -> int {
    let c = if u < 0 {
        0int
    } else if u > FX_ONE as int {
        FX_ONE as int
    } else {
        u
    };
    let scaled = spec_mul(c, (size - 1) * (FX_ONE as int));
    let t = scaled / (FX_ONE as int);
    if t > size - 1 {
        size - 1
    } else if t < 0 {
        0int
    } else {
        t
    }
}

/// The pixel returned by a clamped nearest-neighbor sample at `(u, v)`.
pub open spec fn spec_sample<T>(t: Texture<T>, uv: Float2) -> T {
    let x = spec_texel(uv.x as int, t.width as int);
    let y = spec_texel(spec_sub(FX_ONE as int, uv.y as int), t.height as int);
    t.image@[y * t.width + x]
}

impl<T: Copy + Default> Texture<T> {
    /// Create a texture filled with the pixel type's default value.
    pub fn new(width: usize, height: usize) -> (r: Texture<T>)
        requires
            1 <= width <= TEXTURE_LIMIT,
            1 <= height <= TEXTURE_LIMIT,
        ensures
            r.wf(),
            r.width == width,
            r.height == height,
    {
        let fill: T = T::default();
        Texture::new_filled(width, height, fill)
    }
}

impl<T: Copy> Texture<T> {
    /// Create a texture filled with one value.
    pub fn new_filled(width: usize, height: usize, fill: T) -> (r: Texture<T>)
        requires
            1 <= width <= TEXTURE_LIMIT,
            1 <= height <= TEXTURE_LIMIT,
        ensures
            r.wf(),
            r.width == width,
            r.height == height,
            forall|i: int| 0 <= i < r.image@.len() ==> r.image@[i] == fill,
    {
        proof {
            lemma_texture_area(width as int, height as int);
        }
        let n: usize = width * height;
        let mut image: Vec<T> = Vec::new();
        let mut k: usize = 0;
        while k < n
            invariant
                k <= n,
                image@.len() == k,
                forall|i: int| 0 <= i < k ==> image@[i] == fill,
            decreases n - k,
        {
            image.push(fill);
            k = k + 1;
        }
        Texture { width, height, image }
    }

    /// Overwrite every pixel with one value, keeping the dimensions.
    pub fn fill(&mut self, value: T)
        ensures
            final(self).width == old(self).width,
            final(self).height == old(self).height,
            final(self).image@.len() == old(self).image@.len(),
            forall|i: int| 0 <= i < final(self).image@.len() ==> final(self).image@[i] == value,
    {
        let n: usize = self.image.len();
        let mut k: usize = 0;
        while k < n
            invariant
                k <= n,
                self.image@.len() == n,
                self.width == old(self).width,
                self.height == old(self).height,
                forall|i: int| 0 <= i < k ==> self.image@[i] == value,
            decreases n - k,
        {
            self.image.set(k, value);
            k = k + 1;
        }
    }

    /// Sample the texture at coordinates `(u, v)` in `[0, 1] x [0, 1]` with
    /// nearest-neighbor lookup. The coordinates are clamped into range, and
    /// `v` is flipped: texture space grows upward while storage grows
    /// downward.
    pub fn sample(&self, texture_coord: Float2) -> (r: T)
        requires
            self.wf(),
        ensures
            r == spec_sample(*self, texture_coord),
    {
        let x: usize = texel(texture_coord.x, self.width);
        let y: usize = texel(fx_sub(FX_ONE, texture_coord.y), self.height);
        proof {
            assert(y * self.width + x < self.width * self.height && y * self.width + x
                < 0x40000000) by (nonlinear_arith)
                requires
                    0 <= x < self.width as int,
                    0 <= y < self.height as int,
                    self.width <= 32768,
                    self.height <= 32768,
            ;
        }
        self.image[y * self.width + x]
    }
}

/// The pixel count of a texture within the accepted side lengths fits in
/// the address space.
proof fn lemma_texture_area(width: int, height: int)
    requires
        1 <= width <= 32768,
        1 <= height <= 32768,
    ensures
        width * height <= 0x40000000,
        width * height >= 1,
{
    assert(width * height <= 0x40000000 && width * height >= 1) by (nonlinear_arith)
        requires
            1 <= width <= 32768,
            1 <= height <= 32768,
    ;
}

/// The texel index for one coordinate.
fn texel(u: i64, size: usize) -> (r: usize)
    requires
        1 <= size <= TEXTURE_LIMIT,
    ensures
        r as int == spec_texel(u as int, size as int),
        r < size,
{
    let c: i64 = fx_clamp(u, 0, FX_ONE);
    let sfx: i64 = ((size - 1) as i64) * FX_ONE;
    let scaled: i64 = fx_mul(c, sfx);
    proof {
        assert((c as int) * (sfx as int) >= 0) by (nonlinear_arith)
            requires c as int >= 0, sfx as int >= 0,
        ;
    }
    let t: i64 = ((scaled as u64) / 65536) as i64;
    let t2: i64 = if t > (size - 1) as i64 {
        (size - 1) as i64
    } else if t < 0 {
        0
    } else {
        t
    };
    t2 as usize
}

/// Decode the palette-indexed pixels of an image into a color texture: each
/// byte selects a palette entry of three bytes, red, green, blue, each
/// rescaled from `[0, 255]` into `[0, 1]`.
pub open spec fn spec_palette_color(palette: Seq<u8>, index: int) -> Float3 {
    Float3 {
        x: spec_byte_unit(palette[3 * index]),
        y: spec_byte_unit(palette[3 * index + 1]),
        z: spec_byte_unit(palette[3 * index + 2]),
    }
}

/// A byte rescaled from `[0, 255]` into the fixed-point unit interval.
pub open spec fn spec_byte_unit(b: u8) -> i64 {
    div_trunc((b as int) * (FX_ONE as int), 255) as i64
}

/// Rescale a byte from `[0, 255]` into the fixed-point unit interval.
pub fn byte_unit(b: u8) -> (r: i64)
    ensures
        r == spec_byte_unit(b),
        0 <= r <= FX_ONE,
{
    let v: i64 = (((b as u64) * 65536) / 255) as i64;
    proof {
        assert(div_trunc((b as int) * (FX_ONE as int), 255) == ((b as int) * (FX_ONE as int))
            / 255);
    }
    v
}

/// What decoding a palette-indexed PNG stream yields: the image's width and
/// height, its one index byte per pixel, and its palette bytes — or nothing,
/// when the stream does not decode to an eight-bit indexed image with a
/// palette. The decode depends on the bytes alone.
pub uninterp spec fn png_indexed_of(bytes: Seq<u8>) -> Option<(int, int, Seq<u8>, Seq<u8>)>;

/// Relies on png's decoder: decode a palette-indexed image from the bytes
/// of a PNG stream into its dimensions, its one index byte per pixel, and
/// its palette of byte triples. The decode is a pure function of the bytes,
/// named by [`png_indexed_of`]; nothing more is promised of the decoded
/// data, which the caller validates.
#[verifier::external_body]
fn decode_indexed_png(bytes: &Vec<u8>) -> (r: Option<(usize, usize, Vec<u8>, Vec<u8>)>)
    ensures
        r is Some <==> png_indexed_of(bytes@) is Some,
        r matches Some(t) ==> (png_indexed_of(bytes@) matches Some(d) && t.0 as int == d.0
            && t.1 as int == d.1 && t.2@ == d.2 && t.3@ == d.3),
{
    let mut reader = match png::Decoder::new(bytes.as_slice()).read_info() {
        Ok(reader) => reader,
        Err(_) => return None,
    };
    let mut buf = vec![0u8; reader.output_buffer_size()];
    let info = match reader.next_frame(&mut buf) { Ok(info) => info, Err(_) => return None };
    match (info.color_type, info.bit_depth) {
        (png::ColorType::Indexed, png::BitDepth::Eight) => {}
        _ => return None,
    }
    buf.truncate(info.buffer_size());
    let palette = match &reader.info().palette { Some(p) => p.to_vec(), None => return None };
    Some((info.width as usize, info.height as usize, buf, palette))
}

impl Texture<Float3> {
    /// Decode a color texture from the bytes of a palette-indexed PNG
    /// stream. Returns a texture exactly when the stream decodes, as named
    /// by [`png_indexed_of`], and the decoded data is consistent; the
    /// texture's pixels are the palette colors the decoded indices select.
    pub fn from_png(bytes: &Vec<u8>) -> (r: Option<Texture<Float3>>)
        ensures
            r is Some <==> (png_indexed_of(bytes@) matches Some(d) && spec_indexed_ok(
                d.0,
                d.1,
                d.2,
                d.3,
            )),
            r matches Some(t) ==> (png_indexed_of(bytes@) matches Some(d) && t.wf() && t.width
                as int == d.0 && t.height as int == d.1 && t.image@.len() == d.2.len() && (forall|
                i: int,
            |
                0 <= i < d.2.len() ==> t.image@[i] == spec_palette_color(d.3, d.2[i] as int))),
    {
        match decode_indexed_png(bytes) {
            None => None,
            Some((width, height, pixels, palette)) => texture_from_indexed(
                width,
                height,
                &pixels,
                &palette,
            ),
        }
    }
}

/// Whether decoded image data describes a texture the library can hold: the
/// dimensions lie within the sampler's limits, there is one index byte per
/// texel, and every index selects a whole triple inside the palette.
pub open spec fn spec_indexed_ok(w: int, h: int, pixels: Seq<u8>, palette: Seq<u8>) -> bool {
    1 <= w <= TEXTURE_LIMIT && 1 <= h <= TEXTURE_LIMIT && pixels.len() == w * h && (forall|i: int|
        0 <= i < pixels.len() ==> 3 * (pixels[i] as int) + 3 <= palette.len())
}

/// Build a color texture from palette-indexed pixels: `pixels` must hold one
/// byte per texel of a `width` by `height` grid, each indexing a triple in
/// `palette`. Returns `None` exactly when the dimensions or an index do not
/// fit.
pub fn texture_from_indexed(
    width: usize,
    height: usize,
    pixels: &Vec<u8>,
    palette: &Vec<u8>,
) -> (r: Option<Texture<Float3>>)
    ensures
        r is Some <==> spec_indexed_ok(width as int, height as int, pixels@, palette@),
        r matches Some(t) ==> t.wf() && t.width == width && t.height == height && forall|i: int|
            0 <= i < pixels@.len() ==> t.image@[i] == spec_palette_color(
                palette@,
                pixels@[i] as int,
            ),
{
    if width < 1 || width > TEXTURE_LIMIT || height < 1 || height > TEXTURE_LIMIT {
        return None;
    }
    proof {
        lemma_texture_area(width as int, height as int);
    }
    let n: usize = width * height;
    if pixels.len() != n {
        return None;
    }
    let mut image: Vec<Float3> = Vec::new();
    let mut k: usize = 0;
    while k < n
        invariant
            k <= n,
            n == width * height,
            pixels@.len() == n,
            image@.len() == k,
            forall|i: int| 0 <= i < k ==> 3 * (pixels@[i] as int) + 3 <= palette@.len(),
            forall|i: int|
                0 <= i < k ==> image@[i] == spec_palette_color(palette@, pixels@[i] as int),
        decreases n - k,
    {
        let b: usize = pixels[k] as usize;
        if 3 * b + 3 > palette.len() {
            return None;
        }
        let color: Float3 = Float3 {
            x: byte_unit(palette[3 * b]),
            y: byte_unit(palette[3 * b + 1]),
            z: byte_unit(palette[3 * b + 2]),
        };
        image.push(color);
        k = k + 1;
    }
    Some(Texture { width, height, image })
}

} // verus!
