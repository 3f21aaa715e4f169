//! Images, texture arrays and their GPU mirrors. Decoded pixel data is
//! carried as plain RGBA bytes with its dimensions; the decoding itself is
//! the image codec's work, reached through one trusted call.
use vstd::prelude::*;
use crate::assets::RenderAsset;
use crate::pipeline::TextureFormatModel;
use crate::surface::SurfaceConfigModel;

verus! {

#[derive(Debug, Clone, Copy, PartialEq, Eq, Structural)]
pub enum PixelFormat {
    G8,
    RGBA8,
}

impl PixelFormat {
    /// How many bytes one pixel's worth of depth takes.
    pub fn depth(&self) -> (r: u32)
        ensures
            r == spec_pixel_bytes(*self),
    {
        match self {
            PixelFormat::G8 => 1,
            PixelFormat::RGBA8 => 4,
        }
    }

    /// How many bytes one pixel takes.
    pub fn bytes(&self) -> (r: u32)
        ensures
            r == spec_pixel_bytes(*self),
    {
        match self {
            PixelFormat::G8 => 1,
            PixelFormat::RGBA8 => 4,
        }
    }

    /// The texture format pixels of this format upload as.
    pub fn texture_format(&self) -> (r: TextureFormatModel)
        ensures
            r == (match *self {
                PixelFormat::G8 => TextureFormatModel::R8Unorm,
                PixelFormat::RGBA8 => TextureFormatModel::Rgba8UnormSrgb,
            }),
    {
        match self {
            PixelFormat::G8 => TextureFormatModel::R8Unorm,
            PixelFormat::RGBA8 => TextureFormatModel::Rgba8UnormSrgb,
        }
    }
}

pub open spec fn spec_pixel_bytes(p: PixelFormat) -> u32 {
    match p {
        PixelFormat::G8 => 1u32,
        PixelFormat::RGBA8 => 4u32,
    }
}

/// An image's dimensions and pixel format.
#[derive(Debug, Clone, Copy, PartialEq, Eq, Structural)]
pub struct ImageDim {
    pub width: u32,
    pub height: u32,
    pub pixel: PixelFormat,
}

impl ImageDim {
    pub open spec fn bytes_per_row_spec(&self) -> int {
        spec_pixel_bytes(self.pixel) * self.width
    }

    pub open spec fn total_bytes_spec(&self) -> int {
        self.height * self.bytes_per_row_spec()
    }

    pub fn bytes_per_row(&self) -> (r: u32)
        requires
            self.bytes_per_row_spec() <= u32::MAX,
        ensures
            r == self.bytes_per_row_spec(),
    {
        self.pixel.bytes() * self.width
    }

    pub fn total_bytes(&self) -> (r: u32)
        requires
            self.bytes_per_row_spec() <= u32::MAX,
            self.total_bytes_spec() <= u32::MAX,
        ensures
            r == self.total_bytes_spec(),
    {
        proof {
            let pb = spec_pixel_bytes(self.pixel) as int;
            let w = self.width as int;
            let h = self.height as int;
            assert(pb * w <= h * (pb * w) || h == 0) by (nonlinear_arith)
                requires
                    pb >= 1,
                    w >= 0,
                    h >= 0,
            ;
        }
        self.height * self.bytes_per_row()
    }
}

/// Borrowed raw pixel bytes with their dimensions, ready for upload.
pub struct RawImage<'a> {
    pub bytes: &'a [u8],
    pub dim: (u32, u32, u32),
    pub pixel_format: PixelFormat,
}

impl<'a> RawImage<'a> {
    pub fn new(bytes: &'a [u8], dim: (u32, u32), pixel_format: PixelFormat) -> (r: Self)
        ensures
            r.bytes@ == bytes@,
            r.dim == (dim.0, dim.1, spec_pixel_bytes(pixel_format)),
            r.pixel_format == pixel_format,
    {
        RawImage { bytes, dim: (dim.0, dim.1, pixel_format.depth()), pixel_format }
    }

    pub fn bytes_per_row(&self) -> (r: u32)
        requires
            spec_pixel_bytes(self.pixel_format) * self.dim.0 <= u32::MAX,
        ensures
            r == spec_pixel_bytes(self.pixel_format) * self.dim.0,
    {
        self.pixel_format.bytes() * self.dim.0
    }
}

/// A GPU texture's structure: its size, format and layer count. The texel
/// storage itself lives with the graphics backend.
#[derive(Debug, Clone, Copy, PartialEq, Eq, Structural)]
pub struct GpuTexture {
    pub width: u32,
    pub height: u32,
    pub format: TextureFormatModel,
    pub array_layers: u32,
}

/// Why a texture array could not be created.
#[derive(Debug, Clone, Copy, PartialEq, Eq, Structural)]
pub enum TextureArrayError {
    Empty,
    SizeMismatch,
}

impl GpuTexture {
    /// The texture a raw image uploads into: one 2D layer at the image's size
    /// and format.
    pub fn from_raw_image(raw: &RawImage, _label: Option<&str>) -> (r: GpuTexture)
        ensures
            r == (GpuTexture {
                width: raw.dim.0,
                height: raw.dim.1,
                format: match raw.pixel_format {
                    PixelFormat::G8 => TextureFormatModel::R8Unorm,
                    PixelFormat::RGBA8 => TextureFormatModel::Rgba8UnormSrgb,
                },
                array_layers: 1,
            }),
    {
        GpuTexture {
            width: raw.dim.0,
            height: raw.dim.1,
            format: raw.pixel_format.texture_format(),
            array_layers: 1,
        }
    }

    /// Decodes encoded image bytes and uploads them as one RGBA texture;
    /// `None` when the bytes decode to no image.
    pub fn from_bytes(bytes: &Vec<u8>, _label: &str) -> (r: Option<GpuTexture>)
        ensures
            match r {
                Some(t) => {
                    &&& rgba_decoded(bytes@) is Some
                    &&& t == (GpuTexture {
                        width: rgba_decoded(bytes@).unwrap().0,
                        height: rgba_decoded(bytes@).unwrap().1,
                        format: TextureFormatModel::Rgba8UnormSrgb,
                        array_layers: 1,
                    })
                },
                None => rgba_decoded(bytes@) is None,
            },
    {
        let decoded = decode_rgba(bytes);
        match decoded {
            Some(img) => {
                let raw = RawImage::new(
                    img.data.as_slice(),
                    (img.width, img.height),
                    PixelFormat::RGBA8,
                );
                Some(GpuTexture::from_raw_image(&raw, Some(_label)))
            },
            None => None,
        }
    }

    /// The layered texture a packed image array uploads into. The data must
    /// hold exactly `count` layers of the layer size, and at least one layer,
    /// or the backend would refuse the upload.
    pub fn create_texture_array(data: &Vec<u8>, dim: ImageDim, count: u32) -> (r: Result<
        GpuTexture,
        TextureArrayError,
    >)
        requires
            dim.bytes_per_row_spec() <= u32::MAX,
            dim.total_bytes_spec() <= u32::MAX,
            dim.total_bytes_spec() * count <= u32::MAX,
        ensures
            r == spec_create_texture_array(data@, dim, count),
    {
        if count == 0 {
            return Err(TextureArrayError::Empty);
        }
        let layer = total_bytes_of(dim);
        proof {
            let t = dim.total_bytes_spec();
            let c = count as int;
            assert(t <= t * c) by (nonlinear_arith)
                requires
                    t >= 0,
                    c >= 1,
            ;
        }
        if data.len() != (layer * count) as usize {
            return Err(TextureArrayError::SizeMismatch);
        }
        Ok(GpuTexture {
            width: dim.width,
            height: dim.height,
            format: dim.pixel.texture_format(),
            array_layers: count,
        })
    }

    /// The depth texture matching a surface configuration, at the fixed depth
    /// format.
    pub fn create_depth_texture(config: &SurfaceConfigModel, _label: Option<&str>) -> (r: GpuTexture)
        ensures
            r == (GpuTexture {
                width: config.width,
                height: config.height,
                format: TextureFormatModel::Depth32Float,
                array_layers: 1,
            }),
    {
        GpuTexture {
            width: config.width,
            height: config.height,
            format: TextureFormatModel::Depth32Float,
            array_layers: 1,
        }
    }
}

pub open spec fn spec_create_texture_array(data: Seq<u8>, dim: ImageDim, count: u32) -> Result<
    GpuTexture,
    TextureArrayError,
> {
    if count == 0 {
        Err(TextureArrayError::Empty)
    } else if data.len() != dim.total_bytes_spec() * count {
        Err(TextureArrayError::SizeMismatch)
    } else {
        Ok(
            GpuTexture {
                width: dim.width,
                height: dim.height,
                format: match dim.pixel {
                    PixelFormat::G8 => TextureFormatModel::R8Unorm,
                    PixelFormat::RGBA8 => TextureFormatModel::Rgba8UnormSrgb,
                },
                array_layers: count,
            },
        )
    }
}

fn total_bytes_of(dim: ImageDim) -> (r: u32)
    requires
        dim.bytes_per_row_spec() <= u32::MAX,
        dim.total_bytes_spec() <= u32::MAX,
    ensures
        r == dim.total_bytes_spec(),
{
    proof {
        let pb = spec_pixel_bytes(dim.pixel) as int;
        let w = dim.width as int;
        let h = dim.height as int;
        assert(pb * w <= h * (pb * w) || h == 0) by (nonlinear_arith)
            requires
                pb >= 1,
                w >= 0,
                h >= 0,
        ;
    }
    dim.total_bytes()
}

/// What decoding a byte stream into RGBA pixels yields: the width, height and
/// packed 8-bit RGBA bytes, or nothing when the stream is no image. The
/// result depends on the bytes alone.
pub uninterp spec fn rgba_decoded(bytes: Seq<u8>) -> Option<(u32, u32, Seq<u8>)>;

/// A decoded image: its dimensions, its packed RGBA bytes, and whether the
/// preparation pipeline should upload it.
pub struct Image {
    pub width: u32,
    pub height: u32,
    pub data: Vec<u8>,
    pub prepare: bool,
}

impl Image {
    pub fn dim(&self) -> (r: ImageDim)
        ensures
            r == (ImageDim { width: self.width, height: self.height, pixel: PixelFormat::RGBA8 }),
    {
        ImageDim { width: self.width, height: self.height, pixel: PixelFormat::RGBA8 }
    }
}

/// Relies on `image::load_from_memory` and `DynamicImage::to_rgba8`: guessing
/// the format and decoding `bytes`, then converting to 8-bit RGBA, is a
/// function of the bytes alone, and the converted buffer holds exactly
/// `4 * width * height` bytes.
#[verifier::external_body]
fn decode_rgba(bytes: &Vec<u8>) -> (r: Option<Image>)
    ensures
        match r {
            Some(img) => {
                &&& rgba_decoded(bytes@) == Some((img.width, img.height, img.data@))
                &&& img.data@.len() == 4 * img.width * img.height
                &&& img.prepare
            },
            None => rgba_decoded(bytes@) is None,
        },
{
    match image::load_from_memory(bytes) {
        Ok(img) => {
            let rgba = img.to_rgba8();
            let (width, height) = rgba.dimensions();
            Some(Image { width, height, data: rgba.into_raw(), prepare: true })
        },
        Err(_) => None,
    }
}

/// Decodes loaded bytes into an `Image` the preparation pipeline uploads.
pub struct ImageLoader;

impl ImageLoader {
    pub fn load(&self, bytes: &Vec<u8>) -> (r: Option<Image>)
        ensures
            match r {
                Some(img) => {
                    &&& rgba_decoded(bytes@) == Some((img.width, img.height, img.data@))
                    &&& img.prepare
                },
                None => rgba_decoded(bytes@) is None,
            },
    {
        decode_rgba(bytes)
    }
}

/// Decodes loaded bytes into an `Image` that is kept CPU-side: the
/// preparation pipeline leaves it alone, for images that only feed image
/// arrays.
pub struct ImageJustLoader;

impl ImageJustLoader {
    pub fn load(&self, bytes: &Vec<u8>) -> (r: Option<Image>)
        ensures
            match r {
                Some(img) => {
                    &&& rgba_decoded(bytes@) == Some((img.width, img.height, img.data@))
                    &&& !img.prepare
                },
                None => rgba_decoded(bytes@) is None,
            },
    {
        let decoded = decode_rgba(bytes);
        match decoded {
            Some(img) => Some(Image { prepare: false, ..img }),
            None => None,
        }
    }
}

impl RenderAsset for Image {
    type Prepared = GpuTexture;

    open spec fn prepare_spec(&self) -> Option<GpuTexture> {
        if self.prepare {
            Some(
                GpuTexture {
                    width: self.width,
                    height: self.height,
                    format: TextureFormatModel::Rgba8UnormSrgb,
                    array_layers: 1,
                },
            )
        } else {
            None
        }
    }

    open spec fn should_prepare_spec(&self) -> bool {
        true
    }

    /// An image marked for preparation uploads as a single-layer RGBA
    /// texture; one kept CPU-side stays out of the GPU-asset map.
    fn prepare(&self) -> (r: Option<GpuTexture>)
        ensures
            r == self.prepare_spec(),
    {
        if !self.prepare {
            return None;
        }
        let raw = RawImage::new(self.data.as_slice(), (self.width, self.height), PixelFormat::RGBA8);
        Some(GpuTexture::from_raw_image(&raw, None))
    }

    fn should_prepare(&self) -> (r: bool)
        ensures
            r == self.should_prepare_spec(),
    {
        true
    }
}

/// A packed array of equally sized images, kept as one byte buffer with the
/// shared dimensions and the layer count.
pub struct ImageArray {
    pub data: Vec<u8>,
    pub dim: ImageDim,
    pub count: u32,
}

impl ImageArray {
    pub fn new(dim: ImageDim) -> (r: Self)
        ensures
            r.data@.len() == 0,
            r.dim == dim,
            r.count == 0,
    {
        ImageArray { data: Vec::new(), dim, count: 0 }
    }

    pub fn data(&self) -> (r: &Vec<u8>)
        ensures
            r@ == self.data@,
    {
        &self.data
    }

    /// Appends one image's bytes as the next layer; the image must share the
    /// array's dimensions.
    pub fn add(&mut self, data: &Vec<u8>, dim: ImageDim)
        requires
            dim == old(self).dim,
            old(self).count < u32::MAX,
        ensures
            final(self).data@ == old(self).data@ + data@,
            final(self).dim == old(self).dim,
            final(self).count == old(self).count + 1,
    {
        let n = data.len();
        for i in 0..n
            invariant
                n == data@.len(),
                self.dim == old(self).dim,
                self.count == old(self).count,
                self.data@ == old(self).data@ + data@.subrange(0, i as int),
        {
            self.data.push(data[i]);
            proof {
                assert(self.data@ =~= old(self).data@ + data@.subrange(0, i + 1));
            }
        }
        proof {
            assert(data@.subrange(0, n as int) =~= data@);
        }
        self.count = self.count + 1;
    }

    /// Overwrites the layer at `pos` with as many bytes as both layer sizes
    /// and the incoming data allow; a position beyond the buffer changes
    /// nothing.
    pub fn overwrite(&mut self, pos: u32, data: &Vec<u8>, dim: ImageDim)
        requires
            dim.bytes_per_row_spec() <= u32::MAX,
            dim.total_bytes_spec() <= u32::MAX,
            old(self).dim.bytes_per_row_spec() <= u32::MAX,
            old(self).dim.total_bytes_spec() <= u32::MAX,
            pos * old(self).dim.total_bytes_spec() <= u32::MAX,
            pos * old(self).dim.total_bytes_spec() + old(self).dim.total_bytes_spec() <= u32::MAX,
            data@.len() <= u32::MAX,
        ensures
            final(self).dim == old(self).dim,
            final(self).count == old(self).count,
            ({
                let byte_count = spec_min(
                    spec_min(dim.total_bytes_spec(), old(self).dim.total_bytes_spec()),
                    data@.len() as int,
                );
                let start = pos * old(self).dim.total_bytes_spec();
                if start + byte_count > old(self).data@.len() {
                    final(self).data@ == old(self).data@
                } else {
                    &&& final(self).data@.len() == old(self).data@.len()
                    &&& forall|i: int| 0 <= i < old(self).data@.len()
                        ==> #[trigger] final(self).data@[i] == if start <= i < start + byte_count {
                            data@[i - start]
                        } else {
                            old(self).data@[i]
                        }
                }
            }),
    {
        let own_total = total_bytes_of2(self.dim);
        let incoming_total = total_bytes_of2(dim);
        let mut byte_count = if incoming_total < own_total {
            incoming_total
        } else {
            own_total
        };
        if (data.len() as u64) < byte_count as u64 {
            byte_count = data.len() as u32;
        }

        let start = pos * own_total;
        let end = start + byte_count;
        if (end as u64) > (self.data.len() as u64) {
            return ;
        }
        let s = start as usize;
        let n = byte_count as usize;
        proof {
            assert(self.data.len() == self.data@.len());
        }
        for i in 0..n
            invariant
                s == pos * old(self).dim.total_bytes_spec(),
                n == spec_min(
                    spec_min(dim.total_bytes_spec(), old(self).dim.total_bytes_spec()),
                    data@.len() as int,
                ),
                s + n <= self.data@.len(),
                self.data@.len() <= usize::MAX,
                n <= data@.len(),
                self.dim == old(self).dim,
                self.count == old(self).count,
                self.data@.len() == old(self).data@.len(),
                forall|j: int| 0 <= j < old(self).data@.len() && !(s <= j < s + i)
                    ==> #[trigger] self.data@[j] == old(self).data@[j],
                forall|j: int| s <= j < s + i ==> #[trigger] self.data@[j] == data@[j - s],
        {
            self.data.set(s + i, data[i]);
        }
    }
}

pub open spec fn spec_min(a: int, b: int) -> int {
    if a < b {
        a
    } else {
        b
    }
}

fn total_bytes_of2(dim: ImageDim) -> (r: u32)
    requires
        dim.bytes_per_row_spec() <= u32::MAX,
        dim.total_bytes_spec() <= u32::MAX,
    ensures
        r == dim.total_bytes_spec(),
{
    proof {
        let pb = spec_pixel_bytes(dim.pixel) as int;
        let w = dim.width as int;
        let h = dim.height as int;
        assert(pb * w <= h * (pb * w) || h == 0) by (nonlinear_arith)
            requires
                pb >= 1,
                w >= 0,
                h >= 0,
        ;
    }
    dim.total_bytes()
}

impl RenderAsset for ImageArray {
    type Prepared = GpuTexture;

    open spec fn prepare_spec(&self) -> Option<GpuTexture> {
        if self.dim.bytes_per_row_spec() <= u32::MAX && self.dim.total_bytes_spec() <= u32::MAX
            && self.dim.total_bytes_spec() * self.count <= u32::MAX {
            match spec_create_texture_array(self.data@, self.dim, self.count) {
                Ok(t) => Some(t),
                Err(_) => None,
            }
        } else {
            None
        }
    }

    open spec fn should_prepare_spec(&self) -> bool {
        true
    }

    /// An image array uploads as one layered texture once its data is whole;
    /// an empty or half-filled array is retried next frame.
    fn prepare(&self) -> (r: Option<GpuTexture>)
        ensures
            r == self.prepare_spec(),
    {
        let row64: u64 = self.dim.pixel.bytes() as u64 * self.dim.width as u64;
        if row64 > u32::MAX as u64 {
            return None;
        }
        proof {
            let r = row64 as int;
            let h = self.dim.height as int;
            assert(r * h <= 0xffff_ffff * 0xffff_ffff) by (nonlinear_arith)
                requires
                    0 <= r <= 0xffff_ffff,
                    0 <= h <= 0xffff_ffff,
            ;
            assert(self.dim.total_bytes_spec() == h * r);
            assert(h * r == r * h) by (nonlinear_arith);
        }
        let layer64: u64 = row64 * self.dim.height as u64;
        if layer64 > u32::MAX as u64 {
            return None;
        }
        proof {
            let l = layer64 as int;
            let c = self.count as int;
            assert(l * c <= 0xffff_ffff * 0xffff_ffff) by (nonlinear_arith)
                requires
                    0 <= l <= 0xffff_ffff,
                    0 <= c <= 0xffff_ffff,
            ;
            assert(self.dim.total_bytes_spec() * c == l * c);
        }
        if layer64 * (self.count as u64) > u32::MAX as u64 {
            return None;
        }
        let created = GpuTexture::create_texture_array(&self.data, self.dim, self.count);
        match created {
            Ok(t) => Some(t),
            Err(_) => None,
        }
    }

    fn should_prepare(&self) -> (r: bool)
        ensures
            r == self.should_prepare_spec(),
    {
        true
    }
}

} // verus!
