//! Two-dimensional textures: how they are sampled and what is uploaded.

use std::marker::PhantomData;
use vstd::prelude::*;

use crate::error::Error;

verus! {

/// OpenGL's name for linear filtering.
pub const LINEAR: u32 = 0x2601;

/// OpenGL's name for clamping texture coordinates to the edge.
pub const CLAMP_TO_EDGE: u32 = 0x812F;

/// OpenGL's names for pixel formats of one, two, three and four channels.
pub const RED: u32 = 0x1903;

pub const RG: u32 = 0x8227;

pub const RGB: u32 = 0x1907;

pub const RGBA: u32 = 0x1908;

/// How the bytes of a decoded picture are laid out: which channels, eight bits
/// each.
#[derive(Clone, Copy, Debug, PartialEq, Eq)]
pub enum PixelLayout {
    Luma8,
    LumaA8,
    Rgb8,
    Rgba8,
    Bgr8,
    Bgra8,
}

impl PixelLayout {
    /// The number of bytes of one pixel.
    pub open spec fn spec_channels(self) -> u8 {
        match self {
            PixelLayout::Luma8 => 1,
            PixelLayout::LumaA8 => 2,
            PixelLayout::Rgb8 | PixelLayout::Bgr8 => 3,
            PixelLayout::Rgba8 | PixelLayout::Bgra8 => 4,
        }
    }

    /// The OpenGL pixel format with as many channels as the layout.
    pub open spec fn spec_format(self) -> u32 {
        match self {
            PixelLayout::Luma8 => RED,
            PixelLayout::LumaA8 => RG,
            PixelLayout::Rgb8 | PixelLayout::Bgr8 => RGB,
            PixelLayout::Rgba8 | PixelLayout::Bgra8 => RGBA,
        }
    }

    /// The number of bytes of one pixel.
    #[verifier::when_used_as_spec(spec_channels)]
    pub fn channels(self) -> (channels: u8)
        ensures
            channels == self.spec_channels(),
    {
        match self {
            PixelLayout::Luma8 => 1,
            PixelLayout::LumaA8 => 2,
            PixelLayout::Rgb8 | PixelLayout::Bgr8 => 3,
            PixelLayout::Rgba8 | PixelLayout::Bgra8 => 4,
        }
    }

    /// The OpenGL pixel format under which the layout is uploaded.
    #[verifier::when_used_as_spec(spec_format)]
    pub fn format(self) -> (format: u32)
        ensures
            format == self.spec_format(),
    {
        match self {
            PixelLayout::Luma8 => RED,
            PixelLayout::LumaA8 => RG,
            PixelLayout::Rgb8 | PixelLayout::Bgr8 => RGB,
            PixelLayout::Rgba8 | PixelLayout::Bgra8 => RGBA,
        }
    }
}

/// A decoded picture, as the host read it: its size in pixels, its layout and
/// its bytes, row after row.
#[derive(Debug, PartialEq, Eq)]
pub struct Image {
    pub width: u32,
    pub height: u32,
    pub layout: PixelLayout,
    pub data: Vec<u8>,
}

impl Image {
    /// Whether the picture can be uploaded: both dimensions fit OpenGL's signed
    /// sizes, and there is exactly one pixel's worth of bytes for every pixel.
    pub open spec fn loadable(&self) -> bool {
        &&& self.width <= i32::MAX
        &&& self.height <= i32::MAX
        &&& self.data@.len() == self.width * self.height * self.layout.spec_channels()
    }

    /// Tells whether the picture can be uploaded.
    pub fn is_loadable(&self) -> (loadable: bool)
        ensures
            loadable == self.loadable(),
    {
        if self.width > 0x7fff_ffff || self.height > 0x7fff_ffff {
            return false;
        }
        let width: u128 = self.width as u128;
        let height: u128 = self.height as u128;
        let channels: u128 = self.layout.channels() as u128;
        assert(width * height <= 0x7fff_ffff * 0x7fff_ffff) by (nonlinear_arith)
            requires
                width <= 0x7fff_ffff,
                height <= 0x7fff_ffff,
        ;
        let pixels: u128 = width * height;
        assert(pixels * channels <= 0x7fff_ffff * 0x7fff_ffff * 4) by (nonlinear_arith)
            requires
                pixels <= 0x7fff_ffff * 0x7fff_ffff,
                channels <= 4,
        ;
        let bytes: u128 = pixels * channels;
        self.data.len() as u128 == bytes
    }
}

/// What a [`Texture2D`] holds, for contracts.
pub struct TextureView {
    pub min_filter: u32,
    pub mag_filter: u32,
    pub wrap_s: u32,
    pub wrap_t: u32,
    pub generate_mipmap: bool,
    pub width: i32,
    pub height: i32,
    pub format: u32,
    pub data: Seq<u8>,
}

/// A two-dimensional texture, ready for upload: how it is sampled, its size as
/// OpenGL takes it, its pixel format, and its bytes.
#[derive(Debug, PartialEq, Eq)]
pub struct Texture2D {
    min_filter: u32,
    mag_filter: u32,
    wrap_s: u32,
    wrap_t: u32,
    generate_mipmap: bool,
    width: i32,
    height: i32,
    format: u32,
    data: Vec<u8>,
}

impl View for Texture2D {
    type V = TextureView;

    closed spec fn view(&self) -> TextureView {
        TextureView {
            min_filter: self.min_filter,
            mag_filter: self.mag_filter,
            wrap_s: self.wrap_s,
            wrap_t: self.wrap_t,
            generate_mipmap: self.generate_mipmap,
            width: self.width,
            height: self.height,
            format: self.format,
            data: self.data@,
        }
    }
}

impl Texture2D {
    /// The texture of a picture under the given sampling: filters for
    /// minifying and magnifying, wrapping along both axes, and whether mipmaps
    /// are generated.
    pub open spec fn of(
        image: Image,
        min_filter: u32,
        mag_filter: u32,
        wrap_s: u32,
        wrap_t: u32,
        generate_mipmap: bool,
    ) -> TextureView {
        TextureView {
            min_filter,
            mag_filter,
            wrap_s,
            wrap_t,
            generate_mipmap,
            width: image.width as i32,
            height: image.height as i32,
            format: image.layout.spec_format(),
            data: image.data@,
        }
    }

    /// Describes the texture of a picture. A picture that is not loadable is
    /// refused with `ResourceLoadError`; for any other the texture holds the
    /// picture's size and bytes, the pixel format of its layout, and the
    /// sampling as given.
    pub fn new(
        image: Image,
        min_filter: u32,
        mag_filter: u32,
        wrap_s: u32,
        wrap_t: u32,
        generate_mipmap: bool,
    ) -> (r: Result<Texture2D, Error>)
        ensures
            image.loadable() ==> (r matches Ok(texture) && texture@ == Self::of(
                image,
                min_filter,
                mag_filter,
                wrap_s,
                wrap_t,
                generate_mipmap,
            )),
            !image.loadable() ==> (r matches Err(error) && error is ResourceLoadError
                && error.diagnostic() == "the picture does not match its size"@),
    {
        if !image.is_loadable() {
            return Err(Error::ResourceLoadError("the picture does not match its size".to_owned()));
        }
        Ok(
            Texture2D {
                min_filter,
                mag_filter,
                wrap_s,
                wrap_t,
                generate_mipmap,
                width: image.width as i32,
                height: image.height as i32,
                format: image.layout.format(),
                data: image.data,
            },
        )
    }

    /// The filter for minifying.
    pub fn min_filter(&self) -> (filter: u32)
        ensures
            filter == self@.min_filter,
    {
        self.min_filter
    }

    /// The filter for magnifying.
    pub fn mag_filter(&self) -> (filter: u32)
        ensures
            filter == self@.mag_filter,
    {
        self.mag_filter
    }

    /// The wrapping along the first axis.
    pub fn wrap_s(&self) -> (wrap: u32)
        ensures
            wrap == self@.wrap_s,
    {
        self.wrap_s
    }

    /// The wrapping along the second axis.
    pub fn wrap_t(&self) -> (wrap: u32)
        ensures
            wrap == self@.wrap_t,
    {
        self.wrap_t
    }

    /// Whether mipmaps are generated after the upload.
    pub fn generates_mipmap(&self) -> (mipmap: bool)
        ensures
            mipmap == self@.generate_mipmap,
    {
        self.generate_mipmap
    }

    /// The width in pixels.
    pub fn width(&self) -> (width: i32)
        ensures
            width == self@.width,
    {
        self.width
    }

    /// The height in pixels.
    pub fn height(&self) -> (height: i32)
        ensures
            height == self@.height,
    {
        self.height
    }

    /// The OpenGL pixel format of the bytes.
    pub fn format(&self) -> (format: u32)
        ensures
            format == self@.format,
    {
        self.format
    }

    /// The bytes, row after row.
    pub fn data(&self) -> (data: &Vec<u8>)
        ensures
            data@ == self@.data,
    {
        &self.data
    }
}

/// The phase of a builder's setting that has not been chosen yet.
pub struct Empty;

/// The phase of a builder's setting that has been chosen.
pub struct Fully;

/// What a [`TextureBuilder`] holds, for contracts.
pub struct SamplingView {
    pub min_filter: u32,
    pub mag_filter: u32,
    pub wrap_s: u32,
    pub wrap_t: u32,
    pub generate_mipmap: bool,
}

/// Collects how a texture is sampled. The four phases in the type stand for
/// the two filters and the two wrappings; a texture can be built once all four
/// have been chosen, and each can be chosen once.
pub struct TextureBuilder<MinFilter, MagFilter, WrapS, WrapT> {
    min_filter: u32,
    mag_filter: u32,
    wrap_s: u32,
    wrap_t: u32,
    generate_mipmap: bool,
    state: (PhantomData<MinFilter>, PhantomData<MagFilter>, PhantomData<WrapS>, PhantomData<WrapT>),
}

impl<MinFilter, MagFilter, WrapS, WrapT> View for TextureBuilder<MinFilter, MagFilter, WrapS, WrapT> {
    type V = SamplingView;

    closed spec fn view(&self) -> SamplingView {
        SamplingView {
            min_filter: self.min_filter,
            mag_filter: self.mag_filter,
            wrap_s: self.wrap_s,
            wrap_t: self.wrap_t,
            generate_mipmap: self.generate_mipmap,
        }
    }
}

impl TextureBuilder<Empty, Empty, Empty, Empty> {
    /// A builder with linear filtering, clamping to the edge and no mipmaps.
    pub fn new() -> (builder: TextureBuilder<Empty, Empty, Empty, Empty>)
        ensures
            builder@ == (SamplingView {
                min_filter: LINEAR,
                mag_filter: LINEAR,
                wrap_s: CLAMP_TO_EDGE,
                wrap_t: CLAMP_TO_EDGE,
                generate_mipmap: false,
            }),
    {
        TextureBuilder {
            min_filter: LINEAR,
            mag_filter: LINEAR,
            wrap_s: CLAMP_TO_EDGE,
            wrap_t: CLAMP_TO_EDGE,
            generate_mipmap: false,
            state: (PhantomData, PhantomData, PhantomData, PhantomData),
        }
    }
}

impl<WrapS, WrapT> TextureBuilder<Empty, Empty, WrapS, WrapT> {
    /// Chooses one filter for both minifying and magnifying.
    pub fn filter(self, filter: u32) -> (builder: TextureBuilder<Fully, Fully, WrapS, WrapT>)
        ensures
            builder@ == (SamplingView { min_filter: filter, mag_filter: filter, ..self@ }),
    {
        TextureBuilder {
            min_filter: filter,
            mag_filter: filter,
            wrap_s: self.wrap_s,
            wrap_t: self.wrap_t,
            generate_mipmap: self.generate_mipmap,
            state: (PhantomData, PhantomData, PhantomData, PhantomData),
        }
    }
}

impl<MinFilter, MagFilter> TextureBuilder<MinFilter, MagFilter, Empty, Empty> {
    /// Chooses one wrapping for both axes.
    pub fn wrap(self, wrap: u32) -> (builder: TextureBuilder<MinFilter, MagFilter, Fully, Fully>)
        ensures
            builder@ == (SamplingView { wrap_s: wrap, wrap_t: wrap, ..self@ }),
    {
        TextureBuilder {
            min_filter: self.min_filter,
            mag_filter: self.mag_filter,
            wrap_s: wrap,
            wrap_t: wrap,
            generate_mipmap: self.generate_mipmap,
            state: (PhantomData, PhantomData, PhantomData, PhantomData),
        }
    }
}

impl TextureBuilder<Fully, Fully, Fully, Fully> {
    /// Asks for mipmaps. Asking twice is the same as asking once.
    pub fn generate_mipmap(self) -> (builder: Self)
        ensures
            builder@ == (SamplingView { generate_mipmap: true, ..self@ }),
    {
        TextureBuilder {
            min_filter: self.min_filter,
            mag_filter: self.mag_filter,
            wrap_s: self.wrap_s,
            wrap_t: self.wrap_t,
            generate_mipmap: true,
            state: (PhantomData, PhantomData, PhantomData, PhantomData),
        }
    }

    /// Describes the texture of a picture under the sampling collected so far.
    /// The builder can be used again. A picture that is not loadable is
    /// refused with `ResourceLoadError`.
    pub fn build2d(&self, image: Image) -> (r: Result<Texture2D, Error>)
        ensures
            image.loadable() ==> (r matches Ok(texture) && texture@ == Texture2D::of(
                image,
                self@.min_filter,
                self@.mag_filter,
                self@.wrap_s,
                self@.wrap_t,
                self@.generate_mipmap,
            )),
            !image.loadable() ==> (r matches Err(error) && error is ResourceLoadError
                && error.diagnostic() == "the picture does not match its size"@),
    {
        Texture2D::new(
            image,
            self.min_filter,
            self.mag_filter,
            self.wrap_s,
            self.wrap_t,
            self.generate_mipmap,
        )
    }
}

} // verus!
