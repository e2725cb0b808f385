//! Textures as the toolkit describes them, and what is uploaded for each.

use crate::bytes::{flat_texels, is_word_image, scalar_bytes, texel_bytes};
use vstd::prelude::*;

verus! {

/// Names a texture. Two identifiers name the same texture exactly when they
/// are equal, so a toolkit-managed and a user-supplied texture with the same
/// number are different textures.
#[derive(Clone, Copy, Debug, PartialEq, Eq, Structural, Hash)]
pub enum TextureId {
    /// A texture that the toolkit allocates and frees.
    Managed(u64),
    /// A texture that the user supplies.
    User(u64),
}

/// The texel format of a texture on the device.
#[derive(Clone, Copy, Debug, PartialEq, Eq, Structural)]
pub enum TexelFormat {
    /// Four 8-bit channels, red first, sRGB encoded.
    Rgba8UnormSrgb,
    /// One 8-bit linear channel.
    R8Unorm,
}

impl TexelFormat {
    /// The number of channels of a texel, which the fragment stage reads to
    /// choose how it samples: 4 for colour, 1 for alpha only.
    pub open spec fn spec_components(self) -> u32 {
        match self {
            TexelFormat::Rgba8UnormSrgb => 4,
            TexelFormat::R8Unorm => 1,
        }
    }

    /// The number of channels of a texel.
    #[verifier::when_used_as_spec(spec_components)]
    pub fn components(self) -> (n: u32)
        ensures
            n == self.spec_components(),
    {
        match self {
            TexelFormat::Rgba8UnormSrgb => 4,
            TexelFormat::R8Unorm => 1,
        }
    }
}

/// A colour image: four-channel texels, row by row from the top.
#[derive(Clone, Debug)]
pub struct ColorImage {
    /// Width and height in texels.
    pub size: [usize; 2],
    /// The texels, each as red, green, blue, alpha.
    pub pixels: Vec<[u8; 4]>,
}

/// An alpha-only image: one byte per texel, row by row from the top.
#[derive(Clone, Debug)]
pub struct AlphaImage {
    /// Width and height in texels.
    pub size: [usize; 2],
    /// The texels.
    pub pixels: Vec<u8>,
}

/// An image as the toolkit hands it over.
#[derive(Clone, Debug)]
pub enum ImageData {
    Color(ColorImage),
    Alpha(AlphaImage),
}

/// A change to one texture.
#[derive(Clone, Debug)]
pub struct ImageDelta {
    /// The new image.
    pub image: ImageData,
    /// Where the toolkit would place the image inside an existing texture.
    /// It has no effect: the image always replaces the whole texture.
    pub pos: Option<[usize; 2]>,
}

/// The texture changes of one frame.
#[derive(Clone, Debug)]
pub struct TexturesDelta {
    /// Textures to create or replace, applied in order before anything is
    /// drawn.
    pub set: Vec<(TextureId, ImageDelta)>,
    /// Textures to free once the frame's draws are recorded.
    pub free: Vec<TextureId>,
}

/// Why a frame's input is refused.
#[derive(Clone, Copy, Debug, PartialEq, Eq, Structural)]
pub enum PaintError {
    /// A colour image whose number of texels is not its width times its
    /// height.
    TexelCountMismatch { width: usize, height: usize, texels: usize },
}

/// What the registry knows of a texture on the device.
#[derive(Clone, Copy, Debug, PartialEq, Eq, Structural)]
pub struct TextureInfo {
    pub format: TexelFormat,
    pub width: u32,
    pub height: u32,
}

/// One texture to create on the device, with everything it is made from.
#[derive(Debug)]
pub struct TextureUpload<'a> {
    /// The identifier under which the texture is bound from now on.
    pub id: TextureId,
    /// Format and size of the texture.
    pub info: TextureInfo,
    /// The texel data, row by row, in the layout of `info.format`.
    pub texels: &'a [u8],
    /// The contents of the texture's metadata buffer: its channel count as
    /// one 32-bit scalar in the machine's byte order.
    pub components: Vec<u8>,
}

impl ImageData {
    /// The width in texels.
    pub open spec fn spec_width(&self) -> usize {
        match self {
            ImageData::Color(image) => image.size[0],
            ImageData::Alpha(image) => image.size[0],
        }
    }

    /// The height in texels.
    pub open spec fn spec_height(&self) -> usize {
        match self {
            ImageData::Color(image) => image.size[1],
            ImageData::Alpha(image) => image.size[1],
        }
    }

    /// The number of texels that the image holds.
    pub open spec fn texel_count(&self) -> nat {
        match self {
            ImageData::Color(image) => image.pixels@.len(),
            ImageData::Alpha(image) => image.pixels@.len(),
        }
    }

    /// Whether the image may be uploaded: a colour image must hold exactly
    /// width times height texels. Nothing is asked of an alpha image.
    pub open spec fn is_valid(&self) -> bool {
        self is Color ==> self.spec_width() * self.spec_height() == self.texel_count()
    }

    /// The error that refuses the image where it is not valid.
    pub open spec fn mismatch(&self) -> PaintError {
        PaintError::TexelCountMismatch {
            width: self.spec_width(),
            height: self.spec_height(),
            texels: self.texel_count() as usize,
        }
    }

    /// The device format for the image: sRGB colour for a colour image, one
    /// linear channel for an alpha image.
    pub open spec fn spec_format(&self) -> TexelFormat {
        match self {
            ImageData::Color(_) => TexelFormat::Rgba8UnormSrgb,
            ImageData::Alpha(_) => TexelFormat::R8Unorm,
        }
    }

    /// Format and size of the texture made from the image. Width and height
    /// are kept to their low 32 bits.
    pub open spec fn spec_info(&self) -> TextureInfo {
        TextureInfo {
            format: self.spec_format(),
            width: self.spec_width() as u32,
            height: self.spec_height() as u32,
        }
    }

    /// The texel data as the device reads it.
    pub open spec fn texel_data(&self) -> Seq<u8> {
        match self {
            ImageData::Color(image) => flat_texels(image.pixels@),
            ImageData::Alpha(image) => image.pixels@,
        }
    }

    /// The width in texels.
    #[verifier::when_used_as_spec(spec_width)]
    pub fn width(&self) -> (w: usize)
        ensures
            w == self.spec_width(),
    {
        match self {
            ImageData::Color(image) => image.size[0],
            ImageData::Alpha(image) => image.size[0],
        }
    }

    /// The height in texels.
    #[verifier::when_used_as_spec(spec_height)]
    pub fn height(&self) -> (h: usize)
        ensures
            h == self.spec_height(),
    {
        match self {
            ImageData::Color(image) => image.size[1],
            ImageData::Alpha(image) => image.size[1],
        }
    }

    /// The device format for the image.
    #[verifier::when_used_as_spec(spec_format)]
    pub fn format(&self) -> (f: TexelFormat)
        ensures
            f == self.spec_format(),
    {
        match self {
            ImageData::Color(_) => TexelFormat::Rgba8UnormSrgb,
            ImageData::Alpha(_) => TexelFormat::R8Unorm,
        }
    }

    /// Format and size of the texture made from the image.
    #[verifier::when_used_as_spec(spec_info)]
    pub fn info(&self) -> (info: TextureInfo)
        ensures
            info == self.spec_info(),
    {
        TextureInfo {
            format: self.format(),
            width: #[verifier::truncate]
            (self.width() as u32),
            height: #[verifier::truncate]
            (self.height() as u32),
        }
    }

    /// Checks that the image may be uploaded.
    ///
    /// Fails exactly for a colour image whose texel count differs from width
    /// times height, and then reports the three numbers.
    pub fn check(&self) -> (r: Result<(), PaintError>)
        ensures
            r is Ok <==> self.is_valid(),
            r matches Err(e) ==> e == self.mismatch(),
    {
        match self {
            ImageData::Color(image) => {
                let width: usize = image.size[0];
                let height: usize = image.size[1];
                let texels: usize = image.pixels.len();
                match width.checked_mul(height) {
                    Some(area) if area == texels => Ok(()),
                    _ => Err(PaintError::TexelCountMismatch { width, height, texels }),
                }
            },
            ImageData::Alpha(_) => Ok(()),
        }
    }
}

impl<'a> TextureUpload<'a> {
    /// Whether this is the upload that puts `image` on the device as `id`.
    pub open spec fn is_upload_of(&self, id: TextureId, image: &ImageData) -> bool {
        &&& self.id == id
        &&& self.info == image.spec_info()
        &&& self.texels@ == image.texel_data()
        &&& is_word_image(seq![image.spec_format().spec_components()], self.components@)
    }

    /// Describes the upload that puts `image` on the device as `id`.
    pub fn new(id: TextureId, image: &'a ImageData) -> (upload: Self)
        ensures
            upload.is_upload_of(id, image),
    {
        let texels: &'a [u8] = match image {
            ImageData::Color(color) => texel_bytes(color.pixels.as_slice()),
            ImageData::Alpha(alpha) => alpha.pixels.as_slice(),
        };
        TextureUpload {
            id,
            info: image.info(),
            texels,
            components: scalar_bytes(image.format().components()),
        }
    }
}

} // verus!
