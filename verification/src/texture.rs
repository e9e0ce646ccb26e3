//! Texture resource management.
//!
//! Image bytes are decoded through the stb_image library and classified
//! by channel count: a 3-channel image goes up the RGB path, a 4-channel
//! image up the RGBA path, and any other channel count is an unsupported
//! format, reported as a typed error and never misread.  A [`Texture`]
//! owns one texture handle; its width, height and channel count steer the
//! upload and are not retained by the wrapper afterwards.

use vstd::prelude::*;

use crate::driver::{Driver, HandleKind, ModelState, TexFormat, TexStorage};

verus! {

/// Why a texture could not be built.
#[derive(Debug)]
pub enum Error {
    /// The underlying read failed; carries the I/O error's message.
    IO(String),
    /// The image bytes could not be used; carries the reason.
    LoadError(String),
}

impl Error {
    /// The text [`Error::message`] returns: the failure named, with the
    /// carried cause.
    pub open spec fn spec_message(self) -> Seq<char> {
        match self {
            Error::IO(m) => "failed to read the image: "@ + m@,
            Error::LoadError(m) => "failed to load the texture: "@ + m@,
        }
    }

    /// A human-readable description of the failure.
    pub fn message(&self) -> (r: String)
        ensures
            r@ == self.spec_message(),
            r@.len() > 0,
    {
        proof {
            reveal_strlit("failed to read the image: ");
            reveal_strlit("failed to load the texture: ");
        }
        match self {
            Error::IO(m) => "failed to read the image: ".to_owned().concat(m.as_str()),
            Error::LoadError(m) => "failed to load the texture: ".to_owned().concat(m.as_str()),
        }
    }
}

/// A decoded image: its dimensions, its channel count, and its pixel
/// bytes, row by row.
pub struct Image {
    pub width: usize,
    pub height: usize,
    pub channels: usize,
    pub data: Vec<u8>,
}

/// The spec-level image of a decoded image.
pub struct ImageModel {
    pub width: nat,
    pub height: nat,
    pub channels: nat,
    pub data: Seq<u8>,
}

impl View for Image {
    type V = ImageModel;

    open spec fn view(&self) -> ImageModel {
        ImageModel {
            width: self.width as nat,
            height: self.height as nat,
            channels: self.channels as nat,
            data: self.data@,
        }
    }
}

impl Image {
    /// A decoded image holds exactly one byte per channel of each pixel.
    pub open spec fn wf(self) -> bool {
        self.data@.len() == self.width * self.height * self.channels
    }
}

/// The spec-level image of one decode attempt's outcome.
pub enum DecodeModel {
    /// An 8-bit-per-channel image.
    Ldr(ImageModel),
    /// A high-dynamic-range image, which has no byte-per-channel form.
    Hdr,
    /// The decoder rejected the bytes; carries its message.
    Failed(Seq<char>),
}

/// What the image decoder yields for the given encoded bytes: the
/// decoded 8-bit-per-channel image, the fact that the bytes hold a
/// high-dynamic-range image, or the decoder's rejection message.
pub uninterp spec fn decode_of(bytes: Seq<u8>) -> DecodeModel;

/// What one decode attempt came back with.
pub enum DecodeOutcome {
    /// An 8-bit-per-channel image.
    Ldr(Image),
    /// A high-dynamic-range image, which has no byte-per-channel form.
    Hdr,
    /// The decoder rejected the bytes; carries its message.
    Failed(String),
}

/// Relies on stb_image's image::load_from_memory: what it decodes, and
/// the message it fails with, are a function of the encoded bytes
/// alone; a decoded 8-bit image's buffer holds exactly
/// width * height * channels bytes; and its failure messages are fixed
/// non-empty strings.  Nothing in this crate touches the decoder's
/// process-global flags.
#[verifier::external_body]
fn decode_image(bytes: &[u8]) -> (r: DecodeOutcome)
    ensures
        (r matches DecodeOutcome::Ldr(img)) <==> decode_of(bytes@) is Ldr,
        r matches DecodeOutcome::Ldr(img) ==> decode_of(bytes@) == DecodeModel::Ldr(img@)
            && img.wf(),
        (r is Hdr) <==> decode_of(bytes@) is Hdr,
        (r matches DecodeOutcome::Failed(m)) <==> decode_of(bytes@) is Failed,
        r matches DecodeOutcome::Failed(m) ==> decode_of(bytes@) == DecodeModel::Failed(m@)
            && m@.len() > 0,
{
    match stb_image::image::load_from_memory(bytes) {
        stb_image::image::LoadResult::ImageU8(img) => DecodeOutcome::Ldr(
            Image { width: img.width, height: img.height, channels: img.depth, data: img.data },
        ),
        stb_image::image::LoadResult::ImageF32(_) => DecodeOutcome::Hdr,
        stb_image::image::LoadResult::Error(m) => DecodeOutcome::Failed(m),
    }
}

/// The upload path an image's channel count selects, when it has one.
pub open spec fn format_for_channels(channels: nat) -> Option<TexFormat> {
    if channels == 3 {
        Some(TexFormat::Rgb)
    } else if channels == 4 {
        Some(TexFormat::Rgba)
    } else {
        None
    }
}

/// Returns the upload path an image's channel count selects, when it
/// has one: three channels select RGB, four select RGBA, and any other
/// count selects nothing.
pub fn upload_format(channels: usize) -> (r: Option<TexFormat>)
    ensures
        r == format_for_channels(channels as nat),
{
    if channels == 3 {
        Some(TexFormat::Rgb)
    } else if channels == 4 {
        Some(TexFormat::Rgba)
    } else {
        None
    }
}

/// Exclusive owner of one texture handle.
pub struct Texture {
    handle: u32,
}

impl Texture {
    /// The owned handle.
    pub closed spec fn id(self) -> u32 {
        self.handle
    }

    /// Returns the owned handle, for driver-state queries.
    pub fn handle(&self) -> (r: u32)
        ensures
            r == self.id(),
    {
        self.handle
    }

    /// The owned handle is live in the given driver state, as a texture.
    pub open spec fn is_live(self, s: ModelState) -> bool {
        s.is_kind(self.id(), HandleKind::Texture)
    }

    /// The driver state after a fresh texture `t` was created and an
    /// image of the given format and size was uploaded into it with mip
    /// levels: the texture is allocated, holds the storage, and is left
    /// bound.
    pub open spec fn uploaded(s: ModelState, t: u32, format: TexFormat, width: usize, height: usize) -> ModelState {
        ModelState {
            handles: s.handles.insert(t, HandleKind::Texture),
            next_handle: (t + 1) as u32,
            allocations: (s.allocations + 1) as u64,
            texture_2d: t,
            textures: s.textures.insert(t, (TexStorage { format, width, height, mipmap: true })),
            ..s
        }
    }

    /// Builds a texture from an already decoded image.  A 3-channel
    /// image goes up the RGB path and a 4-channel image up the RGBA
    /// path, each leaving the new texture bound with mip levels
    /// generated; any other channel count is an unsupported format,
    /// reported without touching the driver.
    pub fn from_image(d: &mut Driver, img: &Image) -> (r: Result<Texture, Error>)
        requires
            old(d)@.inv(),
            old(d)@.can_allocate(1),
        ensures
            final(d)@.inv(),
            (img.channels == 3 || img.channels == 4) <==> r is Ok,
            r matches Ok(t) ==> t.id() == old(d)@.next_handle && t.is_live(final(d)@)
                && Some(final(d)@.textures[t.id()].format) == format_for_channels(img@.channels)
                && final(d)@ == Texture::uploaded(
                old(d)@,
                t.id(),
                format_for_channels(img@.channels)->0,
                img.width,
                img.height,
            ),
            r matches Err(e) ==> final(d)@ == old(d)@ && (e matches Error::LoadError(m) && m@
                == "unsupported image channel count"@ && m@.len() > 0),
    {
        let format = if img.channels == 3 {
            TexFormat::Rgb
        } else if img.channels == 4 {
            TexFormat::Rgba
        } else {
            proof {
                reveal_strlit("unsupported image channel count");
            }
            return Err(Error::LoadError("unsupported image channel count".to_owned()));
        };
        let t = d.create_texture();
        d.bind_texture(t);
        d.tex_image_2d(format, img.width, img.height);
        d.generate_mipmap();
        proof {
            assert(final(d)@ =~~= Texture::uploaded(old(d)@, t, format, img.width, img.height));
        }
        Ok(Texture { handle: t })
    }

    /// Builds a texture from encoded image bytes: the bytes are decoded
    /// through the image library, classified by channel count, and
    /// uploaded with mip levels.  Bytes the decoder rejects are a load
    /// error carrying the decoder's own message; a high-dynamic-range
    /// image, or a channel count that selects no upload path, is a load
    /// error too, and the driver is left untouched on every error.
    pub fn new(d: &mut Driver, bytes: &[u8]) -> (r: Result<Texture, Error>)
        requires
            old(d)@.inv(),
            old(d)@.can_allocate(1),
        ensures
            final(d)@.inv(),
            (decode_of(bytes@) matches DecodeModel::Ldr(m) && (m.channels == 3 || m.channels
                == 4)) <==> r is Ok,
            r matches Ok(t) ==> (decode_of(bytes@) matches DecodeModel::Ldr(m) && t.id() == old(
                d,
            )@.next_handle && t.is_live(final(d)@) && Some(final(d)@.textures[t.id()].format)
                == format_for_channels(m.channels) && final(d)@ == Texture::uploaded(
                old(d)@,
                t.id(),
                format_for_channels(m.channels)->0,
                m.width as usize,
                m.height as usize,
            )),
            r matches Err(e) ==> final(d)@ == old(d)@ && (e matches Error::LoadError(m) && m@.len()
                > 0),
            decode_of(bytes@) matches DecodeModel::Failed(fm) ==> (r matches Err(e)
                && e matches Error::LoadError(m) && m@ == fm),
            decode_of(bytes@) is Hdr ==> (r matches Err(e) && e matches Error::LoadError(m) && m@
                == "high dynamic range images are not supported"@),
            decode_of(bytes@) matches DecodeModel::Ldr(im) ==> (im.channels != 3 && im.channels
                != 4 ==> (r matches Err(e) && e matches Error::LoadError(m) && m@
                == "unsupported image channel count"@)),
    {
        match decode_image(bytes) {
            DecodeOutcome::Ldr(img) => Texture::from_image(d, &img),
            DecodeOutcome::Hdr => {
                proof {
                    reveal_strlit("high dynamic range images are not supported");
                }
                Err(Error::LoadError("high dynamic range images are not supported".to_owned()))
            },
            DecodeOutcome::Failed(m) => Err(Error::LoadError(m)),
        }
    }

    /// Makes the owned handle the bound texture.
    pub fn bind(&self, d: &mut Driver)
        requires
            old(d)@.inv(),
            self.is_live(old(d)@),
        ensures
            final(d)@.inv(),
            final(d)@ == (ModelState { texture_2d: self.id(), ..old(d)@ }),
    {
        d.bind_texture(self.handle);
    }

    /// Resets the texture binding to "none".
    pub fn detach(&self, d: &mut Driver)
        requires
            old(d)@.inv(),
        ensures
            final(d)@.inv(),
            final(d)@ == (ModelState { texture_2d: 0u32, ..old(d)@ }),
    {
        d.bind_texture(0);
    }

    /// Releases the owned handle.
    pub fn delete(self, d: &mut Driver)
        requires
            old(d)@.inv(),
            self.is_live(old(d)@),
        ensures
            final(d)@.inv(),
            final(d)@ == old(d)@.with_deleted(self.id()),
            !final(d)@.handles.contains_key(self.id()),
    {
        d.delete(self.handle);
    }
}

} // verus!
