//! Texture sources and decoded pixel data.

use vstd::prelude::*;

verus! {

/// Decoded pixels ready for upload: RGBA, eight bits per channel, row-major
/// and tightly packed, so `data` holds `width * height * 4` bytes.
#[derive(Clone, Debug, PartialEq, Eq)]
pub struct TextureData {
    pub width: i32,
    pub height: i32,
    pub data: Vec<u8>,
}

/// Ghost image of a [`TextureData`].
pub struct TextureDataView {
    pub width: i32,
    pub height: i32,
    pub data: Seq<u8>,
}

impl TextureDataView {
    /// Both sides are non-negative and `data` holds four bytes per pixel.
    pub open spec fn well_formed(self) -> bool {
        &&& 0 <= self.width
        &&& 0 <= self.height
        &&& self.data.len() == self.width * self.height * 4
    }
}

impl View for TextureData {
    type V = TextureDataView;

    open spec fn view(&self) -> TextureDataView {
        TextureDataView { width: self.width, height: self.height, data: self.data@ }
    }
}

/// Ghost image of a texture that may be missing.
pub open spec fn texture_view(texture: Option<TextureData>) -> Option<TextureDataView> {
    match texture {
        Some(texture) => Some(texture@),
        None => None,
    }
}

/// The texture made of a decoder's output, if that output is a tightly packed
/// RGBA8 image whose sides fit the GPU's signed sizes.
pub open spec fn raw_texture(width: u32, height: u32, data: Seq<u8>) -> Option<TextureDataView> {
    if width <= i32::MAX && height <= i32::MAX && data.len() == width * height * 4 {
        Some(TextureDataView { width: width as i32, height: height as i32, data })
    } else {
        None
    }
}

impl TextureData {
    /// Whether the pixel buffer has the length its sides call for.
    pub fn is_well_formed(&self) -> (ok: bool)
        ensures
            ok == self@.well_formed(),
    {
        if self.width < 0 || self.height < 0 {
            return false;
        }
        let width: u64 = self.width as u64;
        let height: u64 = self.height as u64;
        assert(width * height <= 0x7fff_ffff * 0x7fff_ffff) by (nonlinear_arith)
            requires
                width <= 0x7fff_ffff,
                height <= 0x7fff_ffff,
        ;
        let wanted: u64 = width * height * 4;
        self.data.len() as u64 == wanted
    }

    /// Takes over a decoder's output.
    pub fn from_raw(width: u32, height: u32, data: Vec<u8>) -> (texture: Option<TextureData>)
        ensures
            texture_view(texture) == raw_texture(width, height, data@),
    {
        if width > 0x7fff_ffff || height > 0x7fff_ffff {
            return None;
        }
        let texture = TextureData { width: width as i32, height: height as i32, data };
        if texture.is_well_formed() {
            Some(texture)
        } else {
            None
        }
    }
}

/// Where a texture's pixels come from.
#[derive(Clone, Debug, PartialEq, Eq)]
pub enum TextureSource {
    /// An image file, decoded when the surface is activated. The format is
    /// told from the path's extension.
    Path(String),
    /// Pixels that are decoded already.
    Pixels(TextureData),
}

/// Ghost image of a [`TextureSource`].
pub enum TextureSourceView {
    Path(Seq<char>),
    Pixels(TextureDataView),
}

impl View for TextureSource {
    type V = TextureSourceView;

    open spec fn view(&self) -> TextureSourceView {
        match self {
            TextureSource::Path(path) => TextureSourceView::Path(path@),
            TextureSource::Pixels(pixels) => TextureSourceView::Pixels(pixels@),
        }
    }
}

/// The ghost images of a list of sources, in order.
pub open spec fn source_views(sources: Seq<TextureSource>) -> Seq<TextureSourceView> {
    sources.map_values(|source: TextureSource| source@)
}

/// Makes `image::ImageFormat` known. A format is only carried from the call
/// that tells it to the call that decodes by it.
#[verifier::external_type_specification]
#[verifier::external_body]
pub struct ExImageFormat(image::ImageFormat);

/// The image format that `image::ImageFormat::from_path` tells from a path,
/// `None` where it tells none.
pub uninterp spec fn path_format(path: Seq<char>) -> Option<image::ImageFormat>;

/// The width, height and RGBA8 pixels that
/// `image::load_from_memory_with_format` decodes from `bytes` read as
/// `format`, `None` where it decodes nothing.
pub uninterp spec fn decoded_rgba(bytes: Seq<u8>, format: image::ImageFormat) -> Option<
    (u32, u32, Seq<u8>),
>;

/// Ghost image of a decoder's output.
pub open spec fn raw_view(raw: Option<(u32, u32, Vec<u8>)>) -> Option<(u32, u32, Seq<u8>)> {
    match raw {
        Some(raw) => Some((raw.0, raw.1, raw.2@)),
        None => None,
    }
}

/// Calls `image::ImageFormat::from_path`. Trusted: the result is the format
/// that function tells from the path's extension, `None` where it returns an
/// error (no extension, or one that names no known format).
#[verifier::external_body]
fn format_of_path(path: &str) -> (format: Option<image::ImageFormat>)
    ensures
        format == path_format(path@),
{
    match image::ImageFormat::from_path(path) {
        Ok(format) => Some(format),
        Err(_) => None,
    }
}

/// Calls `image::load_from_memory_with_format` and takes the picture's RGBA8
/// copy apart. Trusted: the result is what the decoder makes of `bytes` as
/// `format`, `None` where it returns an error.
#[verifier::external_body]
fn decode_rgba(bytes: &[u8], format: image::ImageFormat) -> (raw: Option<(u32, u32, Vec<u8>)>)
    ensures
        raw_view(raw) == decoded_rgba(bytes@, format),
{
    match image::load_from_memory_with_format(bytes, format) {
        Ok(picture) => {
            let rgba = picture.to_rgba8();
            let (width, height) = rgba.dimensions();
            Some((width, height, rgba.into_raw()))
        },
        Err(_) => None,
    }
}

/// The texture held by a file at `path` whose content is `bytes`.
pub open spec fn decoded_texture(path: Seq<char>, bytes: Seq<u8>) -> Option<TextureDataView> {
    match path_format(path) {
        Some(format) => match decoded_rgba(bytes, format) {
            Some(raw) => raw_texture(raw.0, raw.1, raw.2),
            None => None,
        },
        None => None,
    }
}

/// Decodes the content of an image file. The path only tells the format.
pub fn decode_texture(path: &str, bytes: &[u8]) -> (texture: Option<TextureData>)
    ensures
        texture_view(texture) == decoded_texture(path@, bytes@),
{
    match format_of_path(path) {
        Some(format) => match decode_rgba(bytes, format) {
            Some(raw) => TextureData::from_raw(raw.0, raw.1, raw.2),
            None => None,
        },
        None => None,
    }
}

/// Ghost image of a file as a host read it: its path, and its content
/// unless it could not be read.
pub open spec fn file_views(files: Seq<(String, Option<Vec<u8>>)>) -> Seq<
    (Seq<char>, Option<Seq<u8>>),
> {
    files.map_values(
        |file: (String, Option<Vec<u8>>)|
            (
                file.0@,
                match file.1 {
                    Some(bytes) => Some(bytes@),
                    None => None,
                },
            ),
    )
}

/// The ghost images of a list of textures, in order.
pub open spec fn texture_views(textures: Seq<TextureData>) -> Seq<TextureDataView> {
    textures.map_values(|texture: TextureData| texture@)
}

/// The texture that a file holds, if it could be read and decodes.
pub open spec fn file_texture(file: (Seq<char>, Option<Seq<u8>>)) -> Option<TextureDataView> {
    match file.1 {
        Some(bytes) => decoded_texture(file.0, bytes),
        None => None,
    }
}

/// The textures of the files that load, in the order of the files. A file
/// that does not load leaves no gap.
pub open spec fn loaded_textures(files: Seq<(Seq<char>, Option<Seq<u8>>)>) -> Seq<TextureDataView>
    decreases files.len(),
{
    if files.len() == 0 {
        Seq::empty()
    } else {
        let before = loaded_textures(files.drop_last());
        match file_texture(files.last()) {
            Some(texture) => before.push(texture),
            None => before,
        }
    }
}

/// What `loaded_textures` yields: well-formed textures, one for each file
/// that loads and no more than there are files.
pub proof fn lemma_loaded_textures(files: Seq<(Seq<char>, Option<Seq<u8>>)>)
    ensures
        loaded_textures(files).len() <= files.len(),
        forall|i: int|
            0 <= i < loaded_textures(files).len() ==> (#[trigger] loaded_textures(
                files,
            )[i]).well_formed(),
        (forall|k: int| 0 <= k < files.len() ==> file_texture(#[trigger] files[k]) is Some)
            ==> loaded_textures(files).len() == files.len(),
    decreases files.len(),
{
    if files.len() > 0 {
        lemma_loaded_textures(files.drop_last());
        assert forall|k: int| 0 <= k < files.drop_last().len() implies files.drop_last()[k]
            == files[k] by {}
    }
}

/// Decodes the image files that a host read, in order, and keeps those that
/// load. A file that could not be read or does not decode is passed over.
pub fn decode_textures(files: &Vec<(String, Option<Vec<u8>>)>) -> (textures: Vec<TextureData>)
    ensures
        texture_views(textures@) == loaded_textures(file_views(files@)),
{
    let mut textures: Vec<TextureData> = Vec::new();
    let mut i: usize = 0;
    assert(file_views(files@).subrange(0, 0) =~= Seq::empty());
    assert(texture_views(textures@) =~= Seq::empty());
    while i < files.len()
        invariant
            i <= files.len(),
            texture_views(textures@) == loaded_textures(file_views(files@).subrange(0, i as int)),
        decreases files.len() - i,
    {
        proof {
            let all = file_views(files@);
            assert(all.subrange(0, i + 1).drop_last() =~= all.subrange(0, i as int));
        }
        let ghost before = texture_views(textures@);
        let texture = match &files[i].1 {
            Some(bytes) => decode_texture(files[i].0.as_str(), bytes.as_slice()),
            None => None,
        };
        match texture {
            Some(texture) => {
                let ghost image = texture@;
                textures.push(texture);
                assert(texture_views(textures@) =~= before.push(image));
            },
            None => {},
        }
        i += 1;
    }
    assert(file_views(files@).subrange(0, i as int) =~= file_views(files@));
    textures
}

} // verus!
