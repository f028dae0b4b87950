//! Two-dimensional textures and the default 1x1 textures.

use vstd::arithmetic::div_mod::lemma_fundamental_div_mod_converse;
use vstd::prelude::*;
use vstd::slice::slice_to_vec;

use crate::command::{calls_of, emit, GlCall, GlCommand, PixelData, Pixels};
use crate::gl_enums::{
    CLAMP_TO_EDGE, FLOAT, RGB16F, LINEAR, LINEAR_MIPMAP_LINEAR, REPEAT, RGB, RGB32F, RGB8, RGBA, RGBA8, SRGB8, SRGB8_ALPHA8,
    TEXTURE_MAG_FILTER, TEXTURE_MIN_FILTER, TEXTURE_WRAP_S, TEXTURE_WRAP_T, UNSIGNED_BYTE,
};

verus! {

/// The pixel layouts that a decoded glTF image can have.
#[derive(PartialEq, Eq, Structural, Clone, Copy, Debug)]
pub enum ImageFormat {
    R8,
    R8G8,
    R8G8B8,
    R8G8B8A8,
    R16,
    R16G16,
    R16G16B16,
    R16G16B16A16,
    R32G32B32FLOAT,
    R32G32B32A32FLOAT,
}

/// A decoded image of a glTF asset: 8 bits per channel in `pixels`.
#[derive(Clone, Debug)]
pub struct ImageData {
    pub pixels: Vec<u8>,
    pub format: ImageFormat,
    pub width: u32,
    pub height: u32,
}

/// A GL 2D texture, named by `id`, with its size and formats.
#[derive(Clone, Copy, PartialEq, Eq, Structural, Debug)]
pub struct Texture2D {
    pub id: u32,
    pub width: i32,
    pub height: i32,
    pub internal_format: u32,
    pub format: u32,
}

/// The internal format that a format name of `Texture2D::from_file` selects.
pub open spec fn internal_format_named(name: Seq<char>) -> Option<u32> {
    if name == "sRGB8_RGBA8"@ {
        Some(SRGB8_ALPHA8)
    } else if name == "Linear_RGBA8"@ {
        Some(RGBA8)
    } else if name == "RGB32F"@ {
        Some(RGB32F)
    } else {
        None
    }
}

/// The (pixel format, internal format) pair with which a glTF image of
/// layout `format` is uploaded, when the layout is supported.
pub open spec fn gltf_upload_formats(format: ImageFormat, srgb: bool) -> Option<(u32, u32)> {
    match format {
        ImageFormat::R8G8B8A8 => Some((RGBA, if srgb { SRGB8_ALPHA8 } else { RGBA8 })),
        ImageFormat::R8G8B8 => Some((RGB, if srgb { SRGB8 } else { RGB8 })),
        _ => None,
    }
}

/// `glTextureStorage2D` of a single-level texture.
pub open spec fn storage_call(texture: u32, internal_format: u32, width: i32, height: i32) -> GlCall {
    GlCall::TextureStorage2D { texture, levels: 1, internal_format, width, height }
}

/// Upload of a whole `width` x `height` level-0 image.
pub open spec fn sub_image_call(
    texture: u32,
    width: i32,
    height: i32,
    format: u32,
    pixel_type: u32,
    pixels: Pixels,
) -> GlCall {
    GlCall::TextureSubImage2D {
        texture,
        level: 0,
        x_offset: 0,
        y_offset: 0,
        width,
        height,
        format,
        pixel_type,
        pixels,
    }
}

/// Sets both wrap modes to `wrap`, then the minification and magnification
/// filters.
pub open spec fn wrap_filter_calls(texture: u32, wrap: u32, min_filter: u32, mag_filter: u32) -> Seq<
    GlCall,
> {
    seq![
        GlCall::TextureParameteri { texture, pname: TEXTURE_WRAP_S, param: wrap as i32 },
        GlCall::TextureParameteri { texture, pname: TEXTURE_WRAP_T, param: wrap as i32 },
        GlCall::TextureParameteri { texture, pname: TEXTURE_MIN_FILTER, param: min_filter as i32 },
        GlCall::TextureParameteri { texture, pname: TEXTURE_MAG_FILTER, param: mag_filter as i32 },
    ]
}

/// The calls that create an 8-bit image texture with a full mipmap chain
/// (repeat wrapping, trilinear filtering).
pub open spec fn mipmapped_image_calls(
    texture: u32,
    internal_format: u32,
    width: i32,
    height: i32,
    format: u32,
    pixels: Seq<u8>,
) -> Seq<GlCall> {
    seq![
        storage_call(texture, internal_format, width, height),
        sub_image_call(texture, width, height, format, UNSIGNED_BYTE, Pixels::Bytes(pixels)),
    ] + wrap_filter_calls(texture, REPEAT, LINEAR_MIPMAP_LINEAR, LINEAR) + seq![
        GlCall::GenerateTextureMipmap { texture },
    ]
}

/// The calls that create a 1x1 texture of one RGBA8 colour.
pub open spec fn solid_color_calls(texture: u32, color: Seq<u8>) -> Seq<GlCall> {
    seq![
        storage_call(texture, RGBA8, 1, 1),
        sub_image_call(texture, 1, 1, RGBA, UNSIGNED_BYTE, Pixels::Bytes(color)),
    ] + wrap_filter_calls(texture, REPEAT, LINEAR, LINEAR)
}

/// The calls that allocate a texture without contents.
pub open spec fn empty_texture_calls(
    texture: u32,
    width: u32,
    height: u32,
    internal_format: u32,
    filter: u32,
    wrap_mode: u32,
) -> Seq<GlCall> {
    seq![
        storage_call(texture, internal_format, width as i32, height as i32),
        GlCall::TextureParameteri { texture, pname: TEXTURE_MIN_FILTER, param: filter as i32 },
        GlCall::TextureParameteri { texture, pname: TEXTURE_MAG_FILTER, param: filter as i32 },
        GlCall::TextureParameteri { texture, pname: TEXTURE_WRAP_S, param: wrap_mode as i32 },
        GlCall::TextureParameteri { texture, pname: TEXTURE_WRAP_T, param: wrap_mode as i32 },
    ]
}

/// The calls that give texture `old` new storage under the name `new_id`.
pub open spec fn recreate_calls(old: u32, new_id: u32, internal_format: u32, width: u32, height: u32) -> Seq<
    GlCall,
> {
    seq![
        GlCall::DeleteTexture { texture: old },
        storage_call(new_id, internal_format, width as i32, height as i32),
    ]
}

/// The colours of the default textures.
pub open spec fn white_rgba() -> Seq<u8> {
    seq![255u8, 255u8, 255u8, 255u8]
}

pub open spec fn flat_normal_rgba() -> Seq<u8> {
    seq![128u8, 128u8, 255u8, 255u8]
}

pub open spec fn black_rgba() -> Seq<u8> {
    seq![0u8, 0u8, 0u8, 255u8]
}

/// The calls that create the white, flat-normal and black default textures.
pub open spec fn default_textures_calls(white: u32, normal: u32, black: u32) -> Seq<GlCall> {
    solid_color_calls(white, white_rgba()) + solid_color_calls(normal, flat_normal_rgba())
        + solid_color_calls(black, black_rgba())
}

/// The image that `bytes` decode to, as `(width, height, RGBA8 texels)` in
/// row-major order from the top row down, when `bytes` hold an image in the
/// file format that the file extension `ext` names.
pub uninterp spec fn decoded_rgba8(bytes: Seq<u8>, ext: Seq<char>) -> Option<(u32, u32, Seq<u8>)>;

/// Decodes an image file's contents with the `image` crate: the format is
/// the one `image::ImageFormat::from_extension` gives for `ext`, the bytes
/// go through `image::load_from_memory_with_format`, and the result is
/// converted with `DynamicImage::to_rgba8`.  The contract claims only that
/// the result is a function of the two arguments (`decoded_rgba8`), `None`
/// exactly when the extension names no format or the decoder fails; what a
/// decoder produces is not stated.
#[verifier::external_body]
fn decode_rgba8(bytes: &[u8], ext: &str) -> (img: Option<(u32, u32, Vec<u8>)>)
    ensures
        match img {
            Some((w, h, px)) => decoded_rgba8(bytes@, ext@) == Some((w, h, px@)),
            None => decoded_rgba8(bytes@, ext@) is None,
        },
{
    let format = image::ImageFormat::from_extension(ext)?;
    let rgba = image::load_from_memory_with_format(bytes, format).ok()?.to_rgba8();
    Some((rgba.width(), rgba.height(), rgba.into_raw()))
}

/// The HDR image that `bytes` decode to, as `(width, height, RGB texels)`
/// with each channel given by the bit pattern of its `f32` value, in
/// row-major order from the top row down, when `bytes` hold an image in the
/// file format that the file extension `ext` names.
pub uninterp spec fn decoded_rgb32f_bits(bytes: Seq<u8>, ext: Seq<char>) -> Option<(u32, u32, Seq<u32>)>;

/// Decodes an HDR image file's contents with the `image` crate: the format
/// is the one `image::ImageFormat::from_extension` gives for `ext`, the
/// bytes go through `image::load_from_memory_with_format`, the result is
/// converted with `DynamicImage::to_rgb32f`, and each channel is handed out
/// as its bit pattern.  The contract claims only that the result is a
/// function of the two arguments (`decoded_rgb32f_bits`), `None` exactly
/// when the extension names no format or the decoder fails; what a decoder
/// produces is not stated.
#[verifier::external_body]
fn decode_rgb32f_bits(bytes: &[u8], ext: &str) -> (img: Option<(u32, u32, Vec<u32>)>)
    ensures
        match img {
            Some((w, h, px)) => decoded_rgb32f_bits(bytes@, ext@) == Some((w, h, px@)),
            None => decoded_rgb32f_bits(bytes@, ext@) is None,
        },
{
    let format = image::ImageFormat::from_extension(ext)?;
    let rgb = image::load_from_memory_with_format(bytes, format).ok()?.to_rgb32f();
    let (width, height) = (rgb.width(), rgb.height());
    Some((width, height, rgb.into_raw().into_iter().map(|c| c.to_bits()).collect()))
}

/// The first `rows` rows of `row_len` items of `px`, in reverse order:
/// row `r` of the result is row `rows - 1 - r` of `px`.
pub open spec fn flipped_rows<T>(px: Seq<T>, row_len: nat, rows: nat) -> Seq<T> {
    Seq::new(
        row_len * rows,
        |i: int| px[(rows - 1 - i / (row_len as int)) * row_len + i % (row_len as int)],
    )
}

/// Item `c` of row `r` of the flipped image is item `c` of row
/// `rows - 1 - r` of the original.
pub proof fn lemma_flipped_rows_index<T>(px: Seq<T>, row_len: nat, rows: nat, r: int, c: int)
    requires
        0 <= r < rows,
        0 <= c < row_len,
    ensures
        r * row_len + c < row_len * rows,
        flipped_rows(px, row_len, rows)[r * row_len + c] == px[(rows - 1 - r) * row_len + c],
{
    lemma_fundamental_div_mod_converse(r * row_len + c, row_len as int, r, c);
    assert(r * row_len + c < row_len * rows) by (nonlinear_arith)
        requires
            0 <= r < rows,
            0 <= c < row_len,
    ;
}

/// Flipping the rows of a whole image twice gives the image back.
pub proof fn law_flip_rows_twice<T>(px: Seq<T>, row_len: nat, rows: nat)
    requires
        px.len() == row_len * rows,
    ensures
        flipped_rows(flipped_rows(px, row_len, rows), row_len, rows) == px,
{
    let once = flipped_rows(px, row_len, rows);
    let twice = flipped_rows(once, row_len, rows);
    assert forall|i: int| 0 <= i < px.len() implies twice[i] == px[i] by {
        let l = row_len as int;
        let r = i / l;
        let c = i % l;
        assert(l > 0) by (nonlinear_arith)
            requires
                0 <= i < px.len(),
                px.len() == row_len * rows,
                l == row_len,
        ;
        vstd::arithmetic::div_mod::lemma_fundamental_div_mod(i, l);
        assert(0 <= c < l);
        assert(0 <= r < rows) by (nonlinear_arith)
            requires
                i == l * r + c,
                0 <= c < l,
                0 <= i < l * rows,
        ;
        assert(r * l == l * r) by (nonlinear_arith);
        lemma_flipped_rows_index(once, row_len, rows, r, c);
        lemma_flipped_rows_index(px, row_len, rows, rows - 1 - r, c);
        assert(rows - 1 - (rows - 1 - r) == r);
    }
    assert(twice =~= px);
}

/// The first `rows` rows of `row_len` items of `px`, bottom row first.
pub fn flip_rows<T: Copy>(row_len: usize, rows: usize, px: &[T]) -> (f: Vec<T>)
    requires
        row_len * rows <= px@.len(),
    ensures
        f@ == flipped_rows(px@, row_len as nat, rows as nat),
{
    let n: usize = px.len();
    let mut f: Vec<T> = Vec::new();
    let mut r: usize = 0;
    while r < rows
        invariant
            r <= rows,
            n == px@.len(),
            row_len * rows <= px@.len(),
            f@.len() == r * row_len,
            forall|k: int| 0 <= k < f@.len() ==> f@[k] == flipped_rows(px@, row_len as nat, rows as nat)[k],
        decreases rows - r,
    {
        assert((rows - 1 - r) * row_len + row_len <= row_len * rows) by (nonlinear_arith)
            requires
                r < rows,
        ;
        let base: usize = (rows - 1 - r) * row_len;
        let mut c: usize = 0;
        while c < row_len
            invariant
                r < rows,
                c <= row_len,
                n == px@.len(),
                row_len * rows <= px@.len(),
                base == (rows - 1 - r) * row_len,
                base + row_len <= row_len * rows,
                f@.len() == r * row_len + c,
                forall|k: int| 0 <= k < f@.len() ==> f@[k] == flipped_rows(px@, row_len as nat, rows as nat)[k],
            decreases row_len - c,
        {
            proof {
                lemma_flipped_rows_index(px@, row_len as nat, rows as nat, r as int, c as int);
            }
            f.push(px[base + c]);
            c = c + 1;
        }
        assert((r + 1) * row_len == r * row_len + row_len) by (nonlinear_arith);
        r = r + 1;
    }
    assert(f@.len() == row_len * rows) by (nonlinear_arith)
        requires
            f@.len() == r * row_len,
            r == rows,
    ;
    assert(f@ =~= flipped_rows(px@, row_len as nat, rows as nat));
    f
}

/// Whether a decoded `w` x `h` RGBA8 image with texels `px` can be
/// uploaded: its size in bytes fits in `usize` and `px` holds that many
/// bytes (decoders give exactly that many).
pub open spec fn rgba8_upload_fits(w: u32, h: u32, px: Seq<u8>) -> bool {
    &&& w * 4 <= usize::MAX
    &&& w * 4 * h <= usize::MAX
    &&& w * 4 * h <= px.len()
}

/// The calls that create texture `id` from `width` x `height` HDR texels
/// (RGB, `f32` bit patterns, top row first): RGB16F storage, the rows
/// uploaded bottom row first, clamped and bilinear.
pub open spec fn hdr_texture_calls(id: u32, width: u32, height: u32, texels: Seq<u32>) -> Seq<GlCall> {
    seq![
        storage_call(id, RGB16F, width as i32, height as i32),
        sub_image_call(
            id,
            width as i32,
            height as i32,
            RGB,
            FLOAT,
            Pixels::Words(flipped_rows(texels, (width * 3) as nat, height as nat)),
        ),
    ] + wrap_filter_calls(id, CLAMP_TO_EDGE, LINEAR, LINEAR)
}

/// Whether a decoded `w` x `h` RGB image with channels `px` can be
/// uploaded: its channel count fits in `usize` and `px` holds that many
/// channels (decoders give exactly that many).
pub open spec fn rgb_upload_fits(w: u32, h: u32, px: Seq<u32>) -> bool {
    &&& w * 3 <= usize::MAX
    &&& w * 3 * h <= usize::MAX
    &&& w * 3 * h <= px.len()
}

/// What `Texture2D::from_file_bytes` makes of the image file `bytes` with
/// extension `ext`, stored as texture `id` in the internal format named
/// `name`: the texture and the calls that create it, or `None` when the
/// file does not decode (or is too large to upload).
pub open spec fn file_texture(id: u32, bytes: Seq<u8>, ext: Seq<char>, name: Seq<char>) -> Option<
    (Texture2D, Seq<GlCall>),
> {
    match decoded_rgba8(bytes, ext) {
        Some((w, h, px)) => if rgba8_upload_fits(w, h, px) {
            Some(
                (
                    Texture2D {
                        id,
                        width: w as i32,
                        height: h as i32,
                        internal_format: internal_format_named(name)->0,
                        format: RGBA,
                    },
                    mipmapped_image_calls(
                        id,
                        internal_format_named(name)->0,
                        w as i32,
                        h as i32,
                        RGBA,
                        flipped_rows(px, (w * 4) as nat, h as nat),
                    ),
                ),
            )
        } else {
            None
        },
        None => None,
    }
}

/// An image file to become a texture: the texture name to use, the file's
/// contents and its extension (which selects the decoder).
pub struct ImageFile {
    pub id: u32,
    pub bytes: Vec<u8>,
    pub ext: String,
}

/// Selects the internal format named by `name` (see `internal_format_named`).
pub fn internal_format_from_name(name: &str) -> (format: Option<u32>)
    ensures
        format == internal_format_named(name@),
{
    let name = name.to_owned();
    if name == "sRGB8_RGBA8".to_owned() {
        Some(SRGB8_ALPHA8)
    } else if name == "Linear_RGBA8".to_owned() {
        Some(RGBA8)
    } else if name == "RGB32F".to_owned() {
        Some(RGB32F)
    } else {
        None
    }
}

/// Selects the pixel and internal formats for a glTF image layout.
pub fn gltf_formats(format: ImageFormat, srgb: bool) -> (formats: Option<(u32, u32)>)
    ensures
        formats == gltf_upload_formats(format, srgb),
{
    match format {
        ImageFormat::R8G8B8A8 => Some((RGBA, if srgb { SRGB8_ALPHA8 } else { RGBA8 })),
        ImageFormat::R8G8B8 => Some((RGB, if srgb { SRGB8 } else { RGB8 })),
        _ => None,
    }
}

fn emit_wrap_filter(out: &mut Vec<GlCommand>, texture: u32, wrap: u32, min_filter: u32, mag_filter: u32)
    ensures
        calls_of(final(out)@) == calls_of(old(out)@) + wrap_filter_calls(
            texture,
            wrap,
            min_filter,
            mag_filter,
        ),
{
    emit(out, GlCommand::TextureParameteri { texture, pname: TEXTURE_WRAP_S, param: wrap as i32 });
    emit(out, GlCommand::TextureParameteri { texture, pname: TEXTURE_WRAP_T, param: wrap as i32 });
    emit(
        out,
        GlCommand::TextureParameteri { texture, pname: TEXTURE_MIN_FILTER, param: min_filter as i32 },
    );
    emit(
        out,
        GlCommand::TextureParameteri { texture, pname: TEXTURE_MAG_FILTER, param: mag_filter as i32 },
    );
    assert(calls_of(out@) =~= calls_of(old(out)@) + wrap_filter_calls(
        texture,
        wrap,
        min_filter,
        mag_filter,
    ));
}

fn emit_mipmapped_image(
    out: &mut Vec<GlCommand>,
    texture: u32,
    internal_format: u32,
    width: i32,
    height: i32,
    format: u32,
    pixels: Vec<u8>,
)
    ensures
        calls_of(final(out)@) == calls_of(old(out)@) + mipmapped_image_calls(
            texture,
            internal_format,
            width,
            height,
            format,
            pixels@,
        ),
{
    let ghost bytes = pixels@;
    emit(out, GlCommand::TextureStorage2D { texture, levels: 1, internal_format, width, height });
    emit(
        out,
        GlCommand::TextureSubImage2D {
            texture,
            level: 0,
            x_offset: 0,
            y_offset: 0,
            width,
            height,
            format,
            pixel_type: UNSIGNED_BYTE,
            pixels: PixelData::Bytes(pixels),
        },
    );
    let ghost mid = out@;
    emit_wrap_filter(out, texture, REPEAT, LINEAR_MIPMAP_LINEAR, LINEAR);
    emit(out, GlCommand::GenerateTextureMipmap { texture });
    assert(calls_of(out@) =~= calls_of(old(out)@) + mipmapped_image_calls(
        texture,
        internal_format,
        width,
        height,
        format,
        bytes,
    ));
}

impl Texture2D {
    /// The 1x1 RGBA8 texture that `from_rgba8` creates under `id`.
    pub open spec fn solid_color(id: u32) -> Texture2D {
        Texture2D { id, width: 1, height: 1, internal_format: RGBA8, format: RGBA }
    }

    /// Creates a mipmapped texture from the decoded RGBA8 `pixels` of an
    /// image, already in GL's row order (bottom row first), stored in the
    /// internal format named by `internal_format`.  `from_file_bytes`
    /// decodes and flips a file's contents and then calls this.
    pub fn from_file(
        out: &mut Vec<GlCommand>,
        id: u32,
        width: u32,
        height: u32,
        pixels: Vec<u8>,
        internal_format: &str,
    ) -> (tex: Self)
        requires
            internal_format_named(internal_format@) is Some,
        ensures
            tex.id == id,
            tex.width == width as i32,
            tex.height == height as i32,
            tex.internal_format == internal_format_named(internal_format@)->0,
            tex.format == RGBA,
            calls_of(final(out)@) == calls_of(old(out)@) + mipmapped_image_calls(
                id,
                internal_format_named(internal_format@)->0,
                width as i32,
                height as i32,
                RGBA,
                pixels@,
            ),
    {
        let internal_format = match internal_format_from_name(internal_format) {
            Some(f) => f,
            None => {
                proof {
                    assert(false);
                }
                0
            },
        };
        let format = RGBA;
        emit_mipmapped_image(out, id, internal_format, width as i32, height as i32, format, pixels);
        Texture2D { id, width: width as i32, height: height as i32, internal_format, format }
    }

    /// Creates a mipmapped texture from the contents `bytes` of an image
    /// file with extension `ext`: the image is decoded to RGBA8, flipped so
    /// that its bottom row comes first (GL's order), and stored in the
    /// internal format named by `internal_format`.  `None`, with nothing
    /// issued, when the file does not decode.
    pub fn from_file_bytes(
        out: &mut Vec<GlCommand>,
        id: u32,
        bytes: &[u8],
        ext: &str,
        internal_format: &str,
    ) -> (tex: Option<Self>)
        requires
            internal_format_named(internal_format@) is Some,
        ensures
            match file_texture(id, bytes@, ext@, internal_format@) {
                Some((t, calls)) => tex == Some(t) && calls_of(final(out)@) == calls_of(old(out)@) + calls,
                None => tex is None && final(out)@ == old(out)@,
            },
    {
        match decode_rgba8(bytes, ext) {
            None => None,
            Some((w, h, px)) => {
                let row_len = match (w as usize).checked_mul(4) {
                    Some(n) => n,
                    None => return None,
                };
                let total = match row_len.checked_mul(h as usize) {
                    Some(n) => n,
                    None => return None,
                };
                if total > px.len() {
                    return None;
                }
                let flipped = flip_rows(row_len, h as usize, px.as_slice());
                Some(Texture2D::from_file(out, id, w, h, flipped, internal_format))
            },
        }
    }

    /// Creates a 1x1 texture holding one RGBA8 colour.
    pub fn from_rgba8(out: &mut Vec<GlCommand>, id: u32, color: [u8; 4]) -> (tex: Self)
        ensures
            tex.id == id,
            tex.width == 1,
            tex.height == 1,
            tex.internal_format == RGBA8,
            tex.format == RGBA,
            calls_of(final(out)@) == calls_of(old(out)@) + solid_color_calls(id, color@),
    {
        let internal_format = RGBA8;
        let format = RGBA;
        let bytes = slice_to_vec(color.as_slice());
        emit(out, GlCommand::TextureStorage2D { texture: id, levels: 1, internal_format, width: 1, height: 1 });
        emit(
            out,
            GlCommand::TextureSubImage2D {
                texture: id,
                level: 0,
                x_offset: 0,
                y_offset: 0,
                width: 1,
                height: 1,
                format,
                pixel_type: UNSIGNED_BYTE,
                pixels: PixelData::Bytes(bytes),
            },
        );
        emit_wrap_filter(out, id, REPEAT, LINEAR, LINEAR);
        assert(calls_of(out@) =~= calls_of(old(out)@) + solid_color_calls(id, color@));
        Texture2D { id, width: 1, height: 1, internal_format, format }
    }

    /// Bind `self` to texture unit `unit`.
    pub fn bind(&self, out: &mut Vec<GlCommand>, unit: u32)
        ensures
            calls_of(final(out)@) == calls_of(old(out)@).push(
                GlCall::BindTextureUnit { unit, texture: self.id },
            ),
    {
        emit(out, GlCommand::BindTextureUnit { unit, texture: self.id });
    }
}


impl Texture2D {
    /// Creates a texture from a decoded glTF image: `srgb` selects an sRGB
    /// internal format.  Without an image, a fresh set of default textures
    /// is created and its flat-normal texture is the result.  `names` holds
    /// the texture names to use: one with an image, three (white, normal,
    /// black) without.
    pub fn from_gltf(
        out: &mut Vec<GlCommand>,
        image: Option<&ImageData>,
        srgb: bool,
        names: &[u32],
    ) -> (tex: Self)
        requires
            match image {
                Some(img) => gltf_upload_formats(img.format, srgb) is Some && names@.len() == 1,
                None => names@.len() == 3,
            },
        ensures
            match image {
                Some(img) => {
                    let (format, internal_format) = gltf_upload_formats(img.format, srgb)->0;
                    &&& tex == Texture2D {
                        id: names@[0],
                        width: img.width as i32,
                        height: img.height as i32,
                        internal_format,
                        format,
                    }
                    &&& calls_of(final(out)@) == calls_of(old(out)@) + mipmapped_image_calls(
                        names@[0],
                        internal_format,
                        img.width as i32,
                        img.height as i32,
                        format,
                        img.pixels@,
                    )
                },
                None => {
                    &&& tex == Texture2D {
                        id: names@[1],
                        width: 1,
                        height: 1,
                        internal_format: RGBA8,
                        format: RGBA,
                    }
                    &&& calls_of(final(out)@) == calls_of(old(out)@) + default_textures_calls(
                        names@[0],
                        names@[1],
                        names@[2],
                    )
                },
            },
    {
        match image {
            Some(img) => {
                let (format, internal_format) = match gltf_formats(img.format, srgb) {
                    Some(f) => f,
                    None => {
                        proof {
                            assert(false);
                        }
                        (0, 0)
                    },
                };
                let id = names[0];
                let pixels = slice_to_vec(img.pixels.as_slice());
                emit_mipmapped_image(
                    out,
                    id,
                    internal_format,
                    img.width as i32,
                    img.height as i32,
                    format,
                    pixels,
                );
                Texture2D {
                    id,
                    width: img.width as i32,
                    height: img.height as i32,
                    internal_format,
                    format,
                }
            },
            None => DefaultTextures::new(out, names[0], names[1], names[2]).normal,
        }
    }

    /// Allocates a texture without contents (`format` is 0).
    pub fn empty(
        out: &mut Vec<GlCommand>,
        id: u32,
        width: u32,
        height: u32,
        internal_format: u32,
        filter: u32,
        wrap_mode: u32,
    ) -> (tex: Self)
        ensures
            tex == (Texture2D {
                id,
                width: width as i32,
                height: height as i32,
                internal_format,
                format: 0,
            }),
            calls_of(final(out)@) == calls_of(old(out)@) + empty_texture_calls(
                id,
                width,
                height,
                internal_format,
                filter,
                wrap_mode,
            ),
    {
        let format: u32 = 0;
        emit(
            out,
            GlCommand::TextureStorage2D {
                texture: id,
                levels: 1,
                internal_format,
                width: width as i32,
                height: height as i32,
            },
        );
        emit(
            out,
            GlCommand::TextureParameteri { texture: id, pname: TEXTURE_MIN_FILTER, param: filter as i32 },
        );
        emit(
            out,
            GlCommand::TextureParameteri { texture: id, pname: TEXTURE_MAG_FILTER, param: filter as i32 },
        );
        emit(
            out,
            GlCommand::TextureParameteri { texture: id, pname: TEXTURE_WRAP_S, param: wrap_mode as i32 },
        );
        emit(
            out,
            GlCommand::TextureParameteri { texture: id, pname: TEXTURE_WRAP_T, param: wrap_mode as i32 },
        );
        assert(calls_of(out@) =~= calls_of(old(out)@) + empty_texture_calls(
            id,
            width,
            height,
            internal_format,
            filter,
            wrap_mode,
        ));
        Texture2D { id, width: width as i32, height: height as i32, internal_format, format }
    }

    /// Replaces the texture's storage with `width` x `height` storage of the
    /// same internal format: the old texture is deleted and `new_id`, a
    /// freshly created texture name, takes its place.
    pub fn recreate(&mut self, out: &mut Vec<GlCommand>, new_id: u32, width: u32, height: u32)
        ensures
            *final(self) == (Texture2D {
                id: new_id,
                width: width as i32,
                height: height as i32,
                ..*old(self)
            }),
            calls_of(final(out)@) == calls_of(old(out)@) + recreate_calls(
                old(self).id,
                new_id,
                old(self).internal_format,
                width,
                height,
            ),
    {
        emit(out, GlCommand::DeleteTexture { texture: self.id });
        self.id = new_id;
        emit(
            out,
            GlCommand::TextureStorage2D {
                texture: self.id,
                levels: 1,
                internal_format: self.internal_format,
                width: width as i32,
                height: height as i32,
            },
        );
        self.width = width as i32;
        self.height = height as i32;
        assert(calls_of(out@) =~= calls_of(old(out)@) + recreate_calls(
            old(self).id,
            new_id,
            old(self).internal_format,
            width,
            height,
        ));
    }

    /// Creates a texture from decoded HDR texels (three `f32` channels per
    /// texel, as bit patterns, top row first), stored as RGB16F, clamped
    /// and bilinear; the rows are uploaded bottom row first.
    pub fn from_hdr_file(out: &mut Vec<GlCommand>, id: u32, width: u32, height: u32, texels: &[u32]) -> (tex: Self)
        requires
            width * 3 <= usize::MAX,
            width * 3 * height <= texels@.len(),
        ensures
            tex == (Texture2D {
                id,
                width: width as i32,
                height: height as i32,
                internal_format: RGB16F,
                format: RGB,
            }),
            calls_of(final(out)@) == calls_of(old(out)@) + hdr_texture_calls(id, width, height, texels@),
    {
        assert((width as usize) * 3 * (height as usize) <= texels@.len());
        let texels = flip_rows((width as usize) * 3, height as usize, texels);
        let ghost words = texels@;
        let internal_format = RGB16F;
        let format = RGB;
        emit(
            out,
            GlCommand::TextureStorage2D {
                texture: id,
                levels: 1,
                internal_format,
                width: width as i32,
                height: height as i32,
            },
        );
        emit(
            out,
            GlCommand::TextureSubImage2D {
                texture: id,
                level: 0,
                x_offset: 0,
                y_offset: 0,
                width: width as i32,
                height: height as i32,
                format,
                pixel_type: FLOAT,
                pixels: PixelData::Words(texels),
            },
        );
        emit_wrap_filter(out, id, CLAMP_TO_EDGE, LINEAR, LINEAR);
        assert(calls_of(out@) =~= calls_of(old(out)@) + seq![
            storage_call(id, RGB16F, width as i32, height as i32),
            sub_image_call(id, width as i32, height as i32, RGB, FLOAT, Pixels::Words(words)),
        ] + wrap_filter_calls(id, CLAMP_TO_EDGE, LINEAR, LINEAR));
        Texture2D { id, width: width as i32, height: height as i32, internal_format, format }
    }

    /// Creates a texture from the contents `bytes` of an HDR image file with
    /// extension `ext`: the image is decoded to `f32` RGB texels and stored
    /// as in `from_hdr_file`.  `None`, with nothing issued, when the file
    /// does not decode (or is too large to upload).
    pub fn from_hdr_file_bytes(out: &mut Vec<GlCommand>, id: u32, bytes: &[u8], ext: &str) -> (tex: Option<Self>)
        ensures
            match decoded_rgb32f_bits(bytes@, ext@) {
                Some((w, h, px)) => if rgb_upload_fits(w, h, px) {
                    &&& tex == Some(
                        Texture2D {
                            id,
                            width: w as i32,
                            height: h as i32,
                            internal_format: RGB16F,
                            format: RGB,
                        },
                    )
                    &&& calls_of(final(out)@) == calls_of(old(out)@) + hdr_texture_calls(id, w, h, px)
                } else {
                    tex is None && final(out)@ == old(out)@
                },
                None => tex is None && final(out)@ == old(out)@,
            },
    {
        match decode_rgb32f_bits(bytes, ext) {
            None => None,
            Some((w, h, px)) => {
                let row_len = match (w as usize).checked_mul(3) {
                    Some(n) => n,
                    None => return None,
                };
                let total = match row_len.checked_mul(h as usize) {
                    Some(n) => n,
                    None => return None,
                };
                if total > px.len() {
                    return None;
                }
                Some(Texture2D::from_hdr_file(out, id, w, h, px.as_slice()))
            },
        }
    }

    /// Creates a texture from raw words, uploaded as `format` with unsigned
    /// byte components.
    pub fn from_bytes(
        out: &mut Vec<GlCommand>,
        id: u32,
        width: u32,
        height: u32,
        internal_format: u32,
        format: u32,
        filter: u32,
        wrap_mode: u32,
        data: &[u32],
    ) -> (tex: Self)
        ensures
            tex == (Texture2D {
                id,
                width: width as i32,
                height: height as i32,
                internal_format,
                format,
            }),
            calls_of(final(out)@) == calls_of(old(out)@) + seq![
                storage_call(id, internal_format, width as i32, height as i32),
                sub_image_call(id, width as i32, height as i32, format, UNSIGNED_BYTE, Pixels::Words(data@)),
            ] + wrap_filter_calls(id, wrap_mode, filter, filter),
    {
        emit(
            out,
            GlCommand::TextureStorage2D {
                texture: id,
                levels: 1,
                internal_format,
                width: width as i32,
                height: height as i32,
            },
        );
        emit(
            out,
            GlCommand::TextureSubImage2D {
                texture: id,
                level: 0,
                x_offset: 0,
                y_offset: 0,
                width: width as i32,
                height: height as i32,
                format,
                pixel_type: UNSIGNED_BYTE,
                pixels: PixelData::Words(slice_to_vec(data)),
            },
        );
        emit_wrap_filter(out, id, wrap_mode, filter, filter);
        assert(calls_of(out@) =~= calls_of(old(out)@) + seq![
            storage_call(id, internal_format, width as i32, height as i32),
            sub_image_call(id, width as i32, height as i32, format, UNSIGNED_BYTE, Pixels::Words(data@)),
        ] + wrap_filter_calls(id, wrap_mode, filter, filter));
        Texture2D { id, width: width as i32, height: height as i32, internal_format, format }
    }
}

/// The textures that stand in for missing material maps.
pub struct DefaultTextures {
    pub white: Texture2D,
    pub normal: Texture2D,
    pub black: Texture2D,
}

impl DefaultTextures {
    /// Creates the white, flat-normal (128, 128, 255) and black 1x1
    /// textures, under the given names.
    pub fn new(out: &mut Vec<GlCommand>, white_id: u32, normal_id: u32, black_id: u32) -> (defaults: Self)
        ensures
            defaults.white == (Texture2D { id: white_id, width: 1, height: 1, internal_format: RGBA8, format: RGBA }),
            defaults.normal == (Texture2D { id: normal_id, width: 1, height: 1, internal_format: RGBA8, format: RGBA }),
            defaults.black == (Texture2D { id: black_id, width: 1, height: 1, internal_format: RGBA8, format: RGBA }),
            calls_of(final(out)@) == calls_of(old(out)@) + default_textures_calls(
                white_id,
                normal_id,
                black_id,
            ),
    {
        let white = Texture2D::from_rgba8(out, white_id, [255, 255, 255, 255]);
        let normal = Texture2D::from_rgba8(out, normal_id, [128, 128, 255, 255]);
        let black = Texture2D::from_rgba8(out, black_id, [0, 0, 0, 255]);
        proof {
            assert([255u8, 255u8, 255u8, 255u8]@ =~= white_rgba());
            assert([128u8, 128u8, 255u8, 255u8]@ =~= flat_normal_rgba());
            assert([0u8, 0u8, 0u8, 255u8]@ =~= black_rgba());
        }
        assert(calls_of(out@) =~= calls_of(old(out)@) + default_textures_calls(
            white_id,
            normal_id,
            black_id,
        ));
        DefaultTextures { white, normal, black }
    }
}

} // verus!
