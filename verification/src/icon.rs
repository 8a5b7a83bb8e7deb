//! The tray icon bitmap.
//!
//! The icon asset is decoded once at startup from PNG bytes into an RGBA8
//! pixel buffer, and each 4-byte pixel is then rotated one position to the
//! right — RGBA to ARGB — because the tray protocol wants its channels in
//! that order. Decoding is the one unrecoverable failure of the
//! application: a tray icon without a bitmap has no degraded mode.

use vstd::prelude::*;

use image::GenericImageView;

verus! {

/// A bitmap icon in the tray protocol's channel order, ready to register.
#[derive(Debug, Clone, PartialEq)]
pub struct Icon {
    /// Width in pixels.
    pub width: i32,
    /// Height in pixels.
    pub height: i32,
    /// The pixel bytes, four per pixel, in ARGB order.
    pub data: Vec<u8>,
}

/// Why an icon could not be built from the asset bytes.
#[derive(Debug, Clone, Copy, PartialEq, Eq, Structural)]
pub enum IconError {
    /// The bytes are not a decodable PNG image.
    DecodeFailed,
    /// A decoded dimension does not fit the tray protocol's signed widths.
    OversizedDimensions,
    /// The pixel buffer does not hold exactly four bytes per pixel.
    MalformedBuffer,
}

/// The buffer with every aligned 4-byte pixel rotated one byte to the
/// right: RGBA becomes ARGB. Each pixel is converted independently.
pub open spec fn argb_from_rgba(s: Seq<u8>) -> Seq<u8> {
    Seq::new(
        s.len(),
        |i: int|
            if i % 4 == 0 {
                s[i + 3]
            } else {
                s[i - 1]
            },
    )
}

/// Each aligned 4-byte pixel of the converted buffer is the fixed cyclic
/// rotation of the pixel before conversion, applied independently per
/// pixel: the byte order `r g b a` becomes `a r g b`.
pub proof fn lemma_argb_is_per_pixel_rotation(s: Seq<u8>, k: int)
    requires
        0 <= k,
        4 * k + 3 < s.len(),
    ensures
        argb_from_rgba(s)[4 * k] == s[4 * k + 3],
        argb_from_rgba(s)[4 * k + 1] == s[4 * k],
        argb_from_rgba(s)[4 * k + 2] == s[4 * k + 1],
        argb_from_rgba(s)[4 * k + 3] == s[4 * k + 2],
{
    assert((4 * k) % 4 == 0 && (4 * k + 1) % 4 == 1 && (4 * k + 2) % 4 == 2 && (4 * k + 3) % 4
        == 3) by (nonlinear_arith);
}

/// Rotate every 4-byte pixel of an RGBA8 buffer one byte to the right, in
/// place, turning it into ARGB order.
pub fn rotate_pixels(data: &mut Vec<u8>)
    requires
        old(data)@.len() % 4 == 0,
    ensures
        final(data)@ == argb_from_rgba(old(data)@),
{
    let n = data.len();
    let pixels = n / 4;
    let mut k: usize = 0;
    while k < pixels
        invariant
            data@.len() == n,
            n == old(data)@.len(),
            n % 4 == 0,
            pixels == n / 4,
            k <= pixels,
            forall|i: int| 0 <= i < 4 * k ==> data@[i] == argb_from_rgba(old(data)@)[i],
            forall|i: int| 4 * k <= i < n ==> data@[i] == old(data)@[i],
        decreases pixels - k,
    {
        let base = 4 * k;
        let r = data[base];
        let g = data[base + 1];
        let b = data[base + 2];
        let a = data[base + 3];
        data[base] = a;
        data[base + 1] = r;
        data[base + 2] = g;
        data[base + 3] = b;
        proof {
            lemma_argb_is_per_pixel_rotation(old(data)@, k as int);
        }
        k = k + 1;
    }
    assert(data@ =~= argb_from_rgba(old(data)@));
}

/// Build the tray icon from an already decoded RGBA8 buffer with the given
/// dimensions: reject dimensions the protocol's signed widths cannot hold
/// and buffers that are not exactly four bytes per pixel, and otherwise
/// convert the pixels to ARGB order.
pub fn icon_from_decoded(width: u32, height: u32, data: Vec<u8>) -> (r: Result<Icon, IconError>)
    ensures
        (width > i32::MAX || height > i32::MAX) ==> r == Result::<Icon, IconError>::Err(
            IconError::OversizedDimensions,
        ),
        width <= i32::MAX && height <= i32::MAX && data@.len() != 4 * width * height ==> r
            == Result::<Icon, IconError>::Err(IconError::MalformedBuffer),
        width <= i32::MAX && height <= i32::MAX && data@.len() == 4 * width * height ==> (
        r matches Ok(icon) && ({
            &&& icon.width == width as i32
            &&& icon.height == height as i32
            &&& icon.data@ == argb_from_rgba(data@)
        })),
{
    if width > 0x7fff_ffffu32 || height > 0x7fff_ffffu32 {
        return Err(IconError::OversizedDimensions);
    }
    proof {
        vstd::arithmetic::mul::lemma_mul_upper_bound(
            4 * (width as int),
            0x4_0000_0000,
            height as int,
            0xffff_ffff,
        );
    }
    let expected: u128 = 4u128 * (width as u128) * (height as u128);
    if (data.len() as u128) != expected {
        return Err(IconError::MalformedBuffer);
    }
    let mut pixels = data;
    proof {
        vstd::arithmetic::mul::lemma_mul_is_associative(4, width as int, height as int);
        vstd::arithmetic::div_mod::lemma_mod_multiples_basic((width as int) * (height as int), 4);
        assert(pixels@.len() % 4 == 0);
    }
    rotate_pixels(&mut pixels);
    Ok(Icon { width: width as i32, height: height as i32, data: pixels })
}

/// What decoding the given bytes as a PNG yields — the dimensions and the
/// RGBA8 buffer — or nothing, where the bytes do not decode. Decoding is
/// deterministic: the result depends on the bytes alone.
pub uninterp spec fn png_rgba_of(bytes: Seq<u8>) -> Option<(u32, u32, Seq<u8>)>;

/// Relies on `image::load_from_memory_with_format` with the PNG format,
/// `GenericImageView::dimensions`, `DynamicImage::into_rgba8` and
/// `ImageBuffer::into_vec`: the decode is a function of the bytes alone —
/// named [`png_rgba_of`] — and a successful one yields the image's
/// dimensions and its RGBA8 buffer, which holds exactly four bytes per
/// pixel, width times height pixels.
#[verifier::external_body]
fn decode_png_rgba(bytes: &[u8]) -> (r: Option<(u32, u32, Vec<u8>)>)
    ensures
        r is Some <==> png_rgba_of(bytes@) is Some,
        r matches Some(t) ==> ({
            &&& png_rgba_of(bytes@) matches Some(d) && t.0 == d.0 && t.1 == d.1 && t.2@ == d.2
            &&& t.2@.len() == 4 * t.0 * t.1
        }),
{
    match image::load_from_memory_with_format(bytes, image::ImageFormat::Png) {
        Ok(img) => {
            let (width, height) = img.dimensions();
            Some((width, height, img.into_rgba8().into_vec()))
        },
        Err(_) => None,
    }
}

/// Decode the PNG icon asset and convert its pixels to the tray protocol's
/// ARGB order. Fails with `DecodeFailed` exactly when the bytes do not
/// decode; a decoded icon is rejected only if a dimension overflows the
/// protocol's signed widths, and is otherwise returned with its buffer the
/// per-pixel rotation of the decoded RGBA8 buffer.
pub fn build_tray_icon(bytes: &[u8]) -> (r: Result<Icon, IconError>)
    ensures
        r == Result::<Icon, IconError>::Err(IconError::DecodeFailed) <==> png_rgba_of(bytes@)
            is None,
        png_rgba_of(bytes@) matches Some(d) ==> ({
            &&& (d.0 > i32::MAX || d.1 > i32::MAX) ==> r == Result::<Icon, IconError>::Err(
                IconError::OversizedDimensions,
            )
            &&& d.0 <= i32::MAX && d.1 <= i32::MAX ==> (r matches Ok(icon) && ({
                &&& icon.width == d.0 as i32
                &&& icon.height == d.1 as i32
                &&& icon.data@ == argb_from_rgba(d.2)
            }))
        }),
{
    match decode_png_rgba(bytes) {
        Some((width, height, data)) => icon_from_decoded(width, height, data),
        None => Err(IconError::DecodeFailed),
    }
}

} // verus!
