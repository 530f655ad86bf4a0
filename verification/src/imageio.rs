//! Image intake for the engine: base64 payload extraction, image decoding,
//! and preprocessing into the network's channel-first input layout.
//!
//! Decoding and resampling are done by the `base64` and `image` crates
//! behind trusted wrappers; the payload extraction and the channel-first
//! permutation are verified here. A decoded image is carried in
//! [`RgbImageData`], whose contents the spec functions [`img_data`] and
//! [`img_dims`] name.

use vstd::prelude::*;
use vstd::slice::slice_subrange;
use vstd::string::StringSliceAdditionalSpecFns;

use crate::errors::EngineError;

verus! {

/// Pixels of the network's square input: 640 * 640.
pub const NET_PIXELS: usize = 409600;

/// A decoded RGB8 image: row-major, channels interleaved, three bytes per
/// pixel. Holds the image crate's buffer; Verus sees it only through
/// [`img_data`] and [`img_dims`].
#[verifier::external_body]
pub struct RgbImageData {
    inner: image::ImageBuffer<image::Rgb<u8>, Vec<u8>>,
}

/// The raw contents of a decoded image: width * height * 3 interleaved RGB
/// bytes in row-major order.
pub uninterp spec fn img_data(img: RgbImageData) -> Seq<u8>;

/// The (width, height) of a decoded image, in pixels.
pub uninterp spec fn img_dims(img: RgbImageData) -> (nat, nat);

/// What base64's standard-alphabet engine decodes a byte string to, or
/// `None` when the input is not valid base64.
pub uninterp spec fn base64_decoded(input: Seq<u8>) -> Option<Seq<u8>>;

/// What the image crate decodes a byte string to: `(width, height, raw RGB8
/// contents)`, or `None` when the bytes are no decodable image.
pub uninterp spec fn decoded_rgb(bytes: Seq<u8>) -> Option<(nat, nat, Seq<u8>)>;

/// The raw RGB8 contents of an image resampled to the network's 640x640
/// input resolution with a triangular filter.
pub uninterp spec fn resampled_net_input(data: Seq<u8>, width: nat, height: nat) -> Seq<u8>;

impl RgbImageData {
    /// Relies on ImageBuffer::from_raw, which wraps a container of exactly
    /// width * height * 3 bytes without touching it.
    #[verifier::external_body]
    pub fn from_raw_rgb8(width: u32, height: u32, data: Vec<u8>) -> (r: RgbImageData)
        requires
            data@.len() == 3 * width * height,
        ensures
            img_data(r) == data@,
            img_dims(r) == (width as nat, height as nat),
    {
        match image::ImageBuffer::from_raw(width, height, data) {
            Some(inner) => RgbImageData { inner },
            None => RgbImageData {
                inner: image::ImageBuffer::new(width, height),
            },
        }
    }

    /// Relies on ImageBuffer::width.
    #[verifier::external_body]
    pub fn width(&self) -> (w: u32)
        ensures
            w as nat == img_dims(*self).0,
    {
        self.inner.width()
    }

    /// Relies on ImageBuffer::height.
    #[verifier::external_body]
    pub fn height(&self) -> (h: u32)
        ensures
            h as nat == img_dims(*self).1,
    {
        self.inner.height()
    }
}

/// Relies on the `Engine::decode` of base64's `general_purpose::STANDARD`:
/// decoding is a pure function of the input bytes, and invalid input is
/// rejected.
#[verifier::external_body]
fn base64_decode_standard(input: &[u8]) -> (r: Result<Vec<u8>, EngineError>)
    ensures
        match r {
            Ok(v) => base64_decoded(input@) == Some(v@),
            Err(e) => base64_decoded(input@) is None && e == EngineError::ImageDecode,
        },
{
    match base64::Engine::decode(&base64::engine::general_purpose::STANDARD, input) {
        Ok(v) => Ok(v),
        Err(_) => Err(EngineError::ImageDecode),
    }
}

/// Relies on image::load_from_memory (format guessed from the bytes)
/// followed by DynamicImage::to_rgb8: together one pure decode of the bytes
/// into an RGB8 buffer, whose container holds exactly width * height * 3
/// bytes and whose dimensions are `u32`s.
#[verifier::external_body]
fn load_rgb8_image(bytes: &[u8]) -> (r: Result<RgbImageData, EngineError>)
    ensures
        match r {
            Ok(img) => {
                &&& decoded_rgb(bytes@) == Some((img_dims(img).0, img_dims(img).1, img_data(img)))
                &&& img_data(img).len() == 3 * img_dims(img).0 * img_dims(img).1
                &&& img_dims(img).0 <= u32::MAX as nat
                &&& img_dims(img).1 <= u32::MAX as nat
            },
            Err(e) => decoded_rgb(bytes@) is None && e == EngineError::ImageDecode,
        },
{
    match image::load_from_memory(bytes) {
        Ok(dynamic) => Ok(RgbImageData { inner: dynamic.to_rgb8() }),
        Err(_) => Err(EngineError::ImageDecode),
    }
}

/// Relies on image::imageops::resize with FilterType::Triangle: a pure
/// resample of the pixel data to 640x640, handed back as the raw
/// interleaved RGB container of exactly 3 * 640 * 640 bytes.
#[verifier::external_body]
fn resize_to_net(img: &RgbImageData) -> (r: Vec<u8>)
    ensures
        r@ == resampled_net_input(img_data(*img), img_dims(*img).0, img_dims(*img).1),
        r@.len() == 3 * NET_PIXELS,
{
    image::imageops::resize(&img.inner, 640, 640, image::imageops::FilterType::Triangle).into_raw()
}

/// The byte string starts with `data:`.
pub open spec fn is_data_url(b: Seq<u8>) -> bool {
    b.len() >= 5 && b[0] == 100u8 && b[1] == 97u8 && b[2] == 116u8 && b[3] == 97u8 && b[4] == 58u8
}

/// The first comma at or after `from`, if any.
pub open spec fn spec_find_comma(b: Seq<u8>, from: int) -> Option<int>
    decreases b.len() - from,
{
    if from < 0 || from >= b.len() {
        None
    } else if b[from] == 44u8 {
        Some(from)
    } else {
        spec_find_comma(b, from + 1)
    }
}

/// The base64 payload of a byte string: for a `data:` URL, the segment
/// between the first and second comma (to the end when there is no second
/// comma, the whole string when there is no first); anything else is taken
/// whole.
pub open spec fn spec_payload(b: Seq<u8>) -> Seq<u8> {
    if is_data_url(b) {
        match spec_find_comma(b, 0) {
            Some(i) => match spec_find_comma(b, i + 1) {
                Some(j) => b.subrange(i + 1, j),
                None => b.subrange(i + 1, b.len() as int),
            },
            None => b,
        }
    } else {
        b
    }
}

/// Finds the first comma at or after `from`.
fn find_comma(b: &[u8], from: usize) -> (r: Option<usize>)
    requires
        from <= b@.len(),
    ensures
        match (r, spec_find_comma(b@, from as int)) {
            (Some(a), Some(c)) => a == c && from <= a < b@.len(),
            (None, None) => true,
            _ => false,
        },
{
    let n = b.len();
    let mut i: usize = from;
    while i < n
        invariant
            n == b@.len(),
            from <= i <= n,
            spec_find_comma(b@, from as int) == spec_find_comma(b@, i as int),
        decreases n - i,
    {
        if *vstd::slice::slice_index_get(b, i) == 44u8 {
            return Some(i);
        }
        i += 1;
    }
    None
}

/// The base64 payload of an image text: strips a `data:...,` prefix.
fn payload_of(b: &[u8]) -> (r: &[u8])
    ensures
        r@ == spec_payload(b@),
{
    let is_data = b.len() >= 5 && *vstd::slice::slice_index_get(b, 0) == 100u8
        && *vstd::slice::slice_index_get(b, 1) == 97u8 && *vstd::slice::slice_index_get(b, 2)
        == 116u8 && *vstd::slice::slice_index_get(b, 3) == 97u8 && *vstd::slice::slice_index_get(
        b,
        4,
    ) == 58u8;
    if !is_data {
        proof {
            assert(b@.subrange(0, b@.len() as int) =~= b@);
        }
        return slice_subrange(b, 0, b.len());
    }
    match find_comma(b, 0) {
        Some(i) => match find_comma(b, i + 1) {
            Some(j) => slice_subrange(b, i + 1, j),
            None => slice_subrange(b, i + 1, b.len()),
        },
        None => {
            proof {
                assert(b@.subrange(0, b@.len() as int) =~= b@);
            }
            slice_subrange(b, 0, b.len())
        },
    }
}

/// Decodes a base64 image text (plain, or a `data:` URL) into an RGB8
/// buffer, through base64's standard engine and the image crate's format
/// detection.
pub fn decode_base64_image(data: &str) -> (r: Result<RgbImageData, EngineError>)
    ensures
        match r {
            Ok(img) => {
                &&& base64_decoded(spec_payload(data.spec_bytes())) matches Some(bytes)
                    && decoded_rgb(bytes) == Some(
                    (img_dims(img).0, img_dims(img).1, img_data(img)),
                )
                &&& img_data(img).len() == 3 * img_dims(img).0 * img_dims(img).1
                &&& img_dims(img).0 <= u32::MAX as nat
                &&& img_dims(img).1 <= u32::MAX as nat
            },
            Err(e) => {
                &&& e == EngineError::ImageDecode
                &&& match base64_decoded(spec_payload(data.spec_bytes())) {
                    Some(bytes) => decoded_rgb(bytes) is None,
                    None => true,
                }
            },
        },
{
    let bytes = data.as_bytes();
    let payload = payload_of(bytes);
    let decoded = match base64_decode_standard(payload) {
        Ok(v) => v,
        Err(e) => {
            return Err(e);
        },
    };
    load_rgb8_image(decoded.as_slice())
}

/// Where flat channel-first index `idx` reads from in the interleaved
/// layout: channel `idx / pixels`, pixel `idx % pixels`.
pub open spec fn spec_interleaved_index(idx: int, pixels: int) -> int {
    3 * (idx % pixels) + idx / pixels
}

/// Rearranges interleaved RGB bytes into the channel-first layout the
/// network expects: all red bytes, then all green, then all blue, each
/// channel in row-major pixel order.
pub fn to_channel_first(raw: &Vec<u8>, pixels: usize) -> (r: Vec<u8>)
    requires
        raw@.len() == 3 * pixels,
    ensures
        r@.len() == 3 * pixels,
        forall|idx: int|
            0 <= idx < 3 * pixels ==> #[trigger] r@[idx] == raw@[spec_interleaved_index(
                idx,
                pixels as int,
            )],
{
    let n = raw.len();
    let mut r: Vec<u8> = Vec::new();
    let mut c: usize = 0;
    while c < 3
        invariant
            n == raw@.len(),
            raw@.len() == 3 * pixels,
            c <= 3,
            r@.len() == c * pixels,
            forall|idx: int|
                0 <= idx < c * pixels ==> #[trigger] r@[idx] == raw@[spec_interleaved_index(
                    idx,
                    pixels as int,
                )],
        decreases 3 - c,
    {
        let mut p: usize = 0;
        while p < pixels
            invariant
                n == raw@.len(),
                raw@.len() == 3 * pixels,
                c < 3,
                p <= pixels,
                r@.len() == c * pixels + p,
                forall|idx: int|
                    0 <= idx < c * pixels + p ==> #[trigger] r@[idx] == raw@[spec_interleaved_index(
                        idx,
                        pixels as int,
                    )],
            decreases pixels - p,
        {
            r.push(raw[3 * p + c]);
            proof {
                vstd::arithmetic::div_mod::lemma_fundamental_div_mod_converse(
                    c * pixels + p,
                    pixels as int,
                    c as int,
                    p as int,
                );
                assert(spec_interleaved_index(c * pixels + p, pixels as int) == 3 * p + c);
            }
            p += 1;
        }
        proof {
            assert((c + 1) * (pixels as int) == c * (pixels as int) + pixels as int)
                by (nonlinear_arith);
        }
        c += 1;
    }
    r
}

/// Preprocesses an RGB image for the network: resample to 640x640 with a
/// triangular filter, then reorder into channel-first layout. The caller
/// scales each byte to the network's [0, 1] float range.
pub fn preprocess_image(img: &RgbImageData) -> (r: Vec<u8>)
    ensures
        r@.len() == 3 * NET_PIXELS,
        forall|idx: int|
            0 <= idx < 3 * NET_PIXELS ==> #[trigger] r@[idx] == resampled_net_input(
                img_data(*img),
                img_dims(*img).0,
                img_dims(*img).1,
            )[spec_interleaved_index(idx, NET_PIXELS as int)],
{
    let resized = resize_to_net(img);
    to_channel_first(&resized, NET_PIXELS)
}

} // verus!
