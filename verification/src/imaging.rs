use vstd::prelude::*;
use vstd::std_specs::iter::IteratorSpec;
use vstd::string::StringExecFns;

use crate::client::dec_digits;
use crate::client::push_dec_digits;

verus! {

/// Largest target edge length the normalizer accepts; bounds the pixel
/// buffer so its size arithmetic can never overflow.
pub const MAX_TARGET_SIZE: u32 = 4096;

/// A decoded image in the fixed presentation format: RGBA with straight
/// alpha, four bytes per pixel, row-major. Absence of an image is always an
/// absent value, never an empty buffer.
pub struct NormalizedImage {
    pub pixels: Vec<u8>,
    pub width: u32,
    pub height: u32,
}

/// The pixel buffer holds exactly four bytes for every pixel.
pub open spec fn image_wf(img: NormalizedImage) -> bool {
    img.pixels@.len() == 4 * (img.width as nat) * (img.height as nat)
}

/// The observable content of an optional image: pixel bytes and dimensions.
pub open spec fn opt_image_view(img: Option<NormalizedImage>) -> Option<(Seq<u8>, u32, u32)> {
    match img {
        None => None,
        Some(i) => Some((i.pixels@, i.width, i.height)),
    }
}

/// What the decoder reports for the image in `bytes`: its width and height
/// when the bytes decode, nothing otherwise.
pub uninterp spec fn decoded_dims(bytes: Seq<u8>) -> Option<(u32, u32)>;

/// What decoding `bytes` and resampling to `size` by `size` yields: the raw
/// RGBA bytes on success, nothing when the bytes do not decode as an image.
pub uninterp spec fn normalized_pixels(bytes: Seq<u8>, size: u32) -> Option<Seq<u8>>;

/// The resampler sums each channel of a source block into a 32-bit
/// accumulator. The block behind one target pixel spans at most
/// `w / size + 2` by `h / size + 2` source pixels, so a block of at most
/// 65536 pixels keeps every accumulator in range even for 16-bit channels.
pub open spec fn resample_safe(w: u32, h: u32, size: u32) -> bool {
    (w as int / size as int + 2) * (h as int / size as int + 2) <= 65536
}

/// Relies on image::guess_format and image::load_from_memory_with_format:
/// the format is guessed from the magic bytes alone and the decode, given a
/// named format, dispatches only to that format's built-in decoder, so the
/// result depends on the bytes alone; failure on either step is an error
/// value, never a panic.
#[verifier::external_body]
fn decode_dimensions(bytes: &[u8]) -> (r: Option<(u32, u32)>)
    ensures
        r == decoded_dims(bytes@),
{
    let fmt = match image::guess_format(bytes) {
        Ok(f) => f,
        Err(_) => return None,
    };
    match image::load_from_memory_with_format(bytes, fmt) {
        Ok(img) => Some((img.width(), img.height())),
        Err(_) => None,
    }
}

/// Relies on image::guess_format, image::load_from_memory_with_format,
/// DynamicImage::thumbnail_exact and DynamicImage::to_rgba8: the format
/// comes from the magic bytes and the decode uses only its built-in
/// decoder, so the chain depends on the bytes and the size alone;
/// thumbnail_exact returns a new image of exactly the requested dimensions;
/// to_rgba8 keeps the dimensions and its raw buffer holds four bytes per
/// pixel. The dimension bound in `requires` keeps the resampler's 32-bit
/// channel accumulators from overflowing, so the chain does not panic on
/// admitted inputs.
#[verifier::external_body]
fn decode_and_resize(bytes: &[u8], size: u32) -> (r: Option<Vec<u8>>)
    requires
        1 <= size <= MAX_TARGET_SIZE,
        decoded_dims(bytes@) matches Some(d) && resample_safe(d.0, d.1, size),
    ensures
        r is Some <==> normalized_pixels(bytes@, size) is Some,
        r matches Some(px) ==> Some(px@) == normalized_pixels(bytes@, size) && px@.len() == 4 * (
        size as nat) * (size as nat),
{
    let fmt = match image::guess_format(bytes) {
        Ok(f) => f,
        Err(_) => return None,
    };
    let img = match image::load_from_memory_with_format(bytes, fmt) {
        Ok(i) => i,
        Err(_) => return None,
    };
    let rgba = img.thumbnail_exact(size, size).to_rgba8();
    Some(rgba.into_raw())
}

/// Exactly what normalization promises of its result for given bytes and
/// target size: nothing when the bytes do not decode, nothing when the
/// decoded image is too large for the target size to resample safely, and
/// otherwise the named result of the decode-and-resample chain.
pub open spec fn matches_normalized(r: Option<NormalizedImage>, bytes: Seq<u8>, size: u32) -> bool {
    match decoded_dims(bytes) {
        None => r is None,
        Some(d) => if !resample_safe(d.0, d.1, size) {
            r is None
        } else {
            &&& (r is Some <==> normalized_pixels(bytes, size) is Some)
            &&& (r matches Some(img) ==> img.width == size && img.height == size && Some(
                img.pixels@,
            ) == normalized_pixels(bytes, size))
        },
    }
}

/// Decodes raw bytes with best-effort format detection and produces the
/// fixed-size RGBA buffer for display: exactly `size` by `size` whenever a
/// value comes back. A decode failure is "no image", never a hard error; so
/// is a source so much larger than the target that resampling it could
/// overflow the resampler's per-channel accumulators.
pub fn normalize(bytes: &[u8], size: u32) -> (r: Option<NormalizedImage>)
    requires
        1 <= size <= MAX_TARGET_SIZE,
    ensures
        matches_normalized(r, bytes@, size),
        r matches Some(img) ==> image_wf(img),
{
    let dims = decode_dimensions(bytes);
    match dims {
        None => None,
        Some(d) => {
            let (w, h) = d;
            let bw: u64 = w as u64 / size as u64 + 2;
            let bh: u64 = h as u64 / size as u64 + 2;
            proof {
                assert((bw as int) * (bh as int) <= u128::MAX) by (nonlinear_arith)
                    requires
                        0 <= bw <= u64::MAX,
                        0 <= bh <= u64::MAX,
                ;
            }
            let block: u128 = (bw as u128) * (bh as u128);
            if block <= 65536 {
                proof {
                    assert(resample_safe(w, h, size));
                }
                match decode_and_resize(bytes, size) {
                    Some(px) => Some(NormalizedImage { pixels: px, width: size, height: size }),
                    None => None,
                }
            } else {
                proof {
                    assert(!resample_safe(w, h, size));
                }
                None
            }
        },
    }
}

/// Normalization is deterministic: any two results that the normalizer's
/// contract allows for the same bytes and the same target size are
/// pixel-identical, with the same dimensions.
pub proof fn lemma_normalize_deterministic(
    r1: Option<NormalizedImage>,
    r2: Option<NormalizedImage>,
    bytes: Seq<u8>,
    size: u32,
)
    requires
        matches_normalized(r1, bytes, size),
        matches_normalized(r2, bytes, size),
    ensures
        opt_image_view(r1) == opt_image_view(r2),
{
}

/// The image URL with the size hint appended: `?s=<n>` when the URL has no
/// query part yet, `&s=<n>` when it already has one.
pub open spec fn spec_sized_image_url(url: Seq<char>, size: u32) -> Seq<char> {
    if url.contains('?') {
        url + "&s="@ + dec_digits(size as nat)
    } else {
        url + "?s="@ + dec_digits(size as nat)
    }
}

/// Whether the string already carries a query part.
fn has_query(url: &str) -> (b: bool)
    ensures
        b == url@.contains('?'),
{
    let mut it = url.chars();
    let ghost orig: Seq<char> = url@;
    let ghost mut done: Seq<char> = Seq::empty();
    let mut found: bool = false;
    loop
        invariant
            it.obeys_prophetic_iter_laws(),
            it.decrease() is Some,
            done + it.remaining() == orig,
            found == done.contains('?'),
        ensures
            found == orig.contains('?'),
        decreases it.decrease()->0,
    {
        match it.next() {
            Some(c) => {
                if c == '?' {
                    found = true;
                }
                proof {
                    let pushed = done.push(c);
                    if c == '?' {
                        assert(pushed[done.len() as int] == '?');
                        assert(pushed.contains('?'));
                    } else if done.contains('?') {
                        let i = choose|i: int| 0 <= i < done.len() && done[i] == '?';
                        assert(pushed[i] == '?');
                        assert(pushed.contains('?'));
                    } else {
                        assert(forall|i: int| 0 <= i < pushed.len() ==> pushed[i] != '?');
                    }
                    done = pushed;
                }
            },
            None => {
                proof {
                    assert(done =~= orig);
                }
                break ;
            },
        }
    }
    found
}

/// Appends the advisory size hint to an image URL. The hint only asks the
/// source for a suitable resolution; the normalizer resamples defensively
/// regardless of what the source actually returns.
pub fn sized_image_url(url: &str, size: u32) -> (r: String)
    ensures
        r@ == spec_sized_image_url(url@, size),
{
    let mut out = String::new();
    out.append(url);
    if has_query(url) {
        out.append("&s=");
    } else {
        out.append("?s=");
    }
    push_dec_digits(&mut out, size);
    proof {
        assert(out@ =~= spec_sized_image_url(url@, size));
    }
    out
}

} // verus!
