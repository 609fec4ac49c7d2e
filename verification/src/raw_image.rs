use vstd::arithmetic::div_mod::lemma_fundamental_div_mod_converse;
use vstd::prelude::*;

verus! {

/// A decoded image: RGBA with eight bits per channel, four bytes per
/// pixel, rows stored one after the other.
#[derive(Clone, Debug, PartialEq, Eq)]
pub struct RawImage {
    pub width: u32,
    pub height: u32,
    pub pixels: Vec<u8>,
}

impl RawImage {
    /// The buffer holds exactly four bytes for each pixel.
    pub open spec fn wf(&self) -> bool {
        self.pixels@.len() == 4 * self.width * self.height
    }
}

/// Where element `k` of a vertically flipped buffer comes from: the same
/// column of the mirrored row.
pub open spec fn flip_index(k: int, width: nat, height: nat) -> int {
    let row_len = 4 * width as int;
    let row = k / row_len;
    let col = k % row_len;
    (height - 1 - row) * row_len + col
}

/// A pixel buffer with its rows in reverse order.
pub open spec fn flipped(pixels: Seq<u8>, width: nat, height: nat) -> Seq<u8> {
    Seq::new(pixels.len(), |k: int| pixels[flip_index(k, width, height)])
}

/// Reverses the row order of an image; graphics drivers expect the
/// bottom row first while decoders produce the top row first.
#[verifier::loop_isolation(false)]
pub fn flip_vertical(image: &RawImage) -> (r: RawImage)
    requires
        image.wf(),
    ensures
        r.width == image.width,
        r.height == image.height,
        r.wf(),
        r.pixels@ == flipped(image.pixels@, image.width as nat, image.height as nat),
{
    let width = image.width;
    let height = image.height;
    if width == 0 || height == 0 {
        let r = RawImage { width, height, pixels: Vec::new() };
        proof {
            assert(image.pixels@.len() == 0) by (nonlinear_arith)
                requires
                    width == 0 || height == 0,
                    image.pixels@.len() == 4 * width as int * height as int,
            ;
            assert(r.pixels@ =~= flipped(image.pixels@, width as nat, height as nat));
        }
        return r;
    }
    let len = image.pixels.len();
    proof {
        assert(4 * width as int <= len && height as int * (4 * width as int) == len)
            by (nonlinear_arith)
            requires
                1 <= height,
                1 <= width,
                len == 4 * width as int * height as int,
        ;
    }
    let row_len: usize = 4 * (width as usize);
    let mut out: Vec<u8> = Vec::with_capacity(len);
    let mut i: usize = 0;
    while i < (height as usize)
        invariant
            i <= height as int,
            out@.len() == i as int * row_len as int,
            forall|k: int|
                0 <= k < out@.len() ==> out@[k] == image.pixels@[flip_index(
                    k,
                    width as nat,
                    height as nat,
                )],
        decreases height as int - i,
    {
        let src_row: usize = (height as usize) - 1 - i;
        proof {
            assert((src_row as int + 1) * row_len as int <= height as int * row_len as int
                && src_row as int * row_len as int + row_len as int == (src_row as int + 1)
                * row_len as int && i as int * row_len as int + row_len as int <= height as int
                * row_len as int && (i as int + 1) * row_len as int == i as int
                * row_len as int + row_len as int) by (nonlinear_arith)
                requires
                    0 <= src_row as int,
                    src_row as int + 1 <= height as int,
                    i as int + 1 <= height as int,
                    0 <= row_len as int,
            ;
        }
        let base: usize = src_row * row_len;
        let mut j: usize = 0;
        while j < row_len
            invariant
                j <= row_len,
                base == src_row as int * row_len as int,
                src_row as int == height - 1 - i,
                i < height as int,
                (src_row as int + 1) * row_len as int <= len,
                out@.len() == i as int * row_len as int + j as int,
                forall|k: int|
                    0 <= k < out@.len() ==> out@[k] == image.pixels@[flip_index(
                        k,
                        width as nat,
                        height as nat,
                    )],
            decreases row_len - j,
        {
            let ghost k = out@.len() as int;
            out.push(image.pixels[base + j]);
            proof {
                lemma_fundamental_div_mod_converse(k, row_len as int, i as int, j as int);
                assert(flip_index(k, width as nat, height as nat) == base + j);
            }
            j = j + 1;
        }
        proof {
            assert((i as int + 1) * row_len as int == i as int * row_len as int
                + row_len as int) by (nonlinear_arith);
        }
        i = i + 1;
    }
    let r = RawImage { width, height, pixels: out };
    proof {
        assert(r.pixels@.len() == len) by (nonlinear_arith)
            requires
                r.pixels@.len() == height as int * row_len as int,
                row_len as int == 4 * width as int,
                len == 4 * width as int * height as int,
        ;
        assert(r.pixels@ =~= flipped(image.pixels@, width as nat, height as nat));
    }
    r
}

/// The value that the image codec decodes an in-memory byte buffer to:
/// width, height, and the RGBA buffer, top row first; nothing when the
/// bytes are not a readable image.
pub uninterp spec fn decoded_rgba(bytes: Seq<u8>) -> Option<(u32, u32, Seq<u8>)>;

/// Relies on image::load_from_memory and image::DynamicImage::into_rgba8:
/// the decoded value is a function of the byte buffer alone, and the
/// buffer of an RGBA image holds at least four bytes per pixel.
#[verifier::external_body]
fn decode_rgba_raw(bytes: &[u8]) -> (r: Result<(u32, u32, Vec<u8>), String>)
    ensures
        match r {
            Ok(d) => decoded_rgba(bytes@) == Some((d.0, d.1, d.2@)) && d.2@.len() >= 4 * d.0
                * d.1,
            Err(_) => decoded_rgba(bytes@) is None,
        },
{
    match image::load_from_memory(bytes) {
        Ok(decoded) => {
            let rgba = decoded.into_rgba8();
            let (width, height) = rgba.dimensions();
            Ok((width, height, rgba.into_raw()))
        },
        Err(e) => Err(format!("failed to decode image: {}", e)),
    }
}

/// Decodes an in-memory byte buffer into an RGBA image, top row first.
/// Succeeds exactly when the codec can read the bytes.
pub fn decode_image(bytes: &[u8]) -> (r: Result<RawImage, String>)
    ensures
        match r {
            Ok(img) => {
                &&& decoded_rgba(bytes@) matches Some(d)
                &&& img.width == d.0
                &&& img.height == d.1
                &&& img.pixels@ == d.2.take(4 * d.0 * d.1)
                &&& img.wf()
            },
            Err(_) => decoded_rgba(bytes@) is None,
        },
{
    match decode_rgba_raw(bytes) {
        Ok((width, height, pixels)) => {
            let mut pixels = pixels;
            if width == 0 || height == 0 {
                let img = RawImage { width, height, pixels: Vec::new() };
                proof {
                    let d = decoded_rgba(bytes@)->Some_0;
                    assert(4 * d.0 as int * d.1 as int == 0) by (nonlinear_arith)
                        requires
                            d.0 == 0 || d.1 == 0,
                    ;
                    assert(img.pixels@ =~= d.2.take(4 * d.0 * d.1));
                }
                Ok(img)
            } else {
                let total = pixels.len();
                proof {
                    assert(4 * width as int <= total as int && 4 * width as int
                        * height as int <= total as int) by (nonlinear_arith)
                        requires
                            1 <= width,
                            1 <= height,
                            4 * width as int * height as int <= total as int,
                    ;
                }
                let need: usize = 4 * (width as usize) * (height as usize);
                pixels.truncate(need);
                let img = RawImage { width, height, pixels };
                proof {
                    let d = decoded_rgba(bytes@)->Some_0;
                    assert(img.pixels@ =~= d.2.take(4 * d.0 * d.1));
                }
                Ok(img)
            }
        },
        Err(e) => Err(e),
    }
}

} // verus!
