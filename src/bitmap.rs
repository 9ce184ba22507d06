use vstd::prelude::*;
use vstd::arithmetic::div_mod::lemma_fundamental_div_mod_converse;

verus! {

/// Width of the canvas a thumbnail is fitted to.
pub const THUMB_W: u32 = 300;

/// Height of the canvas a thumbnail is fitted to.
pub const THUMB_H: u32 = 300;

/// An image as rows of RGBA pixels, top row first, four bytes per pixel.
#[derive(Debug, Clone)]
pub struct Bitmap {
    pub width: u32,
    pub height: u32,
    pub pixels: Vec<u8>,
}

/// A bitmap as plain values: width, height and its bytes.
pub type BitmapValue = (u32, u32, Seq<u8>);

impl Bitmap {
    /// The buffer holds exactly four bytes for each pixel.
    pub open spec fn wf(&self) -> bool {
        self.pixels@.len() == 4 * (self.width as int) * (self.height as int)
    }

    pub open spec fn value(&self) -> BitmapValue {
        (self.width, self.height, self.pixels@)
    }
}

/// What decoding a buffer of encoded image bytes (PNG, JPEG, BMP) into RGBA gives,
/// or `None` where the bytes are not an image the decoder reads.
pub uninterp spec fn decoded_image(bytes: Seq<u8>) -> Option<BitmapValue>;

/// The image resized with a Lanczos filter to the largest size that fits in
/// `nwidth` by `nheight` with its aspect ratio kept.
pub uninterp spec fn lanczos3_fit(
    width: u32,
    height: u32,
    pixels: Seq<u8>,
    nwidth: u32,
    nheight: u32,
) -> BitmapValue;

/// Relies on `image::load_from_memory`, which guesses the format from the bytes and
/// decodes them, and on `DynamicImage::to_rgba8`, which converts the result to RGBA.
#[verifier::external_body]
fn decode_rgba(bytes: &[u8]) -> (r: Option<Bitmap>)
    ensures
        match r {
            Some(b) => decoded_image(bytes@) == Some(b.value()),
            None => decoded_image(bytes@).is_none(),
        },
{
    match image::load_from_memory(bytes) {
        Ok(img) => {
            let rgba = img.to_rgba8();
            Some(Bitmap { width: rgba.width(), height: rgba.height(), pixels: rgba.into_raw() })
        },
        Err(_) => None,
    }
}

/// The facts of a fit of a `w` by `h` image into `nw` by `nh`: it fits, it touches
/// two opposite sides, and its aspect ratio differs from the source's by rounding only.
pub open spec fn fit_bounds(w: u32, h: u32, nw: u32, nh: u32, fw: u32, fh: u32) -> bool {
    &&& 1 <= fw <= nw
    &&& 1 <= fh <= nh
    &&& (fw == nw || fh == nh)
    &&& -(w as int + h as int) <= fw as int * h as int - fh as int * w as int <= w as int + h as int
}

/// Relies on `DynamicImage::resize` with `FilterType::Lanczos3`: the result is the
/// largest size within the bounds that keeps the aspect ratio (the width and height
/// are the source's scaled by one ratio, each rounded to the nearest integer and at
/// least 1), with a buffer of exactly four bytes per pixel.
#[verifier::external_body]
fn resize_lanczos3(src: &Bitmap, nwidth: u32, nheight: u32) -> (r: Bitmap)
    requires
        src.wf(),
        src.width >= 1,
        src.height >= 1,
        nwidth >= 1,
        nheight >= 1,
    ensures
        r.value() == lanczos3_fit(src.width, src.height, src.pixels@, nwidth, nheight),
        r.wf(),
        fit_bounds(src.width, src.height, nwidth, nheight, r.width, r.height),
{
    let buf = image::RgbaImage::from_raw(src.width, src.height, src.pixels.clone()).unwrap();
    let out = image::DynamicImage::ImageRgba8(buf).resize(
        nwidth,
        nheight,
        image::imageops::FilterType::Lanczos3,
    ).to_rgba8();
    Bitmap { width: out.width(), height: out.height(), pixels: out.into_raw() }
}

/// The offset that centres a length `inner` in a length `outer`.
pub open spec fn centre_offset(outer: u32, inner: u32) -> int {
    (outer as int - inner as int) / 2
}

/// Byte `k` of a `cw`-wide canvas on which an `iw` by `ih` image with bytes `inner`
/// stands at (`xo`, `yo`); everything around it is transparent black.
pub open spec fn canvas_byte(cw: int, iw: int, ih: int, inner: Seq<u8>, xo: int, yo: int, k: int) -> u8 {
    let p = k / 4;
    let x = p % cw;
    let y = p / cw;
    if xo <= x < xo + iw && yo <= y < yo + ih {
        inner[4 * ((y - yo) * iw + (x - xo)) + k % 4]
    } else {
        0
    }
}

/// The bytes of a `cw` by `ch` canvas with the image `inner` centred on it.
pub open spec fn centred(cw: u32, ch: u32, inner: BitmapValue) -> Seq<u8> {
    let (iw, ih, px) = inner;
    Seq::new(
        (4 * cw * ch) as nat,
        |k: int| canvas_byte(cw as int, iw as int, ih as int, px, centre_offset(cw, iw), centre_offset(ch, ih), k),
    )
}

proof fn lemma_inner_index(a: int, b: int, iw: int, ih: int, c: int)
    requires
        0 <= a < ih,
        0 <= b < iw,
        0 <= c < 4,
    ensures
        0 <= 4 * (a * iw + b) + c < 4 * iw * ih,
        a * iw + b < iw * ih,
{
    assert(a * iw + b < iw * ih) by (nonlinear_arith)
        requires
            0 <= a < ih,
            0 <= b < iw,
    ;
    assert(0 <= a * iw) by (nonlinear_arith)
        requires
            0 <= a,
            0 <= iw,
    ;
    assert(4 * iw * ih == 4 * (iw * ih)) by (nonlinear_arith);
}

/// Places `inner` at the centre of a transparent `cw` by `ch` canvas.
pub fn center_on_canvas(inner: &Bitmap, cw: u32, ch: u32) -> (r: Bitmap)
    requires
        inner.wf(),
        inner.width <= cw,
        inner.height <= ch,
        4 * (cw as int) * (ch as int) <= usize::MAX,
    ensures
        r.wf(),
        r.width == cw,
        r.height == ch,
        r.pixels@ == centred(cw, ch, inner.value()),
{
    let iw = inner.width as usize;
    let ih = inner.height as usize;
    let w = cw as usize;
    let xo: usize = (cw as usize - iw) / 2;
    let yo: usize = (ch as usize - ih) / 2;
    let n_inner = inner.pixels.len();
    assert((cw as int) * (ch as int) <= 4 * (cw as int) * (ch as int)) by (nonlinear_arith)
        requires
            4 * (cw as int) * (ch as int) <= usize::MAX,
    ;
    assert(4 * ((cw as int) * (ch as int)) == 4 * (cw as int) * (ch as int)) by (nonlinear_arith);
    let total: usize = 4 * (w * (ch as usize));
    let ghost spec_px = centred(cw, ch, inner.value());
    let mut out: Vec<u8> = Vec::with_capacity(total);
    let mut k: usize = 0;
    while k < total
        invariant
            inner.wf(),
            n_inner == inner.pixels@.len(),
            iw == inner.width,
            ih == inner.height,
            w == cw,
            iw <= cw,
            ih <= ch,
            xo == centre_offset(cw, inner.width),
            yo == centre_offset(ch, inner.height),
            total == 4 * (cw as int) * (ch as int),
            spec_px == centred(cw, ch, inner.value()),
            spec_px.len() == total,
            k <= total,
            out@.len() == k,
            forall|j: int| 0 <= j < k ==> out@[j] == spec_px[j],
        decreases total - k,
    {
        assert(w > 0) by (nonlinear_arith)
            requires
                k < total,
                total == 4 * (w as int) * (ch as int),
                ch >= 0,
        ;
        let p = k / 4;
        let x = p % w;
        let y = p / w;
        let b: u8 = if xo <= x && x < xo + iw && yo <= y && y < yo + ih {
            proof {
                lemma_inner_index((y - yo) as int, (x - xo) as int, iw as int, ih as int, k as int % 4);
            }
            inner.pixels[4 * ((y - yo) * iw + (x - xo)) + k % 4]
        } else {
            0
        };
        out.push(b);
        k = k + 1;
    }
    assert(out@ =~= spec_px);
    Bitmap { width: cw, height: ch, pixels: out }
}

/// Where the canvas shows pixel (`x`, `y`) of a centred image, the image's
/// channel `c` of that pixel stands; everywhere else the canvas is transparent black.
/// So the image is neither cut nor stretched: each of its pixels appears once, shifted
/// by the centring offsets.
pub proof fn lemma_centred_pixel(cw: u32, ch: u32, inner: BitmapValue, x: int, y: int, c: int)
    requires
        inner.0 <= cw,
        inner.1 <= ch,
        inner.2.len() == 4 * (inner.0 as int) * (inner.1 as int),
        0 <= x < cw,
        0 <= y < ch,
        0 <= c < 4,
    ensures
        ({
            let (iw, ih, px) = inner;
            let xo = centre_offset(cw, iw);
            let yo = centre_offset(ch, ih);
            let k = 4 * (y * cw + x) + c;
            &&& 0 <= k < centred(cw, ch, inner).len()
            &&& centred(cw, ch, inner)[k] == if xo <= x < xo + iw && yo <= y < yo + ih {
                px[4 * ((y - yo) * iw + (x - xo)) + c]
            } else {
                0u8
            }
        }),
{
    let k = 4 * (y * cw + x) + c;
    lemma_inner_index(y, x, cw as int, ch as int, c);
    assert(4 * (cw as int) * (ch as int) == (4 * cw * ch) as nat) by (nonlinear_arith);
    lemma_fundamental_div_mod_converse(k, 4, y * cw + x, c);
    lemma_fundamental_div_mod_converse(y * cw + x, cw as int, y, x);
}

/// The fixed pattern shown where no thumbnail can be had: opaque pink.
pub open spec fn placeholder_byte(k: int) -> u8 {
    if k % 4 == 0 {
        255
    } else if k % 4 == 1 {
        105
    } else if k % 4 == 2 {
        180
    } else {
        255
    }
}

pub open spec fn placeholder_value() -> BitmapValue {
    (THUMB_W, THUMB_H, Seq::new((4 * THUMB_W * THUMB_H) as nat, |k: int| placeholder_byte(k)))
}

/// The canvas-sized placeholder thumbnail.
pub fn placeholder() -> (r: Bitmap)
    ensures
        r.wf(),
        r.value() == placeholder_value(),
{
    let total: usize = 4 * (THUMB_W as usize) * (THUMB_H as usize);
    let mut out: Vec<u8> = Vec::with_capacity(total);
    let mut k: usize = 0;
    while k < total
        invariant
            total == 4 * THUMB_W * THUMB_H,
            k <= total,
            out@.len() == k,
            forall|j: int| 0 <= j < k ==> out@[j] == placeholder_byte(j),
        decreases total - k,
    {
        let b: u8 = if k % 4 == 0 {
            255
        } else if k % 4 == 1 {
            105
        } else if k % 4 == 2 {
            180
        } else {
            255
        };
        out.push(b);
        k = k + 1;
    }
    assert(out@ =~= placeholder_value().2);
    Bitmap { width: THUMB_W, height: THUMB_H, pixels: out }
}

/// The bytes of `image` resized to fit in `nwidth` by `nheight` and centred there.
pub open spec fn resized_centred(image: BitmapValue, nwidth: u32, nheight: u32) -> BitmapValue {
    (nwidth, nheight, centred(nwidth, nheight, lanczos3_fit(image.0, image.1, image.2, nwidth, nheight)))
}

/// Resizes `image` to the largest size that fits in `nwidth` by `nheight` with its
/// aspect ratio kept, and centres it on a transparent canvas of exactly that size.
pub fn resize_centered(image: &Bitmap, nwidth: u32, nheight: u32) -> (r: Bitmap)
    requires
        image.wf(),
        image.width >= 1,
        image.height >= 1,
        nwidth >= 1,
        nheight >= 1,
        4 * (nwidth as int) * (nheight as int) <= usize::MAX,
    ensures
        r.wf(),
        r.value() == resized_centred(image.value(), nwidth, nheight),
        ({
            let f = lanczos3_fit(image.width, image.height, image.pixels@, nwidth, nheight);
            fit_bounds(image.width, image.height, nwidth, nheight, f.0, f.1)
        }),
{
    let inner = resize_lanczos3(image, nwidth, nheight);
    center_on_canvas(&inner, nwidth, nheight)
}

/// A decoded image that the fit can work on: no zero side, four bytes per pixel.
pub open spec fn usable(v: BitmapValue) -> bool {
    v.0 >= 1 && v.1 >= 1 && v.2.len() == 4 * (v.0 as int) * (v.1 as int)
}

/// The thumbnail made of a decoded image, if any: the image itself when it has the
/// canvas size already, else resized and centred on the canvas; the placeholder when
/// there is none or it has a zero side or a buffer of the wrong size.
pub open spec fn fitted_thumbnail(decoded: Option<BitmapValue>) -> BitmapValue {
    match decoded {
        None => placeholder_value(),
        Some(d) => if !usable(d) {
            placeholder_value()
        } else if d.0 == THUMB_W && d.1 == THUMB_H {
            d
        } else {
            resized_centred(d, THUMB_W, THUMB_H)
        },
    }
}

/// The thumbnail for encoded image bytes, or for none: what `fitted_thumbnail` makes
/// of what they decode to.
pub open spec fn thumbnail_of(bytes: Option<Seq<u8>>) -> BitmapValue {
    match bytes {
        None => placeholder_value(),
        Some(b) => fitted_thumbnail(decoded_image(b)),
    }
}

/// Whether the fit of a decoded image meets `fit_bounds` on the canvas, where the
/// image needs resizing.
pub open spec fn decoded_fit_holds(decoded: Option<BitmapValue>) -> bool {
    match decoded {
        None => true,
        Some(d) => usable(d) && !(d.0 == THUMB_W && d.1 == THUMB_H) ==> ({
            let f = lanczos3_fit(d.0, d.1, d.2, THUMB_W, THUMB_H);
            fit_bounds(d.0, d.1, THUMB_W, THUMB_H, f.0, f.1)
        }),
    }
}

/// Whether the fit of whatever `bytes` decode to meets `fit_bounds` on the canvas,
/// where the decoded image needs resizing.
pub open spec fn thumbnail_fit_holds(bytes: Option<Seq<u8>>) -> bool {
    match bytes {
        None => true,
        Some(b) => decoded_fit_holds(decoded_image(b)),
    }
}

pub open spec fn bytes_view(reference: Option<&[u8]>) -> Option<Seq<u8>> {
    match reference {
        Some(b) => Some(b@),
        None => None,
    }
}

pub open spec fn decoded_view(decoded: Option<Bitmap>) -> Option<BitmapValue> {
    match decoded {
        Some(b) => Some(b.value()),
        None => None,
    }
}

/// Fits a decoded image, if any, to the canvas.
pub fn fit_thumbnail(decoded: Option<Bitmap>) -> (r: Bitmap)
    ensures
        r.wf(),
        r.width == THUMB_W,
        r.height == THUMB_H,
        r.value() == fitted_thumbnail(decoded_view(decoded)),
        decoded_fit_holds(decoded_view(decoded)),
{
    match decoded {
        None => placeholder(),
        Some(img) => {
            assert(4 * (img.width as int) * (img.height as int) <= 4 * 0xffff_ffffint * 0xffff_ffffint)
                by (nonlinear_arith)
                requires
                    img.width <= 0xffff_ffff,
                    img.height <= 0xffff_ffff,
            ;
            if img.width == 0 || img.height == 0
                || img.pixels.len() as u128 != 4 * (img.width as u128) * (img.height as u128) {
                placeholder()
            } else if img.width == THUMB_W && img.height == THUMB_H {
                img
            } else {
                resize_centered(&img, THUMB_W, THUMB_H)
            }
        },
    }
}

/// The thumbnail for the encoded image bytes of a media session, if any: always
/// exactly canvas-sized RGBA, never an error.
pub fn ref_to_thumb(reference: Option<&[u8]>) -> (r: Bitmap)
    ensures
        r.wf(),
        r.width == THUMB_W,
        r.height == THUMB_H,
        r.value() == thumbnail_of(bytes_view(reference)),
        thumbnail_fit_holds(bytes_view(reference)),
{
    match reference {
        None => placeholder(),
        Some(bytes) => fit_thumbnail(decode_rgba(bytes)),
    }
}

} // verus!
