use vstd::prelude::*;
use vstd::string::{StrSliceExecFns, StringExecFns};
use crate::bitmap::Bitmap;
use base64::Engine;

verus! {

/// The PNG encoding of an RGBA image, as the encoder writes it.
pub uninterp spec fn png_encoding(width: u32, height: u32, pixels: Seq<u8>) -> Seq<u8>;

/// The standard, padded base64 text of `bytes`.
pub uninterp spec fn base64_text(bytes: Seq<u8>) -> Seq<char>;

/// Relies on `ImageBuffer::write_to` with `ImageFormat::Png` into a buffer in memory;
/// where the encoder fails, what it wrote so far is kept.
#[verifier::external_body]
fn png_bytes(image: &Bitmap) -> (r: Vec<u8>)
    requires
        image.wf(),
    ensures
        r@ == png_encoding(image.width, image.height, image.pixels@),
{
    let buf = image::RgbaImage::from_raw(image.width, image.height, image.pixels.clone()).unwrap();
    let mut cursor = std::io::Cursor::new(Vec::new());
    let _ = buf.write_to(&mut cursor, image::ImageFormat::Png);
    cursor.into_inner()
}

/// Relies on `base64::engine::general_purpose::STANDARD.encode`: padded standard
/// base64, four characters for every three bytes or part of three.
#[verifier::external_body]
fn to_base64(bytes: &[u8]) -> (r: String)
    ensures
        r@ == base64_text(bytes@),
        r@.len() == 4 * ((bytes@.len() + 2) / 3),
{
    base64::engine::general_purpose::STANDARD.encode(bytes)
}

/// The page that shows an image inline, as PNG in a data URL.
pub open spec fn page_for(width: u32, height: u32, pixels: Seq<u8>) -> Seq<char> {
    data_url_page_spec(base64_text(png_encoding(width, height, pixels)))
}

/// The page that shows an inline PNG image given as base64 text.
pub open spec fn data_url_page_spec(encoded: Seq<char>) -> Seq<char> {
    "<img src='data:image\\png;base64,"@ + encoded + "' />"@
}

/// An HTML page that shows the PNG image whose base64 text is `encoded`.
pub fn data_url_page(encoded: &str) -> (r: String)
    ensures
        r@ == data_url_page_spec(encoded@),
{
    let mut page = String::from_str("<img src='data:image\\png;base64,");
    page.append(encoded);
    page.append("' />");
    page
}

/// An HTML page that shows `image`.
pub fn image_page(image: &Bitmap) -> (r: String)
    requires
        image.wf(),
    ensures
        r@ == page_for(image.width, image.height, image.pixels@),
{
    let png = png_bytes(image);
    let text = to_base64(png.as_slice());
    data_url_page(text.as_str())
}

/// How one character of a title stands in a file name: characters that file names
/// cannot hold become bracketed words, a space an underscore, a double quote two
/// single ones.
pub open spec fn safe_char(c: char) -> Seq<char> {
    if c == ' ' { "_"@ }
    else if c == '"' { "''"@ }
    else if c == '&' { "[AND]"@ }
    else if c == '?' { "[QU]"@ }
    else if c == '/' { "[FSL]"@ }
    else if c == '\\' { "[BSL]"@ }
    else if c == ':' { "[COL]"@ }
    else if c == '*' { "[AST]"@ }
    else if c == '|' { "[PIP]"@ }
    else if c == '<' { "[LAB]"@ }
    else if c == '>' { "[RAB]"@ }
    else { seq![c] }
}

/// The title with each character replaced as `safe_char` says.
pub open spec fn sanitized(s: Seq<char>) -> Seq<char>
    decreases s.len(),
{
    if s.len() == 0 {
        Seq::empty()
    } else {
        sanitized(s.drop_last()) + safe_char(s.last())
    }
}

/// The name of the page file that shows the thumbnail of `title`.
pub open spec fn thumb_file_name_spec(title: Seq<char>) -> Seq<char> {
    "Spectre-"@ + sanitized(title) + "-thumb.html"@
}

/// The name of the page file for the thumbnail of `title`, safe to use as a file name.
pub fn thumb_file_name(title: &str) -> (r: String)
    ensures
        r@ == thumb_file_name_spec(title@),
{
    let mut r = String::from_str("Spectre-");
    let ghost prefix = r@;
    let n = title.unicode_len();
    let mut i: usize = 0;
    while i < n
        invariant
            n == title@.len(),
            i <= n,
            r@ == prefix + sanitized(title@.subrange(0, i as int)),
        decreases n - i,
    {
        let c = title.get_char(i);
        if c == ' ' { r.append("_"); }
        else if c == '"' { r.append("''"); }
        else if c == '&' { r.append("[AND]"); }
        else if c == '?' { r.append("[QU]"); }
        else if c == '/' { r.append("[FSL]"); }
        else if c == '\\' { r.append("[BSL]"); }
        else if c == ':' { r.append("[COL]"); }
        else if c == '*' { r.append("[AST]"); }
        else if c == '|' { r.append("[PIP]"); }
        else if c == '<' { r.append("[LAB]"); }
        else if c == '>' { r.append("[RAB]"); }
        else { r.append(title.substring_char(i, i + 1)); }
        proof {
            let t = title@.subrange(0, i + 1);
            assert(t.drop_last() =~= title@.subrange(0, i as int));
            assert(title@.subrange(i as int, i + 1) =~= seq![c]);
        }
        i = i + 1;
    }
    assert(title@.subrange(0, n as int) =~= title@);
    r.append("-thumb.html");
    r
}

} // verus!
