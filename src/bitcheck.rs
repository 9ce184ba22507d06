use vstd::prelude::*;
use vstd::string::StringExecFns;
use crate::text::{
    decimal, decimal_text, signed_decimal, signed_decimal_text, with_line, DbgStringExt,
};

verus! {

/// What the platform reported about a native bitmap that was just created.
#[derive(Debug, Clone, Copy, PartialEq, Eq, Structural)]
pub struct BitmapProbe {
    /// Whether the handle is valid.
    pub handle_valid: bool,
    /// The platform's last error code, read where the handle is invalid.
    pub last_error: u32,
    /// Whether the bitmap's description could be read.
    pub object_ok: bool,
    /// Whether its pixel bits could be read.
    pub bits_ok: bool,
    /// Whether every byte read back is zero.
    pub bits_all_zero: bool,
    /// How many bytes were read back.
    pub bits_len: usize,
    pub bm_width: i32,
    pub bm_height: i32,
    pub bm_bits_pixel: u16,
}

/// The problem lines found before the bitmap's description is looked at.
pub open spec fn early_problems(p: BitmapProbe) -> Seq<char> {
    let e1 = if !p.bits_ok { with_line(Seq::empty(), "Failed to get bits"@, 1) } else { Seq::empty() };
    if p.bits_all_zero { with_line(e1, "Bitmap data is zeroes"@, 1) } else { e1 }
}

pub open spec fn dims_bad(p: BitmapProbe, width: u32, height: u32) -> bool {
    p.bm_width != width as i32 || p.bm_height != height as i32
}

pub open spec fn depth_bad(p: BitmapProbe, depth: u32) -> bool {
    p.bm_bits_pixel != depth as u16
}

/// All problem lines, for a bitmap whose description could be read.
pub open spec fn all_problems(p: BitmapProbe, width: u32, height: u32, depth: u32) -> Seq<char> {
    let e2 = early_problems(p);
    let e3 = if dims_bad(p, width, height) {
        let a = with_line(e2, "Bad dimensions:"@, 1);
        let b = if p.bm_width != width as i32 {
            with_line(a, "Width: Expected "@ + decimal(width as nat) + ", Found "@
                + signed_decimal(p.bm_width as int), 2)
        } else {
            a
        };
        if p.bm_height != height as i32 {
            with_line(b, "Height: Expected "@ + decimal(height as nat) + ", Found "@
                + signed_decimal(p.bm_height as int), 2)
        } else {
            b
        }
    } else {
        e2
    };
    if depth_bad(p, depth) {
        with_line(with_line(e3, "Bad bit depth:"@, 1), "Expected "@ + decimal(depth as nat)
            + ", Found "@ + decimal(p.bm_bits_pixel as nat), 2)
    } else {
        e3
    }
}

/// The report on a bitmap expected to be `width` by `height` at `depth` bits per pixel.
pub open spec fn bitmap_report(p: BitmapProbe, width: u32, height: u32, depth: u32) -> Result<Seq<char>, Seq<char>> {
    if !p.handle_valid {
        Err("Failed to create bitmap. Win32 Error: "@ + decimal(p.last_error as nat))
    } else if !p.object_ok {
        Err(with_line(early_problems(p), "Failed to get bitmap information"@, 1))
    } else if !p.bits_ok || p.bits_all_zero || dims_bad(p, width, height) || depth_bad(p, depth) {
        Err("Problem with bitmap:\n"@ + all_problems(p, width, height, depth))
    } else {
        Ok("Bitmap is well-formed \n    BitSize: "@ + decimal(p.bits_len as nat) + " Bitmap Width: "@
            + signed_decimal(p.bm_width as int) + ", Height: "@ + signed_decimal(p.bm_height as int)
            + ", BitDepth: "@ + decimal(p.bm_bits_pixel as nat))
    }
}

pub open spec fn report_view(r: Result<String, String>) -> Result<Seq<char>, Seq<char>> {
    match r {
        Ok(s) => Ok(s@),
        Err(s) => Err(s@),
    }
}

fn value_line(prefix: &str, expected: u64, found: i64) -> (r: String)
    ensures
        r@ == prefix@ + decimal(expected as nat) + ", Found "@ + signed_decimal(found as int),
{
    let mut s = String::from_str(prefix);
    let e = decimal_text(expected);
    s.append(e.as_str());
    s.append(", Found ");
    let f = signed_decimal_text(found);
    s.append(f.as_str());
    s
}

/// Checks a newly created native bitmap against the size and depth it should have, and
/// says what is wrong with it, line by line, or that it is well-formed.
pub fn check_hbitmap(probe: &BitmapProbe, width: u32, height: u32, depth: u32) -> (r: Result<String, String>)
    ensures
        report_view(r) == bitmap_report(*probe, width, height, depth),
{
    let p = *probe;
    if !p.handle_valid {
        let mut s = String::from_str("Failed to create bitmap. Win32 Error: ");
        let code = decimal_text(p.last_error as u64);
        s.append(code.as_str());
        return Err(s);
    }
    let mut bad = false;
    let mut error_string = String::new();
    if !p.bits_ok {
        error_string.push_ln_in("Failed to get bits", 1);
        bad = true;
    }
    if p.bits_all_zero {
        error_string.push_ln_in("Bitmap data is zeroes", 1);
        bad = true;
    }
    assert(error_string@ == early_problems(p));
    if !p.object_ok {
        error_string.push_ln_in("Failed to get bitmap information", 1);
        return Err(error_string);
    }
    if p.bm_width != width as i32 || p.bm_height != height as i32 {
        error_string.push_ln_in("Bad dimensions:", 1);
        if p.bm_width != width as i32 {
            let line = value_line("Width: Expected ", width as u64, p.bm_width as i64);
            error_string.push_ln_in(line.as_str(), 2);
        }
        if p.bm_height != height as i32 {
            let line = value_line("Height: Expected ", height as u64, p.bm_height as i64);
            error_string.push_ln_in(line.as_str(), 2);
        }
        bad = true;
    }
    if p.bm_bits_pixel != depth as u16 {
        error_string.push_ln_in("Bad bit depth:", 1);
        let mut line = String::from_str("Expected ");
        let e = decimal_text(depth as u64);
        line.append(e.as_str());
        line.append(", Found ");
        let f = decimal_text(p.bm_bits_pixel as u64);
        line.append(f.as_str());
        error_string.push_ln_in(line.as_str(), 2);
        bad = true;
    }
    assert(error_string@ == all_problems(p, width, height, depth));
    if bad {
        let mut s = String::from_str("Problem with bitmap:\n");
        s.append(error_string.as_str());
        Err(s)
    } else {
        let mut s = String::from_str("Bitmap is well-formed \n    BitSize: ");
        let a = decimal_text(p.bits_len as u64);
        s.append(a.as_str());
        s.append(" Bitmap Width: ");
        let b = signed_decimal_text(p.bm_width as i64);
        s.append(b.as_str());
        s.append(", Height: ");
        let c = signed_decimal_text(p.bm_height as i64);
        s.append(c.as_str());
        s.append(", BitDepth: ");
        let d = decimal_text(p.bm_bits_pixel as u64);
        s.append(d.as_str());
        Ok(s)
    }
}

} // verus!
