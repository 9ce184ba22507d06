use spectre::{
    check_hbitmap, decimal_text, signed_decimal_text, sim_error, BitmapProbe, DbgStrExt,
    DbgStringExt,
};

fn good_probe() -> BitmapProbe {
    BitmapProbe {
        handle_valid: true,
        last_error: 0,
        object_ok: true,
        bits_ok: true,
        bits_all_zero: false,
        bits_len: 360_000,
        bm_width: 300,
        bm_height: 300,
        bm_bits_pixel: 32,
    }
}

#[test]
fn indent_uses_four_spaces_per_level() {
    assert_eq!("x".indent(0), "x");
    assert_eq!("x".indent(2), "        x");
    assert_eq!("".indent(1), "    ");
}

#[test]
fn push_ln_adds_lines() {
    let mut s = String::new();
    s.push_ln("a");
    assert_eq!(s, "a");
    s.push_ln_in("b", 1);
    assert_eq!(s, "a\n    b");
    s.push_ln("c");
    assert_eq!(s, "a\n    b\nc");
}

#[test]
fn decimal_texts() {
    assert_eq!(decimal_text(0), "0");
    assert_eq!(decimal_text(7), "7");
    assert_eq!(decimal_text(1234), "1234");
    assert_eq!(decimal_text(u64::MAX), "18446744073709551615");
    assert_eq!(signed_decimal_text(-300), "-300");
    assert_eq!(signed_decimal_text(i64::MIN), "-9223372036854775808");
    assert_eq!(signed_decimal_text(42), "42");
}

#[test]
fn sim_error_fails() {
    let e = sim_error().unwrap_err();
    assert_eq!(e.kind(), std::io::ErrorKind::Other);
    assert_eq!(e.to_string(), "Simulated failure");
}

#[test]
fn check_hbitmap_well_formed() {
    assert_eq!(
        check_hbitmap(&good_probe(), 300, 300, 32),
        Ok("Bitmap is well-formed \n    BitSize: 360000 Bitmap Width: 300, Height: 300, BitDepth: 32".to_string())
    );
}

#[test]
fn check_hbitmap_invalid_handle() {
    let mut p = good_probe();
    p.handle_valid = false;
    p.last_error = 8;
    assert_eq!(
        check_hbitmap(&p, 300, 300, 32),
        Err("Failed to create bitmap. Win32 Error: 8".to_string())
    );
}

#[test]
fn check_hbitmap_no_description() {
    let mut p = good_probe();
    p.object_ok = false;
    p.bits_all_zero = true;
    assert_eq!(
        check_hbitmap(&p, 300, 300, 32),
        Err("    Bitmap data is zeroes\n    Failed to get bitmap information".to_string())
    );
}

#[test]
fn check_hbitmap_lists_problems() {
    let mut p = good_probe();
    p.bits_ok = false;
    p.bm_height = -300;
    p.bm_bits_pixel = 24;
    assert_eq!(
        check_hbitmap(&p, 300, 300, 32),
        Err("Problem with bitmap:\n    Failed to get bits\n    Bad dimensions:\n        Height: Expected 300, Found -300\n    Bad bit depth:\n        Expected 32, Found 24".to_string())
    );
}
