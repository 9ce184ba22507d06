//! A fading overlay notification for the media that is playing now: the window
//! lifecycle, the fade, the paint cleanup and the thumbnail fit, each stated as a
//! contract over plain values and proved; the platform calls are made by the caller.

mod bitcheck;
mod bitmap;
mod color;
mod error;
mod laws;
mod paint;
mod projector;
mod props;
mod text;
mod viewer;
mod window;

pub use bitcheck::{bitmap_report, check_hbitmap, report_view, BitmapProbe};
pub use bitmap::{
    bytes_view, canvas_byte, center_on_canvas, centre_offset, centred, decoded_fit_holds, decoded_view,
    fit_bounds,
    fit_thumbnail, fitted_thumbnail, lemma_centred_pixel, placeholder, placeholder_byte,
    placeholder_value, ref_to_thumb, resize_centered, resized_centred, thumbnail_fit_holds,
    thumbnail_of, usable, Bitmap, BitmapValue, THUMB_H, THUMB_W,
};
pub use color::{color_ref, make_color_ref, KEY_LEVEL};
pub use error::GhoastError;
pub use laws::{
    lemma_closed_queue_ends_fade, lemma_create_destroy_recreate, lemma_destruct_twice,
    lemma_fade_steps, run_received,
};
pub use paint::{
    action_for, dispatch, MessageAction, PaintCommand, PaintSession, PaintStage, Resource,
    WM_CLOSE, WM_DESTROY, WM_PAINT,
};
pub use projector::{
    bitmap_outcome, dynamic_image_to_bitmap, header_for, projectable, DibHeader, BI_RGB,
    DIB_HEADER_SIZE,
};
pub use props::{joined, opt_bytes, opt_text, opt_view, text_or, MediaFields, SpectreProps, SPT};
pub use text::{
    decimal, decimal_text, digit_char, indented, signed_decimal, signed_decimal_text, sim_error,
    spaces, with_line, DbgStrExt, DbgStringExt,
};
pub use viewer::{
    data_url_page, data_url_page_spec, image_page, page_for, safe_char, sanitized, thumb_file_name,
    thumb_file_name_spec,
};
pub use window::{
    class_name_spec, FadeAction, FadeSession, Ghoast, GhoastClass, GhoastView, Stage,
    WindowCommand, TOAST_SIZE,
};
