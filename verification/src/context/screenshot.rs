//! Screenshot selection and encoding.

use vstd::prelude::*;
use image::imageops::FilterType;

verus! {

/// Resampling filters offered by the image library.
#[derive(Debug, Clone, Copy, PartialEq, Eq, Structural)]
pub enum ResizeFilter {
    Nearest,
    Triangle,
    CatmullRom,
    Gaussian,
    Lanczos3,
}

/// Errors of screen capture.
#[derive(Debug)]
pub enum ScreenCaptureError {
    NoMonitor,
    CaptureError(String),
    EncodeError(String),
}

/// The message an error is shown with.
pub open spec fn capture_error_text(e: ScreenCaptureError) -> Seq<char> {
    match e {
        ScreenCaptureError::NoMonitor => "No primary monitor found"@,
        ScreenCaptureError::CaptureError(m) => "Screen capture failed: "@ + m@,
        ScreenCaptureError::EncodeError(m) => "Image encoding failed: "@ + m@,
    }
}

impl ScreenCaptureError {
    /// The message this error is shown with.
    pub fn message(&self) -> (r: String)
        ensures
            r@ == capture_error_text(*self),
    {
        match self {
            ScreenCaptureError::NoMonitor => "No primary monitor found".to_owned(),
            ScreenCaptureError::CaptureError(m) => {
                let mut s = "Screen capture failed: ".to_owned();
                s.append(m.as_str());
                s
            },
            ScreenCaptureError::EncodeError(m) => {
                let mut s = "Image encoding failed: ".to_owned();
                s.append(m.as_str());
                s
            },
        }
    }

    /// The error when the monitors could not be listed.
    pub fn enumeration_failed(detail: &str) -> (r: Self)
        ensures
            r matches ScreenCaptureError::CaptureError(m) && m@ == "Failed to enumerate monitors: "@ + detail@,
    {
        let mut m = "Failed to enumerate monitors: ".to_owned();
        m.append(detail);
        ScreenCaptureError::CaptureError(m)
    }
}

/// A complete JPEG stream as far as its framing goes: it opens with the
/// start-of-image marker (FF D8) and closes with the end-of-image marker
/// (FF D9).
pub open spec fn is_jpeg_stream(bytes: Seq<u8>) -> bool {
    &&& bytes.len() >= 4
    &&& bytes[0] == 0xFFu8
    &&& bytes[1] == 0xD8u8
    &&& bytes[bytes.len() - 2] == 0xFFu8
    &&& bytes[bytes.len() - 1] == 0xD9u8
}

/// A frame of `width` by `height` RGBA pixels, scaled by the image library
/// to fit a `box_w` by `box_h` box with its aspect ratio kept, using
/// `filter`, and encoded as JPEG.
pub uninterp spec fn jpeg_fit_frame(width: u32, height: u32, rgba: Seq<u8>, box_w: u32, box_h: u32, filter: ResizeFilter) -> Seq<u8>;

/// Dimensions `(rw, rh)` that fit a `w` by `h` frame into a `box_w` by
/// `box_h` box: within the box, filling it along one side, and keeping the
/// frame's aspect ratio up to the rounding of each side to whole pixels.
pub open spec fn fits_box(w: u32, h: u32, box_w: u32, box_h: u32, rw: u32, rh: u32) -> bool {
    &&& 1 <= rw <= box_w
    &&& 1 <= rh <= box_h
    &&& (rw == box_w || rh == box_h)
    &&& rw * h <= rh * w + w + h
    &&& rh * w <= rw * h + w + h
}

/// An encoded frame and its scaled dimensions.
pub struct EncodedFrame {
    pub bytes: Vec<u8>,
    pub width: u32,
    pub height: u32,
}

/// Calls, in turn, `ImageBuffer::from_raw` (RGBA), `DynamicImage::resize`
/// and `DynamicImage::write_to` (JPEG, into an empty in-memory buffer), and
/// returns the bytes with the scaled width and height, or the error's
/// message. Claimed, as the crate's source shows:
/// - the bytes depend on the arguments alone (named `jpeg_fit_frame`), and a
///   JPEG encoding opens with FF D8 and closes with FF D9 (the encoder writes
///   those markers first and last);
/// - for a non-empty frame the encoding succeeds (the scaled sides lie in
///   1..=65535, which the JPEG encoder accepts, and writing to memory does not
///   fail), and the scaled sides are what `resize_dimensions` computes: the
///   frame's sides times the smaller of the box-to-frame ratios, rounded, at
///   least one. That computation is in floating point; `fits_box` states the
///   bounds it keeps, not the exact rounding.
#[verifier::external_body]
fn encode_fitted_jpeg(width: u32, height: u32, rgba: Vec<u8>, box_w: u32, box_h: u32, filter: ResizeFilter) -> (r: Result<EncodedFrame, String>)
    requires
        rgba@.len() == 4 * width * height,
        0 < box_w <= 65535,
        0 < box_h <= 65535,
    ensures
        r is Ok ==> r->Ok_0.bytes@ == jpeg_fit_frame(width, height, rgba@, box_w, box_h, filter),
        r is Ok ==> is_jpeg_stream(r->Ok_0.bytes@),
        width > 0 && height > 0 ==> r is Ok,
        r is Ok && width > 0 && height > 0 ==> fits_box(width, height, box_w, box_h, r->Ok_0.width, r->Ok_0.height),
{
    let filter = match filter {
        ResizeFilter::Nearest => FilterType::Nearest,
        ResizeFilter::Triangle => FilterType::Triangle,
        ResizeFilter::CatmullRom => FilterType::CatmullRom,
        ResizeFilter::Gaussian => FilterType::Gaussian,
        ResizeFilter::Lanczos3 => FilterType::Lanczos3,
    };
    let raw = image::RgbaImage::from_raw(width, height, rgba).ok_or_else(String::new)?;
    let img = image::DynamicImage::ImageRgba8(raw).resize(box_w, box_h, filter);
    let mut bytes: Vec<u8> = Vec::new();
    img.write_to(&mut std::io::Cursor::new(&mut bytes), image::ImageFormat::Jpeg).map_err(|e| e.to_string())?;
    Ok(EncodedFrame { bytes, width: img.width(), height: img.height() })
}

/// Largest width of an encoded screenshot.
pub const MAX_FRAME_WIDTH: u32 = 1280;

/// Largest height of an encoded screenshot.
pub const MAX_FRAME_HEIGHT: u32 = 720;

/// The index of the first element whose report is `Some(true)` (a monitor
/// that is primary, a window that has focus). An element whose report failed
/// counts as `false`.
pub open spec fn first_primary(flags: Seq<Option<bool>>, i: int) -> bool {
    &&& 0 <= i < flags.len()
    &&& flags[i] == Some(true)
    &&& forall|j: int| 0 <= j < i ==> flags[j] != Some(true)
}

/// What to capture.
#[derive(Debug, Clone, Copy, PartialEq, Eq, Structural)]
pub enum CaptureTarget {
    /// The window at this index, which has focus.
    Window(usize),
    /// The monitor at this index, which is primary.
    Monitor(usize),
}

/// Captures screenshots for language-model context: the focused window, or
/// the primary monitor when no window reports focus.
pub struct ScreenCapture;

impl ScreenCapture {
    pub fn new() -> (c: Self) {
        ScreenCapture
    }

    /// Picks the primary monitor among the enumerated ones, given what each
    /// reported when asked whether it is primary (`None` for a failed query).
    pub fn primary_monitor(&self, flags: &Vec<Option<bool>>) -> (r: Result<usize, ScreenCaptureError>)
        ensures
            r matches Ok(i) ==> first_primary(flags@, i as int),
            r is Err <==> forall|j: int| 0 <= j < flags@.len() ==> flags@[j] != Some(true),
            r matches Err(e) ==> e is NoMonitor,
    {
        let n = flags.len();
        let mut i: usize = 0;
        while i < n
            invariant
                n == flags@.len(),
                i <= n,
                forall|j: int| 0 <= j < i ==> flags@[j] != Some(true),
            decreases n - i,
        {
            let primary = match flags[i] {
                Some(b) => b,
                None => false,
            };
            if primary {
                return Ok(i);
            }
            i = i + 1;
        }
        Err(ScreenCaptureError::NoMonitor)
    }

    /// What to capture, given whether each window reports focus and whether
    /// each monitor reports itself primary (`None` for a failed query): the
    /// first focused window, else the first primary monitor.
    pub fn capture_target(&self, window_focus: &Vec<Option<bool>>, monitor_primary: &Vec<Option<bool>>) -> (r: Result<CaptureTarget, ScreenCaptureError>)
        ensures
            r matches Ok(CaptureTarget::Window(i)) ==> first_primary(window_focus@, i as int),
            r matches Ok(CaptureTarget::Monitor(j)) ==> first_primary(monitor_primary@, j as int)
                && forall|k: int| 0 <= k < window_focus@.len() ==> window_focus@[k] != Some(true),
            (exists|k: int| 0 <= k < window_focus@.len() && window_focus@[k] == Some(true)) ==> r is Ok && r->Ok_0 is Window,
            r is Err <==> (forall|k: int| 0 <= k < window_focus@.len() ==> window_focus@[k] != Some(true))
                && (forall|k: int| 0 <= k < monitor_primary@.len() ==> monitor_primary@[k] != Some(true)),
            r matches Err(e) ==> e is NoMonitor,
    {
        match self.primary_monitor(window_focus) {
            Ok(i) => Ok(CaptureTarget::Window(i)),
            Err(_) => match self.primary_monitor(monitor_primary) {
                Ok(j) => Ok(CaptureTarget::Monitor(j)),
                Err(e) => Err(e),
            },
        }
    }

    /// Scales a captured RGBA frame to fit 1280 by 720, keeping its aspect
    /// ratio (linear filter), and encodes it as JPEG. A non-empty frame always
    /// encodes; a failure can only be an encoding error.
    pub fn encode_frame(&self, width: u32, height: u32, rgba: Vec<u8>) -> (r: Result<Vec<u8>, ScreenCaptureError>)
        requires
            rgba@.len() == 4 * width * height,
        ensures
            r matches Ok(bytes) ==> bytes@ == jpeg_fit_frame(width, height, rgba@, MAX_FRAME_WIDTH, MAX_FRAME_HEIGHT, ResizeFilter::Triangle)
                && is_jpeg_stream(bytes@),
            width > 0 && height > 0 ==> r is Ok,
            r matches Err(e) ==> e is EncodeError,
    {
        match encode_fitted_jpeg(width, height, rgba, MAX_FRAME_WIDTH, MAX_FRAME_HEIGHT, ResizeFilter::Triangle) {
            Ok(frame) => Ok(frame.bytes),
            Err(msg) => Err(ScreenCaptureError::EncodeError(msg)),
        }
    }
}

} // verus!
