//! Taking a screenshot for translation or recognition: when to take one,
//! what to tell the user when it fails, and what is sent to the capture
//! window.

use vstd::prelude::*;
use vstd::string::StringExecFns;
use crate::config::{bool_or, get_or_bool, lookup, ConfigStore};

verus! {

/// The setting that asks for a message box when a screenshot fails.
pub const OCR_ERR_TIP: &'static str = "ocr_err_tip";

/// The title of the message box.
pub const ERROR_TITLE: &'static str = "错误";

/// The message when no screen is found under the pointer.
pub const NO_SCREEN_MESSAGE: &'static str = "无法获取鼠标所在屏幕";

/// What the message begins with when the capture itself fails; the error's
/// own words follow.
pub const CAPTURE_FAILED_PREFIX: &'static str = "截图失败: ";

/// Why no screenshot was taken.
#[derive(Debug)]
pub enum CaptureFailure {
    /// No screen holds the pointer.
    NoScreen,
    /// The screen could not be captured, for the reason given.
    CaptureFailed(String),
}

/// A message box.
#[derive(Debug)]
pub struct Notice {
    pub title: String,
    pub message: String,
}

/// What is sent to the capture window: the action that asked for the
/// screenshot, and the image as PNG in base64.
#[derive(Debug)]
pub struct CapturePayload {
    pub name: String,
    pub base64: String,
}

/// The character that stands for the six bits `v` in the standard base64
/// alphabet.
pub open spec fn base64_char(v: int) -> char
    recommends
        0 <= v < 64,
{
    if v < 26 {
        ((65 + v) as u8) as char
    } else if v < 52 {
        ((71 + v) as u8) as char
    } else if v < 62 {
        ((v - 4) as u8) as char
    } else if v == 62 {
        '+'
    } else {
        '/'
    }
}

/// The standard base64 encoding of `bytes`: four characters for every three
/// bytes, the last group filled up with `=`.
pub open spec fn base64_standard(bytes: Seq<u8>) -> Seq<char>
    decreases bytes.len(),
{
    if bytes.len() == 0 {
        Seq::empty()
    } else if bytes.len() == 1 {
        let a = bytes[0] as int;
        seq![base64_char(a / 4), base64_char(a % 4 * 16), '=', '=']
    } else if bytes.len() == 2 {
        let a = bytes[0] as int;
        let b = bytes[1] as int;
        seq![base64_char(a / 4), base64_char(a % 4 * 16 + b / 16), base64_char(b % 16 * 4), '=']
    } else {
        let a = bytes[0] as int;
        let b = bytes[1] as int;
        let c = bytes[2] as int;
        seq![
            base64_char(a / 4),
            base64_char(a % 4 * 16 + b / 16),
            base64_char(b % 16 * 4 + c / 64),
            base64_char(c % 64),
        ] + base64_standard(bytes.skip(3))
    }
}

/// Whether the encoding of `len` bytes is no longer than a string can be.
pub open spec fn encodable(len: nat) -> bool {
    (len + 2) / 3 * 4 <= isize::MAX
}

/// `Engine::encode` of `base64`'s `general_purpose::STANDARD`: the encoding of
/// `bytes` as a new string. It panics where the encoding would be longer
/// than a string can be, which `requires` rules out.
#[verifier::external_body]
fn encode_standard(bytes: &[u8]) -> (r: String)
    requires
        encodable(bytes@.len()),
    ensures
        r@ == base64_standard(bytes@),
{
    base64::Engine::encode(&base64::engine::general_purpose::STANDARD, bytes)
}

/// Whether to take the screenshot that was asked for: not while the capture
/// window is in sight.
pub fn screenshot(capture_window_visible: Option<bool>) -> (r: bool)
    ensures
        r == (capture_window_visible != Some(true)),
{
    match capture_window_visible {
        Some(visible) => !visible,
        None => true,
    }
}

/// Where the pointer is taken to be: where it is or, where that is not
/// known, at the origin.
pub fn pointer_or_origin(position: Option<(i32, i32)>) -> (r: (i32, i32))
    ensures
        r == match position {
            Some(p) => p,
            None => (0i32, 0i32),
        },
{
    match position {
        Some(p) => p,
        None => (0, 0),
    }
}

/// The message for a failure.
pub open spec fn failure_message(failure: CaptureFailure) -> Seq<char> {
    match failure {
        CaptureFailure::NoScreen => NO_SCREEN_MESSAGE@,
        CaptureFailure::CaptureFailed(reason) => CAPTURE_FAILED_PREFIX@ + reason@,
    }
}

/// The message box to show after a failed screenshot: one where the settings
/// ask for it, none else.
pub fn capture_failed(store: &ConfigStore, failure: &CaptureFailure) -> (r: Option<Notice>)
    ensures
        match r {
            Some(notice) => {
                &&& bool_or(lookup(store@, OCR_ERR_TIP@), false)
                &&& notice.title@ == ERROR_TITLE@
                &&& notice.message@ == failure_message(*failure)
            },
            None => !bool_or(lookup(store@, OCR_ERR_TIP@), false),
        },
{
    if !get_or_bool(store, OCR_ERR_TIP, false) {
        return None;
    }
    let message = match failure {
        CaptureFailure::NoScreen => String::from_str(NO_SCREEN_MESSAGE),
        CaptureFailure::CaptureFailed(reason) => String::from_str(CAPTURE_FAILED_PREFIX).concat(
            reason.as_str(),
        ),
    };
    Some(Notice { title: String::from_str(ERROR_TITLE), message })
}

/// Packs a screenshot, taken for the action `name` and given as the bytes of
/// a PNG file, for the capture window.
pub fn capture_payload(name: &str, png: &Vec<u8>) -> (r: CapturePayload)
    requires
        encodable(png@.len()),
    ensures
        r.name@ == name@,
        r.base64@ == base64_standard(png@),
{
    CapturePayload { name: String::from_str(name), base64: encode_standard(png.as_slice()) }
}

/// The encoding of `n` bytes is four characters long for every three bytes
/// or part of three.
pub proof fn lemma_base64_length(bytes: Seq<u8>)
    ensures
        base64_standard(bytes).len() == (bytes.len() + 2) / 3 * 4,
    decreases bytes.len(),
{
    if bytes.len() >= 3 {
        lemma_base64_length(bytes.skip(3));
    }
}

} // verus!
