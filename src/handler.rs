//! What each tool returns, computed from what the platform reported.

use vstd::prelude::*;
use crate::encode::{base64_standard, encode_base64, encode_png, png_rgba};
use crate::models::{
    monitor_matches, monitors_from_fields, window_matches, windows_from_fields, MonitorFields,
    MonitorInfo, RawImage, WindowFields, WindowInfo,
};
use crate::text::{decimal, push_decimal};

verus! {

/// The kind of a failed tool call.
#[derive(Clone, Copy, Debug, PartialEq, Eq, Structural)]
pub enum ErrorCode {
    /// The argument object does not fit the tool's parameters.
    InvalidParams,
    /// No tool has the requested name.
    MethodNotFound,
    /// The platform, an encoding or the worker failed.
    InternalError,
}

/// A failed tool call: its kind and a message that says why.
#[derive(Clone, Debug)]
pub struct ToolError {
    pub code: ErrorCode,
    pub message: String,
}

/// One item of a successful tool call's result.
#[derive(Clone, Debug)]
pub enum Content {
    Text(String),
    Image { data: String, mime_type: String },
}

/// `e` is an error of kind `code` with the message `message`.
pub open spec fn is_error(e: ToolError, code: ErrorCode, message: Seq<char>) -> bool {
    e.code == code && e.message@ == message
}

/// `c` is a text item holding `t`.
pub open spec fn is_text(c: Content, t: Seq<char>) -> bool {
    match c {
        Content::Text(s) => s@ == t,
        _ => false,
    }
}

/// `c` is a PNG image item whose encoded data is `data`.
pub open spec fn is_png_item(c: Content, data: Seq<char>) -> bool {
    match c {
        Content::Image { data: d, mime_type: m } => d@ == data && m@ == "image/png"@,
        _ => false,
    }
}

/// The caption of a monitor capture.
pub open spec fn monitor_caption(m: MonitorInfo) -> Seq<char> {
    "Monitor: "@ + m.name@ + " (Index: "@ + decimal(m.index as nat) + ", Size: "@ + decimal(
        m.width as nat,
    ) + "x"@ + decimal(m.height as nat) + ")"@
}

/// The caption of a window capture.
pub open spec fn window_caption(w: WindowInfo) -> Seq<char> {
    "Window: "@ + w.title@ + " ["@ + w.app_name@ + "] (ID: "@ + decimal(w.id as nat) + ", Size: "@
        + decimal(w.width as nat) + "x"@ + decimal(w.height as nat) + ")"@
}

/// The confirmation that a close request went to a window.
pub open spec fn closed_text(w: WindowInfo) -> Seq<char> {
    "Successfully closed window: "@ + w.title@ + " ["@ + w.app_name@ + "] (ID: "@ + decimal(
        w.id as nat,
    ) + ")"@
}

/// The error for a window id that no enumerated window has.
pub open spec fn missing_window(id: u32) -> Seq<char> {
    "Window ID "@ + decimal(id as nat) + " does not exist"@
}

/// The error for a monitor index past the last monitor.
pub open spec fn missing_monitor(index: u32) -> Seq<char> {
    "Monitor index "@ + decimal(index as nat) + " does not exist"@
}

/// The error for a capture with no monitor at all.
pub open spec fn no_monitors() -> Seq<char> {
    "No monitors available"@
}

/// The error for a pixel buffer of the wrong size.
pub open spec fn bad_buffer() -> Seq<char> {
    "Image encoding failed: pixel buffer does not match the image size"@
}

/// Some monitor of `ms` is marked primary.
pub open spec fn has_primary(ms: Seq<MonitorInfo>) -> bool {
    exists|k: int| 0 <= k < ms.len() && (#[trigger] ms[k]).is_primary
}

/// `k` is the first monitor of `ms` marked primary.
pub open spec fn is_first_primary(ms: Seq<MonitorInfo>, k: int) -> bool {
    &&& 0 <= k < ms.len()
    &&& ms[k].is_primary
    &&& forall|j: int| 0 <= j < k ==> !(#[trigger] ms[j]).is_primary
}

/// `k` is the first window of `ws` with the id `id`.
pub open spec fn is_first_with_id(ws: Seq<WindowInfo>, id: u32, k: int) -> bool {
    &&& 0 <= k < ws.len()
    &&& ws[k].id == id
    &&& forall|j: int| 0 <= j < k ==> (#[trigger] ws[j]).id != id
}

/// Some window of `ws` has the id `id`.
pub open spec fn has_window(ws: Seq<WindowInfo>, id: u32) -> bool {
    exists|k: int| 0 <= k < ws.len() && (#[trigger] ws[k]).id == id
}

fn internal_error(message: String) -> (r: ToolError)
    ensures
        is_error(r, ErrorCode::InternalError, message@),
{
    ToolError { code: ErrorCode::InternalError, message }
}

fn prefixed(prefix: &str, detail: &String) -> (r: String)
    ensures
        r@ == prefix@ + detail@,
{
    let mut s = String::from_str(prefix);
    s.append(detail.as_str());
    s
}

/// The displays of an enumeration, numbered by position, each attribute that
/// could not be read at its fallback; or the enumeration's failure.
pub fn list_monitors(enumerated: Result<Vec<MonitorFields>, String>) -> (r: Result<
    Vec<MonitorInfo>,
    ToolError,
>)
    ensures
        match (enumerated, r) {
            (Ok(fs), Ok(ms)) => ms@.len() == fs@.len() && forall|i: int|
                0 <= i < ms@.len() ==> monitor_matches(#[trigger] ms@[i], fs@[i], i),
            (Err(e), Err(err)) => is_error(
                err,
                ErrorCode::InternalError,
                "Failed to get monitors: "@ + e@,
            ),
            _ => false,
        },
{
    match enumerated {
        Ok(fs) => Ok(monitors_from_fields(&fs)),
        Err(e) => Err(internal_error(prefixed("Failed to get monitors: ", &e))),
    }
}

/// The windows of an enumeration, each attribute that could not be read at
/// its fallback; or the enumeration's failure.
pub fn list_windows(enumerated: Result<Vec<WindowFields>, String>) -> (r: Result<
    Vec<WindowInfo>,
    ToolError,
>)
    ensures
        match (enumerated, r) {
            (Ok(fs), Ok(ws)) => ws@.len() == fs@.len() && forall|i: int|
                0 <= i < ws@.len() ==> window_matches(#[trigger] ws@[i], fs@[i]),
            (Err(e), Err(err)) => is_error(
                err,
                ErrorCode::InternalError,
                "Failed to get window list: "@ + e@,
            ),
            _ => false,
        },
{
    match enumerated {
        Ok(fs) => Ok(windows_from_fields(&fs)),
        Err(e) => Err(internal_error(prefixed("Failed to get window list: ", &e))),
    }
}

/// The position of the monitor that a capture targets: the one at `index`
/// where it is given, else the first primary monitor, else the first one.
pub fn select_monitor(monitors: &Vec<MonitorInfo>, index: Option<u32>) -> (r: Result<
    usize,
    ToolError,
>)
    ensures
        monitors@.len() == 0 ==> r is Err && is_error(
            r->Err_0,
            ErrorCode::InternalError,
            no_monitors(),
        ),
        monitors@.len() > 0 ==> match index {
            Some(i) => if i < monitors@.len() {
                r == Ok::<usize, ToolError>(i as usize)
            } else {
                r is Err && is_error(r->Err_0, ErrorCode::InternalError, missing_monitor(i))
            },
            None => r is Ok && if has_primary(monitors@) {
                is_first_primary(monitors@, r->Ok_0 as int)
            } else {
                r->Ok_0 == 0
            },
        },
{
    if monitors.len() == 0 {
        return Err(internal_error(String::from_str("No monitors available")));
    }
    match index {
        Some(i) => {
            if (i as usize) < monitors.len() {
                Ok(i as usize)
            } else {
                let mut s = String::from_str("Monitor index ");
                push_decimal(&mut s, i as u64);
                s.append(" does not exist");
                assert(s@ =~= missing_monitor(i));
                Err(internal_error(s))
            }
        },
        None => {
            let mut k: usize = 0;
            while k < monitors.len()
                invariant
                    index is None,
                    k <= monitors@.len(),
                    forall|j: int| 0 <= j < k ==> !(#[trigger] monitors@[j]).is_primary,
                decreases monitors@.len() - k,
            {
                if monitors[k].is_primary {
                    assert(is_first_primary(monitors@, k as int));
                    assert(has_primary(monitors@));
                    return Ok(k);
                }
                k = k + 1;
            }
            assert(!has_primary(monitors@));
            Ok(0)
        },
    }
}

/// The position of the first window with the id `window_id`, or an error
/// that names the id.
pub fn select_window(windows: &Vec<WindowInfo>, window_id: u32) -> (r: Result<usize, ToolError>)
    ensures
        has_window(windows@, window_id) ==> r is Ok && is_first_with_id(
            windows@,
            window_id,
            r->Ok_0 as int,
        ),
        !has_window(windows@, window_id) ==> r is Err && is_error(
            r->Err_0,
            ErrorCode::InternalError,
            missing_window(window_id),
        ),
{
    let mut k: usize = 0;
    while k < windows.len()
        invariant
            k <= windows@.len(),
            forall|j: int| 0 <= j < k ==> (#[trigger] windows@[j]).id != window_id,
        decreases windows@.len() - k,
    {
        if windows[k].id == window_id {
            assert(is_first_with_id(windows@, window_id, k as int));
            assert(has_window(windows@, window_id));
            return Ok(k);
        }
        k = k + 1;
    }
    assert(!has_window(windows@, window_id));
    let mut s = String::from_str("Window ID ");
    push_decimal(&mut s, window_id as u64);
    s.append(" does not exist");
    assert(s@ =~= missing_window(window_id));
    Err(internal_error(s))
}

/// The caption of a capture of `m`.
pub fn monitor_caption_text(m: &MonitorInfo) -> (r: String)
    ensures
        r@ == monitor_caption(*m),
{
    let mut s = String::from_str("Monitor: ");
    s.append(m.name.as_str());
    s.append(" (Index: ");
    push_decimal(&mut s, m.index as u64);
    s.append(", Size: ");
    push_decimal(&mut s, m.width as u64);
    s.append("x");
    push_decimal(&mut s, m.height as u64);
    s.append(")");
    assert(s@ =~= monitor_caption(*m));
    s
}

/// The caption of a capture of `w`.
pub fn window_caption_text(w: &WindowInfo) -> (r: String)
    ensures
        r@ == window_caption(*w),
{
    let mut s = String::from_str("Window: ");
    s.append(w.title.as_str());
    s.append(" [");
    s.append(w.app_name.as_str());
    s.append("] (ID: ");
    push_decimal(&mut s, w.id as u64);
    s.append(", Size: ");
    push_decimal(&mut s, w.width as u64);
    s.append("x");
    push_decimal(&mut s, w.height as u64);
    s.append(")");
    assert(s@ =~= window_caption(*w));
    s
}

/// The PNG image of `img`, as base64 text; or why it could not be encoded.
pub fn encode_image(img: &RawImage) -> (r: Result<String, String>)
    ensures
        !img.well_sized() ==> r is Err && r->Err_0@ == bad_buffer(),
        img.well_sized() && r is Ok ==> r->Ok_0@ == base64_standard(
            png_rgba(img.width, img.height, img.pixels@),
        ),
        img.well_sized() && r is Err ==> exists|d: Seq<char>|
            r->Err_0@ == "Image encoding failed: "@ + d,
        img.well_sized() && img.width > 0 && img.height > 0 ==> r is Ok,
{
    if !img.is_well_sized() {
        return Err(String::from_str("Image encoding failed: pixel buffer does not match the image size"));
    }
    match encode_png(img.width, img.height, &img.pixels) {
        Ok(png) => Ok(encode_base64(&png)),
        Err(e) => {
            let s = prefixed("Image encoding failed: ", &e);
            assert(s@ == "Image encoding failed: "@ + e@);
            Err(s)
        },
    }
}

/// The two items of a capture result: the caption, then the image.
fn capture_items(caption: String, captured: Result<RawImage, String>, failure: &str) -> (r: Result<
    Vec<Content>,
    ToolError,
>)
    ensures
        match captured {
            Err(e) => r is Err && is_error(r->Err_0, ErrorCode::InternalError, failure@ + e@),
            Ok(img) => if !img.well_sized() {
                r is Err && is_error(r->Err_0, ErrorCode::InternalError, bad_buffer())
            } else {
                (img.width > 0 && img.height > 0 ==> r is Ok) && match r {
                    Ok(items) => items@.len() == 2 && is_text(items@[0], caption@) && is_png_item(
                        items@[1],
                        base64_standard(png_rgba(img.width, img.height, img.pixels@)),
                    ),
                    Err(err) => err.code == ErrorCode::InternalError && exists|d: Seq<char>|
                        err.message@ == "Image encoding failed: "@ + d,
                }
            },
        },
{
    match captured {
        Err(e) => Err(internal_error(prefixed(failure, &e))),
        Ok(img) => match encode_image(&img) {
            Ok(data) => {
                let items = vec![
                    Content::Text(caption),
                    Content::Image { data, mime_type: String::from_str("image/png") },
                ];
                Ok(items)
            },
            Err(e) => Err(internal_error(e)),
        },
    }
}

/// The result of a monitor capture: the caption of `monitor` and the PNG
/// image of what was captured; or the capture's or the encoding's failure.
pub fn monitor_capture_output(monitor: &MonitorInfo, captured: Result<RawImage, String>) -> (r:
    Result<Vec<Content>, ToolError>)
    ensures
        match captured {
            Err(e) => r is Err && is_error(
                r->Err_0,
                ErrorCode::InternalError,
                "Screenshot failed: "@ + e@,
            ),
            Ok(img) => if !img.well_sized() {
                r is Err && is_error(r->Err_0, ErrorCode::InternalError, bad_buffer())
            } else {
                (img.width > 0 && img.height > 0 ==> r is Ok) && match r {
                    Ok(items) => items@.len() == 2 && is_text(items@[0], monitor_caption(*monitor))
                        && is_png_item(
                        items@[1],
                        base64_standard(png_rgba(img.width, img.height, img.pixels@)),
                    ),
                    Err(err) => err.code == ErrorCode::InternalError && exists|d: Seq<char>|
                        err.message@ == "Image encoding failed: "@ + d,
                }
            },
        },
{
    capture_items(monitor_caption_text(monitor), captured, "Screenshot failed: ")
}

/// The result of a window capture: the caption of `window` and the PNG
/// image of what was captured; or the capture's or the encoding's failure.
pub fn window_capture_output(window: &WindowInfo, captured: Result<RawImage, String>) -> (r:
    Result<Vec<Content>, ToolError>)
    ensures
        match captured {
            Err(e) => r is Err && is_error(
                r->Err_0,
                ErrorCode::InternalError,
                "Window screenshot failed: "@ + e@,
            ),
            Ok(img) => if !img.well_sized() {
                r is Err && is_error(r->Err_0, ErrorCode::InternalError, bad_buffer())
            } else {
                (img.width > 0 && img.height > 0 ==> r is Ok) && match r {
                    Ok(items) => items@.len() == 2 && is_text(items@[0], window_caption(*window))
                        && is_png_item(
                        items@[1],
                        base64_standard(png_rgba(img.width, img.height, img.pixels@)),
                    ),
                    Err(err) => err.code == ErrorCode::InternalError && exists|d: Seq<char>|
                        err.message@ == "Image encoding failed: "@ + d,
                }
            },
        },
{
    capture_items(window_caption_text(window), captured, "Window screenshot failed: ")
}

} // verus!
