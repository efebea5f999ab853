//! Closing a window: the confirmation and the fallback where the platform
//! offers no way to close one.

use vstd::prelude::*;
use crate::handler::{
    closed_text, is_error, is_text, list_windows, missing_window, select_window, Content,
    ErrorCode, ToolError,
};
use crate::models::{or_zero_u32, window_matches, WindowFields, WindowInfo};
use crate::text::push_decimal;

verus! {

/// The error of a platform that offers no way to close a window.
pub open spec fn unsupported_close() -> Seq<char> {
    "Window closing is not supported on this platform"@
}

/// Some enumerated window has the id `id`, a missing id counting as zero.
pub open spec fn lists_window(fs: Seq<WindowFields>, id: u32) -> bool {
    exists|k: int| 0 <= k < fs.len() && or_zero_u32((#[trigger] fs[k]).id) == id
}

/// `k` is the first enumerated window with the id `id`.
pub open spec fn is_first_listed(fs: Seq<WindowFields>, id: u32, k: int) -> bool {
    &&& 0 <= k < fs.len()
    &&& or_zero_u32(fs[k].id) == id
    &&& forall|j: int| 0 <= j < k ==> or_zero_u32((#[trigger] fs[j]).id) != id
}

/// The window that a close request for `window_id` goes to: the first
/// enumerated window with that id. Where the enumeration failed or lists no
/// such window, the error to return instead, and no request is to be sent.
pub fn window_to_close(enumerated: Result<Vec<WindowFields>, String>, window_id: u32) -> (r: Result<
    WindowInfo,
    ToolError,
>)
    ensures
        match enumerated {
            Err(e) => r is Err && is_error(
                r->Err_0,
                ErrorCode::InternalError,
                "Failed to get window list: "@ + e@,
            ),
            Ok(fs) => if lists_window(fs@, window_id) {
                r is Ok && r->Ok_0.id == window_id && exists|k: int|
                    #[trigger] is_first_listed(fs@, window_id, k) && window_matches(
                        r->Ok_0,
                        fs@[k],
                    )
            } else {
                r is Err && is_error(r->Err_0, ErrorCode::InternalError, missing_window(window_id))
            },
        },
{
    let ghost fields = enumerated;
    let mut windows = match list_windows(enumerated) {
        Ok(ws) => ws,
        Err(e) => return Err(e),
    };
    let ghost ws = windows@;
    let ghost fs = fields->Ok_0@;
    proof {
        assert forall|j: int| 0 <= j < ws.len() implies (#[trigger] ws[j]).id == or_zero_u32(
            fs[j].id,
        ) by {
            assert(window_matches(ws[j], fs[j]));
        }
    }
    match select_window(&windows, window_id) {
        Ok(k) => {
            proof {
                assert forall|j: int| 0 <= j < k implies or_zero_u32((#[trigger] fs[j]).id)
                    != window_id by {
                    assert(ws[j].id != window_id);
                }
                assert(is_first_listed(fs, window_id, k as int));
                assert(window_matches(ws[k as int], fs[k as int]));
            }
            Ok(windows.remove(k))
        },
        Err(e) => {
            proof {
                if lists_window(fs, window_id) {
                    let k = choose|k: int| 0 <= k < fs.len() && or_zero_u32((#[trigger] fs[k]).id) == window_id;
                    assert(ws[k].id == window_id);
                }
            }
            Err(e)
        },
    }
}

/// The close request of a platform with no native way to close a window:
/// it always fails, saying so.
pub fn close_window_by_id(window_id: u32) -> (r: Result<(), String>)
    ensures
        r is Err && r->Err_0@ == unsupported_close(),
{
    Err(String::from_str("Window closing is not supported on this platform"))
}

/// The outcome of a close request sent to `window`: a confirmation naming
/// its title, application and id, or the platform's failure unchanged.
pub fn close_window_with_info(window: &WindowInfo, sent: Result<(), String>) -> (r: Result<
    String,
    String,
>)
    ensures
        match (sent, r) {
            (Ok(_), Ok(text)) => text@ == closed_text(*window),
            (Err(e), Err(f)) => f@ == e@,
            _ => false,
        },
{
    match sent {
        Ok(()) => {
            let mut s = String::from_str("Successfully closed window: ");
            s.append(window.title.as_str());
            s.append(" [");
            s.append(window.app_name.as_str());
            s.append("] (ID: ");
            push_decimal(&mut s, window.id as u64);
            s.append(")");
            assert(s@ =~= closed_text(*window));
            Ok(s)
        },
        Err(e) => Err(e),
    }
}

/// The result of the close tool: one text item with the confirmation, or
/// the platform's failure as an internal error.
pub fn close_window_output(window: &WindowInfo, sent: Result<(), String>) -> (r: Result<
    Vec<Content>,
    ToolError,
>)
    ensures
        match (sent, r) {
            (Ok(_), Ok(items)) => items@.len() == 1 && is_text(items@[0], closed_text(*window)),
            (Err(e), Err(err)) => is_error(err, ErrorCode::InternalError, e@),
            _ => false,
        },
{
    match close_window_with_info(window, sent) {
        Ok(text) => Ok(vec![Content::Text(text)]),
        Err(message) => Err(ToolError { code: ErrorCode::InternalError, message }),
    }
}

} // verus!
