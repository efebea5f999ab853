//! Properties that relate the dispatcher and the listings across calls.

use vstd::prelude::*;
use crate::handler::ErrorCode;
use crate::models::{monitor_matches, window_matches, MonitorFields, MonitorInfo, WindowFields, WindowInfo};
use crate::params::{has_key, lookup, missing_field, required_u32, ParamValue};
use crate::router::{decode_failure, dispatched, is_registered, tool_names, unknown_tool};

verus! {

/// A call to a name that no tool has is always routed to `MethodNotFound`,
/// whatever its arguments.
pub proof fn unknown_name_is_method_not_found(name: Seq<char>, entries: Seq<(String, ParamValue)>)
    requires
        !is_registered(name),
    ensures
        dispatched(name, entries) == Err::<crate::router::ToolCall, (ErrorCode, Seq<char>)>(
            (ErrorCode::MethodNotFound, unknown_tool()),
        ),
{
    assert(tool_names()[0] == "get_monitor_count"@);
    assert(tool_names()[1] == "get_screen_screenshot"@);
    assert(tool_names()[2] == "get_window_list"@);
    assert(tool_names()[3] == "get_window_screenshot"@);
    assert(tool_names()[4] == "close_window"@);
}

/// A call to a registered tool never gets `MethodNotFound`.
pub proof fn registered_name_is_found(name: Seq<char>, entries: Seq<(String, ParamValue)>)
    requires
        is_registered(name),
    ensures
        match dispatched(name, entries) {
            Ok(_) => true,
            Err((code, _)) => code != ErrorCode::MethodNotFound,
        },
{
    let i = choose|i: int| 0 <= i < tool_names().len() && tool_names()[i] == name;
    assert(0 <= i < 5);
}

/// A call to a tool that needs a window id, with no `window_id` among its
/// arguments, fails with `InvalidParams` for the missing field and reaches
/// no tool.
pub proof fn missing_window_id_is_invalid_params(name: Seq<char>, entries: Seq<(String, ParamValue)>)
    requires
        name == "get_window_screenshot"@ || name == "close_window"@,
        !has_key(entries, "window_id"@),
    ensures
        dispatched(name, entries) == Err::<crate::router::ToolCall, (ErrorCode, Seq<char>)>(
            (ErrorCode::InvalidParams, decode_failure(missing_field("window_id"@))),
        ),
{
    reveal_strlit("get_monitor_count");
    reveal_strlit("get_screen_screenshot");
    reveal_strlit("get_window_list");
    reveal_strlit("get_window_screenshot");
    reveal_strlit("close_window");
    assert("get_screen_screenshot"@[4] != "get_window_screenshot"@[4]);
    assert("get_monitor_count"@.len() == 17);
    assert("get_window_list"@.len() == 15);
    assert(name.len() == 21 || name.len() == 12);
    assert("get_monitor_count"@ != name);
    assert("get_screen_screenshot"@ != name);
    assert("get_window_list"@ != name);
    assert(lookup(entries, "window_id"@).is_none());
    assert(required_u32(entries, "window_id"@) == Err::<u32, Seq<char>>(missing_field("window_id"@)));
}

/// Two listings of the same enumeration agree, monitor by monitor and field
/// by field.
pub proof fn monitor_listing_is_repeatable(
    fields: Seq<MonitorFields>,
    a: Seq<MonitorInfo>,
    b: Seq<MonitorInfo>,
)
    requires
        a.len() == fields.len(),
        b.len() == fields.len(),
        forall|i: int| 0 <= i < a.len() ==> monitor_matches(#[trigger] a[i], fields[i], i),
        forall|i: int| 0 <= i < b.len() ==> monitor_matches(#[trigger] b[i], fields[i], i),
    ensures
        a.len() == b.len(),
        forall|i: int|
            0 <= i < a.len() ==> {
                &&& (#[trigger] a[i]).index == b[i].index
                &&& a[i].name@ == b[i].name@
                &&& a[i].x == b[i].x
                &&& a[i].y == b[i].y
                &&& a[i].width == b[i].width
                &&& a[i].height == b[i].height
                &&& a[i].is_primary == b[i].is_primary
            },
{
    assert forall|i: int| 0 <= i < a.len() implies {
        &&& (#[trigger] a[i]).index == b[i].index
        &&& a[i].name@ == b[i].name@
        &&& a[i].x == b[i].x
        &&& a[i].y == b[i].y
        &&& a[i].width == b[i].width
        &&& a[i].height == b[i].height
        &&& a[i].is_primary == b[i].is_primary
    } by {
        assert(monitor_matches(a[i], fields[i], i));
        assert(monitor_matches(b[i], fields[i], i));
    }
}

/// Two listings of the same enumeration agree, window by window and field by
/// field.
pub proof fn window_listing_is_repeatable(
    fields: Seq<WindowFields>,
    a: Seq<WindowInfo>,
    b: Seq<WindowInfo>,
)
    requires
        a.len() == fields.len(),
        b.len() == fields.len(),
        forall|i: int| 0 <= i < a.len() ==> window_matches(#[trigger] a[i], fields[i]),
        forall|i: int| 0 <= i < b.len() ==> window_matches(#[trigger] b[i], fields[i]),
    ensures
        a.len() == b.len(),
        forall|i: int|
            0 <= i < a.len() ==> {
                &&& (#[trigger] a[i]).id == b[i].id
                &&& a[i].title@ == b[i].title@
                &&& a[i].app_name@ == b[i].app_name@
                &&& a[i].x == b[i].x
                &&& a[i].y == b[i].y
                &&& a[i].width == b[i].width
                &&& a[i].height == b[i].height
                &&& a[i].is_minimized == b[i].is_minimized
                &&& a[i].is_maximized == b[i].is_maximized
            },
{
    assert forall|i: int| 0 <= i < a.len() implies {
        &&& (#[trigger] a[i]).id == b[i].id
        &&& a[i].title@ == b[i].title@
        &&& a[i].app_name@ == b[i].app_name@
        &&& a[i].x == b[i].x
        &&& a[i].y == b[i].y
        &&& a[i].width == b[i].width
        &&& a[i].height == b[i].height
        &&& a[i].is_minimized == b[i].is_minimized
        &&& a[i].is_maximized == b[i].is_maximized
    } by {
        assert(window_matches(a[i], fields[i]));
        assert(window_matches(b[i], fields[i]));
    }
}

} // verus!
