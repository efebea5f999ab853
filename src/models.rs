//! The values that the tools take and return.

use vstd::prelude::*;

verus! {

/// Parameters of a tool that takes none.
#[derive(Clone, Copy, Debug, PartialEq, Eq, Structural)]
pub struct EmptyParams {}

/// Parameters of the monitor capture: the monitor's index, or none for the
/// primary monitor.
#[derive(Clone, Copy, Debug, PartialEq, Eq, Structural)]
pub struct ScreenshotParams {
    pub monitor_index: Option<u32>,
}

/// Parameters of the window capture.
#[derive(Clone, Copy, Debug, PartialEq, Eq, Structural)]
pub struct WindowScreenshotParams {
    pub window_id: u32,
}

/// Parameters of the window close.
#[derive(Clone, Copy, Debug, PartialEq, Eq, Structural)]
pub struct CloseWindowParams {
    pub window_id: u32,
}

/// The attributes of one display as the platform reported them, each `None`
/// where it could not be read.
#[derive(Clone, Debug)]
pub struct MonitorFields {
    pub name: Option<String>,
    pub x: Option<i32>,
    pub y: Option<i32>,
    pub width: Option<u32>,
    pub height: Option<u32>,
    pub is_primary: Option<bool>,
}

/// One display, with its position in the enumeration that produced it.
#[derive(Clone, Debug)]
pub struct MonitorInfo {
    pub index: usize,
    pub name: String,
    pub x: i32,
    pub y: i32,
    pub width: u32,
    pub height: u32,
    pub is_primary: bool,
}

/// The attributes of one window as the platform reported them, each `None`
/// where it could not be read.
#[derive(Clone, Debug)]
pub struct WindowFields {
    pub id: Option<u32>,
    pub title: Option<String>,
    pub app_name: Option<String>,
    pub x: Option<i32>,
    pub y: Option<i32>,
    pub width: Option<u32>,
    pub height: Option<u32>,
    pub is_minimized: Option<bool>,
    pub is_maximized: Option<bool>,
}

/// One window.
#[derive(Clone, Debug)]
pub struct WindowInfo {
    pub id: u32,
    pub title: String,
    pub app_name: String,
    pub x: i32,
    pub y: i32,
    pub width: u32,
    pub height: u32,
    pub is_minimized: bool,
    pub is_maximized: bool,
}

/// A captured image: rows of RGBA pixels, four bytes each.
#[derive(Clone, Debug)]
pub struct RawImage {
    pub width: u32,
    pub height: u32,
    pub pixels: Vec<u8>,
}

impl RawImage {
    /// The pixel buffer holds exactly four bytes for each pixel.
    pub open spec fn well_sized(&self) -> bool {
        self.pixels@.len() == 4 * (self.width as int) * (self.height as int)
    }

    /// Whether the pixel buffer holds exactly four bytes for each pixel.
    pub fn is_well_sized(&self) -> (r: bool)
        ensures
            r == self.well_sized(),
    {
        let w: u128 = self.width as u128;
        let h: u128 = self.height as u128;
        assert(w * h <= 0xffff_ffff_ffff_ffffu128 * 0xffff_ffffu128) by (nonlinear_arith)
            requires
                w <= 0xffff_ffff,
                h <= 0xffff_ffff,
        ;
        let area: u128 = w * h;
        assert(4 * (area as int) == 4 * (self.width as int) * (self.height as int)) by (nonlinear_arith)
            requires
                area as int == (w as int) * (h as int),
                w as int == self.width as int,
                h as int == self.height as int,
        ;
        (self.pixels.len() as u128) == 4 * area
    }
}

/// The value a monitor attribute falls back to when it could not be read.
pub open spec fn or_zero_i32(v: Option<i32>) -> i32 {
    match v {
        Some(x) => x,
        None => 0,
    }
}

/// The value an unsigned attribute falls back to when it could not be read.
pub open spec fn or_zero_u32(v: Option<u32>) -> u32 {
    match v {
        Some(x) => x,
        None => 0,
    }
}

/// The value a flag falls back to when it could not be read.
pub open spec fn or_false(v: Option<bool>) -> bool {
    match v {
        Some(x) => x,
        None => false,
    }
}

/// The text an attribute falls back to when it could not be read.
pub open spec fn or_empty(v: Option<String>) -> Seq<char> {
    match v {
        Some(s) => s@,
        None => Seq::empty(),
    }
}

/// `m` is the display that `f` describes at position `i`, with each missing
/// attribute at its fallback.
pub open spec fn monitor_matches(m: MonitorInfo, f: MonitorFields, i: int) -> bool {
    &&& m.index == i
    &&& m.name@ == or_empty(f.name)
    &&& m.x == or_zero_i32(f.x)
    &&& m.y == or_zero_i32(f.y)
    &&& m.width == or_zero_u32(f.width)
    &&& m.height == or_zero_u32(f.height)
    &&& m.is_primary == or_false(f.is_primary)
}

/// `w` is the window that `f` describes, with each missing attribute at its
/// fallback.
pub open spec fn window_matches(w: WindowInfo, f: WindowFields) -> bool {
    &&& w.id == or_zero_u32(f.id)
    &&& w.title@ == or_empty(f.title)
    &&& w.app_name@ == or_empty(f.app_name)
    &&& w.x == or_zero_i32(f.x)
    &&& w.y == or_zero_i32(f.y)
    &&& w.width == or_zero_u32(f.width)
    &&& w.height == or_zero_u32(f.height)
    &&& w.is_minimized == or_false(f.is_minimized)
    &&& w.is_maximized == or_false(f.is_maximized)
}

fn text_or_empty(v: &Option<String>) -> (r: String)
    ensures
        r@ == or_empty(*v),
{
    match v {
        Some(s) => s.clone(),
        None => String::new(),
    }
}

fn i32_or_zero(v: Option<i32>) -> (r: i32)
    ensures
        r == or_zero_i32(v),
{
    match v {
        Some(x) => x,
        None => 0,
    }
}

fn u32_or_zero(v: Option<u32>) -> (r: u32)
    ensures
        r == or_zero_u32(v),
{
    match v {
        Some(x) => x,
        None => 0,
    }
}

fn bool_or_false(v: Option<bool>) -> (r: bool)
    ensures
        r == or_false(v),
{
    match v {
        Some(x) => x,
        None => false,
    }
}

impl MonitorInfo {
    /// The display at position `index` of an enumeration, each attribute that
    /// could not be read at its fallback (zero, `false`, empty text).
    pub fn from_fields(index: usize, f: &MonitorFields) -> (r: MonitorInfo)
        ensures
            monitor_matches(r, *f, index as int),
    {
        MonitorInfo {
            index,
            name: text_or_empty(&f.name),
            x: i32_or_zero(f.x),
            y: i32_or_zero(f.y),
            width: u32_or_zero(f.width),
            height: u32_or_zero(f.height),
            is_primary: bool_or_false(f.is_primary),
        }
    }
}

impl WindowInfo {
    /// The window that `f` describes, each attribute that could not be read
    /// at its fallback (zero, `false`, empty text).
    pub fn from_fields(f: &WindowFields) -> (r: WindowInfo)
        ensures
            window_matches(r, *f),
    {
        WindowInfo {
            id: u32_or_zero(f.id),
            title: text_or_empty(&f.title),
            app_name: text_or_empty(&f.app_name),
            x: i32_or_zero(f.x),
            y: i32_or_zero(f.y),
            width: u32_or_zero(f.width),
            height: u32_or_zero(f.height),
            is_minimized: bool_or_false(f.is_minimized),
            is_maximized: bool_or_false(f.is_maximized),
        }
    }
}

/// Every display of an enumeration, numbered by position.
pub fn monitors_from_fields(fields: &Vec<MonitorFields>) -> (r: Vec<MonitorInfo>)
    ensures
        r@.len() == fields@.len(),
        forall|i: int| 0 <= i < r@.len() ==> monitor_matches(#[trigger] r@[i], fields@[i], i),
{
    let mut r: Vec<MonitorInfo> = Vec::new();
    let mut i: usize = 0;
    while i < fields.len()
        invariant
            i <= fields@.len(),
            r@.len() == i,
            forall|j: int| 0 <= j < i ==> monitor_matches(#[trigger] r@[j], fields@[j], j),
        decreases fields@.len() - i,
    {
        r.push(MonitorInfo::from_fields(i, &fields[i]));
        i = i + 1;
    }
    r
}

/// Every window of an enumeration, in its order.
pub fn windows_from_fields(fields: &Vec<WindowFields>) -> (r: Vec<WindowInfo>)
    ensures
        r@.len() == fields@.len(),
        forall|i: int| 0 <= i < r@.len() ==> window_matches(#[trigger] r@[i], fields@[i]),
{
    let mut r: Vec<WindowInfo> = Vec::new();
    let mut i: usize = 0;
    while i < fields.len()
        invariant
            i <= fields@.len(),
            r@.len() == i,
            forall|j: int| 0 <= j < i ==> window_matches(#[trigger] r@[j], fields@[j]),
        decreases fields@.len() - i,
    {
        r.push(WindowInfo::from_fields(&fields[i]));
        i = i + 1;
    }
    r
}

} // verus!
