//! Plain geometric value types: rectangles, positions, border margins and monitors.

use vstd::prelude::*;

verus! {

/// True when `v` is representable as an `i32` screen coordinate.
pub open spec fn fits_i32(v: int) -> bool {
    i32::MIN <= v <= i32::MAX
}

/// Half of `v`, rounded toward zero (the rounding of Rust's integer division).
pub open spec fn half(v: int) -> int {
    if v >= 0 {
        v / 2
    } else {
        -((-v) / 2)
    }
}

/// Executable counterpart of `half` on wide integers.
pub fn half_i64(v: i64) -> (r: i64)
    requires
        v > i64::MIN,
    ensures
        r == half(v as int),
{
    if v >= 0 {
        v / 2
    } else {
        -((-v) / 2)
    }
}

/// A rectangle given by its four edges, in pixels.
#[derive(Clone, Copy, Debug, PartialEq, Eq, Structural)]
pub struct Rect {
    pub left: i32,
    pub top: i32,
    pub right: i32,
    pub bottom: i32,
}

/// A point in pixels.
#[derive(Clone, Copy, Debug, PartialEq, Eq, Structural)]
pub struct Point {
    pub x: i32,
    pub y: i32,
}

impl Rect {
    pub open spec fn spec_width(self) -> int {
        self.right - self.left
    }

    pub open spec fn spec_height(self) -> int {
        self.bottom - self.top
    }

    /// The horizontal center, rounded toward zero.
    pub open spec fn spec_middle_x(self) -> int {
        half(self.left + self.right)
    }

    /// The vertical center, rounded toward zero.
    pub open spec fn spec_middle_y(self) -> int {
        half(self.top + self.bottom)
    }

    pub fn width(&self) -> (r: i32)
        requires
            fits_i32(self.spec_width()),
        ensures
            r == self.spec_width(),
    {
        self.right - self.left
    }

    pub fn height(&self) -> (r: i32)
        requires
            fits_i32(self.spec_height()),
        ensures
            r == self.spec_height(),
    {
        self.bottom - self.top
    }

    /// The center of the rectangle; each coordinate is rounded toward zero.
    pub fn middle_point(&self) -> (p: Point)
        ensures
            p.x == self.spec_middle_x(),
            p.y == self.spec_middle_y(),
    {
        let x = half_i64(self.left as i64 + self.right as i64);
        let y = half_i64(self.top as i64 + self.bottom as i64);
        Point { x: x as i32, y: y as i32 }
    }
}

/// A window placement as origin and size, the form in which windows are moved.
#[derive(Clone, Copy, Debug, PartialEq, Eq, Structural)]
pub struct WindowPosition {
    pub left: i32,
    pub top: i32,
    pub width: i32,
    pub height: i32,
}

impl Rect {
    /// The rectangle with the origin and size of `p`.
    pub fn from_position(p: &WindowPosition) -> (r: Rect)
        requires
            fits_i32(p.left + p.width),
            fits_i32(p.top + p.height),
        ensures
            r.left == p.left,
            r.top == p.top,
            r.right == p.left + p.width,
            r.bottom == p.top + p.height,
    {
        Rect { left: p.left, top: p.top, right: p.left + p.width, bottom: p.top + p.height }
    }
}

impl WindowPosition {
    /// The origin and size of `r`.
    pub fn from_rect(r: &Rect) -> (p: WindowPosition)
        requires
            fits_i32(r.spec_width()),
            fits_i32(r.spec_height()),
        ensures
            p.left == r.left,
            p.top == r.top,
            p.width == r.spec_width(),
            p.height == r.spec_height(),
    {
        WindowPosition { left: r.left, top: r.top, width: r.width(), height: r.height() }
    }
}

/// The per-side difference between a window's outer rectangle and its visible frame.
///
/// Each side may be negative, for windows without an extended frame.
#[derive(Clone, Copy, Debug, PartialEq, Eq, Structural)]
pub struct WindowBorderSize {
    pub left: i32,
    pub right: i32,
    pub top: i32,
    pub bottom: i32,
}

impl WindowBorderSize {
    /// The margin between the outer rectangle `outer` and the visible frame `frame`,
    /// side by side (`outer - frame`), or `None` where a difference leaves `i32`.
    pub fn between(outer: &Rect, frame: &Rect) -> (r: Option<WindowBorderSize>)
        ensures
            r is Some <==> {
                &&& fits_i32(outer.left - frame.left)
                &&& fits_i32(outer.right - frame.right)
                &&& fits_i32(outer.top - frame.top)
                &&& fits_i32(outer.bottom - frame.bottom)
            },
            r matches Some(m) ==> {
                &&& m.left == outer.left - frame.left
                &&& m.right == outer.right - frame.right
                &&& m.top == outer.top - frame.top
                &&& m.bottom == outer.bottom - frame.bottom
            },
    {
        let left = outer.left as i64 - frame.left as i64;
        let right = outer.right as i64 - frame.right as i64;
        let top = outer.top as i64 - frame.top as i64;
        let bottom = outer.bottom as i64 - frame.bottom as i64;
        if left < i32::MIN as i64 || left > i32::MAX as i64 || right < i32::MIN as i64 || right
            > i32::MAX as i64 || top < i32::MIN as i64 || top > i32::MAX as i64 || bottom
            < i32::MIN as i64 || bottom > i32::MAX as i64 {
            None
        } else {
            Some(
                WindowBorderSize {
                    left: left as i32,
                    right: right as i32,
                    top: top as i32,
                    bottom: bottom as i32,
                },
            )
        }
    }
}

/// The display scaling of a monitor, per axis.
#[derive(Clone, Copy, Debug, PartialEq, Eq, Structural)]
pub struct DpiInfo {
    pub x: u32,
    pub y: u32,
}

/// A monitor: its work area (the usable part, without task bars), its platform
/// handle and its scaling.
///
/// The handle is what identifies a monitor across two queries.
#[derive(Clone, Copy, Debug, PartialEq, Eq, Structural)]
pub struct MonitorInfo {
    pub width: i32,
    pub height: i32,
    pub x_offset: i32,
    pub y_offset: i32,
    pub platform_specific_handle: isize,
    pub dpi: DpiInfo,
}

impl MonitorInfo {
    /// A work area that can be scaled from and whose far edges are coordinates.
    pub open spec fn wf(self) -> bool {
        &&& self.width > 0
        &&& self.height > 0
        &&& fits_i32(self.x_offset + self.width)
        &&& fits_i32(self.y_offset + self.height)
    }

    pub fn is_valid(&self) -> (r: bool)
        ensures
            r == self.wf(),
    {
        self.width > 0 && self.height > 0 && self.x_offset as i64 + self.width as i64
            <= i32::MAX as i64 && self.y_offset as i64 + self.height as i64 <= i32::MAX as i64
    }

    /// The monitor whose work area is `area`, or `None` where its width or height
    /// leaves `i32`.
    pub fn from_work_area(area: &Rect, platform_specific_handle: isize, dpi: DpiInfo) -> (r:
        Option<MonitorInfo>)
        ensures
            r is Some <==> fits_i32(area.spec_width()) && fits_i32(area.spec_height()),
            r matches Some(m) ==> {
                &&& m.x_offset == area.left
                &&& m.y_offset == area.top
                &&& m.width == area.spec_width()
                &&& m.height == area.spec_height()
                &&& m.platform_specific_handle == platform_specific_handle
                &&& m.dpi == dpi
            },
    {
        let width = area.right as i64 - area.left as i64;
        let height = area.bottom as i64 - area.top as i64;
        if width < i32::MIN as i64 || width > i32::MAX as i64 || height < i32::MIN as i64
            || height > i32::MAX as i64 {
            None
        } else {
            Some(
                MonitorInfo {
                    width: width as i32,
                    height: height as i32,
                    x_offset: area.left,
                    y_offset: area.top,
                    platform_specific_handle,
                    dpi,
                },
            )
        }
    }

    /// The work area as a rectangle.
    pub fn work_area(&self) -> (r: Rect)
        requires
            fits_i32(self.x_offset + self.width),
            fits_i32(self.y_offset + self.height),
        ensures
            r.left == self.x_offset,
            r.top == self.y_offset,
            r.right == self.x_offset + self.width,
            r.bottom == self.y_offset + self.height,
    {
        Rect {
            left: self.x_offset,
            top: self.y_offset,
            right: self.x_offset + self.width,
            bottom: self.y_offset + self.height,
        }
    }
}

/// A window, known by its platform handle.
#[derive(Clone, Copy, Debug, PartialEq, Eq, Structural)]
pub struct SelectedWindow {
    pub platform_specific_handle: isize,
}

} // verus!
