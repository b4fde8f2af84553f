//! Where the meter window sits on the Windows taskbar.
//!
//! Pixel margins are scaled by the display's scale factor before they reach
//! this module; the placement itself is integer arithmetic.

use vstd::prelude::*;
use crate::config::MeterAnchor;

verus! {

/// The meter's width in logical pixels.
pub const DEFAULT_METER_WIDTH: u32 = 140;

/// The meter's height in logical pixels.
pub const DEFAULT_METER_HEIGHT: u32 = 48;

/// The gap between the meter and the taskbar's end, in logical pixels.
pub const TASKBAR_MARGIN: i32 = 12;

/// The gap kept below the top of a horizontal taskbar, in logical pixels.
pub const TASKBAR_TOP_SAFE_MARGIN: i32 = 2;

/// How much of the meter stays visible past a horizontal taskbar's edge,
/// in logical pixels.
pub const TASKBAR_EDGE_VISIBLE_MARGIN: i32 = 6;

/// The least gap kept to the taskbar's sides, in logical pixels (at least
/// one physical pixel once scaled).
pub const TASKBAR_EDGE_CLAMP_MARGIN: i32 = 2;

/// The taskbar's rectangle in screen pixels.
#[derive(Clone, Copy, PartialEq, Eq, Structural, Debug)]
pub struct TaskbarRect {
    pub left: i32,
    pub top: i32,
    pub right: i32,
    pub bottom: i32,
}

/// The margins and the user's offsets, scaled to physical pixels.
#[derive(Clone, Copy, PartialEq, Eq, Structural, Debug)]
pub struct ScaledMargins {
    /// `TASKBAR_MARGIN`, scaled.
    pub taskbar: i32,
    /// `TASKBAR_TOP_SAFE_MARGIN`, scaled.
    pub top_safe: i32,
    /// `TASKBAR_EDGE_VISIBLE_MARGIN`, scaled.
    pub edge_visible: i32,
    /// `TASKBAR_EDGE_CLAMP_MARGIN`, scaled (before raising it to 1).
    pub edge_clamp: i32,
    /// The left offset minus the right one, scaled.
    pub offset_x: i32,
    /// The top offset minus the bottom one, scaled.
    pub offset_y: i32,
}

/// Whether an integer fits in `i32`.
pub open spec fn fits_i32(x: int) -> bool {
    i32::MIN <= x <= i32::MAX
}

/// `x / 2` rounded toward zero, as `i32` division does.
pub open spec fn half(x: int) -> int {
    if x >= 0 {
        x / 2
    } else {
        -((-x) / 2)
    }
}

/// `v.max(lo).min(hi.max(lo))`: `v` held between `lo` and the larger of
/// `lo` and `hi`.
pub open spec fn clamp_between(v: int, lo: int, hi: int) -> int {
    let top = if hi >= lo {
        hi
    } else {
        lo
    };
    if v < lo {
        lo
    } else if v > top {
        top
    } else {
        v
    }
}

/// Whether the taskbar is horizontal: at least as wide as it is tall.
pub open spec fn is_horizontal(r: TaskbarRect) -> bool {
    r.right - r.left >= r.bottom - r.top
}

/// The side gap actually kept: the scaled clamp margin, at least 1.
pub open spec fn clamp_margin(m: ScaledMargins) -> int {
    if m.edge_clamp >= 1 {
        m.edge_clamp as int
    } else {
        1
    }
}

/// Where the meter sits before the user's offsets: along a horizontal
/// taskbar at its left end, centre or right end (below the top gap);
/// along a vertical one centred across it, at its top, middle or bottom.
pub open spec fn base_position(r: TaskbarRect, anchor: MeterAnchor, w: int, h: int, m: ScaledMargins) -> (
    int,
    int,
) {
    let tw = r.right - r.left;
    let th = r.bottom - r.top;
    if is_horizontal(r) {
        let x = match anchor {
            MeterAnchor::Left => r.left + m.taskbar,
            MeterAnchor::Center => r.left + half(tw - w),
            MeterAnchor::Right => r.right - w - m.taskbar,
        };
        (x, r.top + m.top_safe)
    } else {
        let y = match anchor {
            MeterAnchor::Left => r.top + m.taskbar,
            MeterAnchor::Center => r.top + half(th - h),
            MeterAnchor::Right => r.bottom - h - m.taskbar,
        };
        (r.left + half(tw - w), y)
    }
}

/// The bounds the meter is held in: across the taskbar with the side gap;
/// along a horizontal taskbar so that part of the meter stays visible past
/// each edge, along a vertical one inside it with the side gap.
pub open spec fn position_bounds(r: TaskbarRect, w: int, h: int, m: ScaledMargins) -> (
    int,
    int,
    int,
    int,
) {
    let g = clamp_margin(m);
    if is_horizontal(r) {
        (r.left + g, r.right - w - g, r.top - h + m.edge_visible, r.bottom - m.edge_visible)
    } else {
        (r.left + g, r.right - w - g, r.top + g, r.bottom - h - g)
    }
}

/// The meter's screen position: its anchored position moved by the user's
/// offsets and held within the bounds.
pub open spec fn meter_position_view(
    r: TaskbarRect,
    anchor: MeterAnchor,
    w: int,
    h: int,
    m: ScaledMargins,
) -> (int, int) {
    let (bx, by) = base_position(r, anchor, w, h, m);
    let (min_x, max_x, min_y, max_y) = position_bounds(r, w, h, m);
    (clamp_between(bx + m.offset_x, min_x, max_x), clamp_between(by + m.offset_y, min_y, max_y))
}

/// Whether every step of the placement stays within `i32`, as the `i32`
/// arithmetic that computes it needs.
pub open spec fn placement_fits(
    r: TaskbarRect,
    anchor: MeterAnchor,
    w: int,
    h: int,
    m: ScaledMargins,
) -> bool {
    let tw = r.right - r.left;
    let th = r.bottom - r.top;
    let g = clamp_margin(m);
    let (bx, by) = base_position(r, anchor, w, h, m);
    &&& fits_i32(tw)
    &&& fits_i32(th)
    &&& if is_horizontal(r) {
        &&& match anchor {
            MeterAnchor::Left => fits_i32(r.left + m.taskbar),
            MeterAnchor::Center => fits_i32(tw - w) && fits_i32(r.left + half(tw - w)),
            MeterAnchor::Right => fits_i32(r.right - w) && fits_i32(r.right - w - m.taskbar),
        }
        &&& fits_i32(r.top + m.top_safe)
        &&& fits_i32(r.top - h) && fits_i32(r.top - h + m.edge_visible)
        &&& fits_i32(r.bottom - m.edge_visible)
    } else {
        &&& fits_i32(tw - w) && fits_i32(r.left + half(tw - w))
        &&& match anchor {
            MeterAnchor::Left => fits_i32(r.top + m.taskbar),
            MeterAnchor::Center => fits_i32(th - h) && fits_i32(r.top + half(th - h)),
            MeterAnchor::Right => fits_i32(r.bottom - h) && fits_i32(r.bottom - h - m.taskbar),
        }
        &&& fits_i32(r.top + g)
        &&& fits_i32(r.bottom - h) && fits_i32(r.bottom - h - g)
    }
    &&& fits_i32(bx + m.offset_x)
    &&& fits_i32(by + m.offset_y)
    &&& fits_i32(r.left + g)
    &&& fits_i32(r.right - w) && fits_i32(r.right - w - g)
}

fn half_i64(x: i64) -> (r: i64)
    requires
        x > i64::MIN,
    ensures
        r == half(x as int),
{
    if x >= 0 {
        x / 2
    } else {
        -((-x) / 2)
    }
}

fn clamp_i64(v: i64, lo: i64, hi: i64) -> (r: i64)
    ensures
        r == clamp_between(v as int, lo as int, hi as int),
{
    let top = if hi >= lo {
        hi
    } else {
        lo
    };
    if v < lo {
        lo
    } else if v > top {
        top
    } else {
        v
    }
}

/// The meter's screen position on the taskbar (see `meter_position_view`).
pub fn calculate_meter_position(
    rect: TaskbarRect,
    anchor: MeterAnchor,
    meter_width: i32,
    meter_height: i32,
    margins: ScaledMargins,
) -> (r: (i32, i32))
    requires
        placement_fits(rect, anchor, meter_width as int, meter_height as int, margins),
    ensures
        (r.0 as int, r.1 as int) == meter_position_view(
            rect,
            anchor,
            meter_width as int,
            meter_height as int,
            margins,
        ),
{
    let left = rect.left as i64;
    let top = rect.top as i64;
    let right = rect.right as i64;
    let bottom = rect.bottom as i64;
    let w = meter_width as i64;
    let h = meter_height as i64;
    let tw = right - left;
    let th = bottom - top;
    let horizontal = tw >= th;
    let g: i64 = if margins.edge_clamp >= 1 {
        margins.edge_clamp as i64
    } else {
        1
    };
    let (base_x, base_y) = if horizontal {
        let x = match anchor {
            MeterAnchor::Left => left + margins.taskbar as i64,
            MeterAnchor::Center => left + half_i64(tw - w),
            MeterAnchor::Right => right - w - margins.taskbar as i64,
        };
        (x, top + margins.top_safe as i64)
    } else {
        let y = match anchor {
            MeterAnchor::Left => top + margins.taskbar as i64,
            MeterAnchor::Center => top + half_i64(th - h),
            MeterAnchor::Right => bottom - h - margins.taskbar as i64,
        };
        (left + half_i64(tw - w), y)
    };
    let adjusted_x = base_x + margins.offset_x as i64;
    let adjusted_y = base_y + margins.offset_y as i64;
    let min_x = left + g;
    let max_x = right - w - g;
    let (min_y, max_y) = if horizontal {
        (top - h + margins.edge_visible as i64, bottom - margins.edge_visible as i64)
    } else {
        (top + g, bottom - h - g)
    };
    let x = clamp_i64(adjusted_x, min_x, max_x);
    let y = clamp_i64(adjusted_y, min_y, max_y);
    (x as i32, y as i32)
}

fn fits_i32_exec(x: i64) -> (r: bool)
    ensures
        r == fits_i32(x as int),
{
    -2147483648 <= x && x <= 2147483647
}

/// Whether every step of the placement stays within `i32` (see
/// `placement_fits`), which `calculate_meter_position` needs.
pub fn placement_in_range(
    rect: TaskbarRect,
    anchor: MeterAnchor,
    meter_width: i32,
    meter_height: i32,
    margins: ScaledMargins,
) -> (r: bool)
    ensures
        r == placement_fits(rect, anchor, meter_width as int, meter_height as int, margins),
{
    let left = rect.left as i64;
    let top = rect.top as i64;
    let right = rect.right as i64;
    let bottom = rect.bottom as i64;
    let w = meter_width as i64;
    let h = meter_height as i64;
    let tw = right - left;
    let th = bottom - top;
    let g: i64 = if margins.edge_clamp >= 1 {
        margins.edge_clamp as i64
    } else {
        1
    };
    let taskbar = margins.taskbar as i64;
    let (branch_ok, base_x, base_y) = if tw >= th {
        let (x_ok, x) = match anchor {
            MeterAnchor::Left => (fits_i32_exec(left + taskbar), left + taskbar),
            MeterAnchor::Center => (
                fits_i32_exec(tw - w) && fits_i32_exec(left + half_i64(tw - w)),
                left + half_i64(tw - w),
            ),
            MeterAnchor::Right => (
                fits_i32_exec(right - w) && fits_i32_exec(right - w - taskbar),
                right - w - taskbar,
            ),
        };
        let y = top + margins.top_safe as i64;
        let ok = x_ok && fits_i32_exec(y) && fits_i32_exec(top - h) && fits_i32_exec(
            top - h + margins.edge_visible as i64,
        ) && fits_i32_exec(bottom - margins.edge_visible as i64);
        (ok, x, y)
    } else {
        let x = left + half_i64(tw - w);
        let (y_ok, y) = match anchor {
            MeterAnchor::Left => (fits_i32_exec(top + taskbar), top + taskbar),
            MeterAnchor::Center => (
                fits_i32_exec(th - h) && fits_i32_exec(top + half_i64(th - h)),
                top + half_i64(th - h),
            ),
            MeterAnchor::Right => (
                fits_i32_exec(bottom - h) && fits_i32_exec(bottom - h - taskbar),
                bottom - h - taskbar,
            ),
        };
        let ok = fits_i32_exec(tw - w) && fits_i32_exec(x) && y_ok && fits_i32_exec(top + g)
            && fits_i32_exec(bottom - h) && fits_i32_exec(bottom - h - g);
        (ok, x, y)
    };
    fits_i32_exec(tw) && fits_i32_exec(th) && branch_ok && fits_i32_exec(
        base_x + margins.offset_x as i64,
    ) && fits_i32_exec(base_y + margins.offset_y as i64) && fits_i32_exec(left + g)
        && fits_i32_exec(right - w) && fits_i32_exec(right - w - g)
}

/// Whether the meter's position relative to the taskbar's client area can
/// be computed within `i32`, which `calculate_meter_child_position` needs.
pub fn child_position_fits(
    rect: TaskbarRect,
    anchor: MeterAnchor,
    meter_width: i32,
    meter_height: i32,
    margins: ScaledMargins,
    parent_origin: (i32, i32),
) -> (r: bool)
    ensures
        r == (placement_fits(rect, anchor, meter_width as int, meter_height as int, margins)
            && fits_i32(
            meter_position_view(rect, anchor, meter_width as int, meter_height as int, margins).0
                - parent_origin.0,
        ) && fits_i32(
            meter_position_view(rect, anchor, meter_width as int, meter_height as int, margins).1
                - parent_origin.1,
        )),
{
    if !placement_in_range(rect, anchor, meter_width, meter_height, margins) {
        return false;
    }
    let (x, y) = calculate_meter_position(rect, anchor, meter_width, meter_height, margins);
    fits_i32_exec(x as i64 - parent_origin.0 as i64) && fits_i32_exec(
        y as i64 - parent_origin.1 as i64,
    )
}

/// The meter's position relative to the taskbar's client area, whose
/// origin is at `parent_origin` on the screen.
pub open spec fn child_position_view(
    r: TaskbarRect,
    anchor: MeterAnchor,
    w: int,
    h: int,
    m: ScaledMargins,
    parent_origin: (i32, i32),
) -> (int, int) {
    let (x, y) = meter_position_view(r, anchor, w, h, m);
    (x - parent_origin.0, y - parent_origin.1)
}

/// The meter's position relative to the taskbar's client area (see
/// `child_position_view`).
pub fn calculate_meter_child_position(
    rect: TaskbarRect,
    anchor: MeterAnchor,
    meter_width: i32,
    meter_height: i32,
    margins: ScaledMargins,
    parent_origin: (i32, i32),
) -> (r: (i32, i32))
    requires
        placement_fits(rect, anchor, meter_width as int, meter_height as int, margins),
        fits_i32(
            meter_position_view(rect, anchor, meter_width as int, meter_height as int, margins).0
                - parent_origin.0,
        ),
        fits_i32(
            meter_position_view(rect, anchor, meter_width as int, meter_height as int, margins).1
                - parent_origin.1,
        ),
    ensures
        (r.0 as int, r.1 as int) == child_position_view(
            rect,
            anchor,
            meter_width as int,
            meter_height as int,
            margins,
            parent_origin,
        ),
{
    let (x, y) = calculate_meter_position(rect, anchor, meter_width, meter_height, margins);
    (x - parent_origin.0, y - parent_origin.1)
}

/// A meter placed on a horizontal taskbar ends up inside its horizontal
/// bounds whenever those bounds leave room for it.
pub proof fn law_meter_stays_within_bounds(
    r: TaskbarRect,
    anchor: MeterAnchor,
    w: int,
    h: int,
    m: ScaledMargins,
)
    ensures
        ({
            let (min_x, max_x, min_y, max_y) = position_bounds(r, w, h, m);
            let (x, y) = meter_position_view(r, anchor, w, h, m);
            &&& min_x <= max_x ==> min_x <= x <= max_x
            &&& min_y <= max_y ==> min_y <= y <= max_y
            &&& min_x <= x
            &&& min_y <= y
        }),
{
}

// ------------------------------------------------------------------------
// Window class names
// ------------------------------------------------------------------------

/// The UTF-16 code units of one character.
pub open spec fn utf16_units(c: char) -> Seq<u16> {
    let n = c as u32;
    if n < 0x10000 {
        seq![n as u16]
    } else {
        let v = n - 0x10000;
        seq![(0xD800 + v / 0x400) as u16, (0xDC00 + v % 0x400) as u16]
    }
}

/// The UTF-16 form of a text (`str::encode_utf16`).
pub open spec fn utf16_of(s: Seq<char>) -> Seq<u16>
    decreases s.len(),
{
    if s.len() == 0 {
        Seq::empty()
    } else {
        utf16_of(s.drop_last()) + utf16_units(s.last())
    }
}

/// A text as a NUL-terminated UTF-16 string, as Windows APIs take it.
pub fn wide_null(value: &str) -> (r: Vec<u16>)
    ensures
        r@ == utf16_of(value@).push(0u16),
{
    let chars = crate::text::chars_of(value);
    let mut out: Vec<u16> = Vec::new();
    let mut i: usize = 0;
    assert(chars@.take(0) =~= Seq::<char>::empty());
    while i < chars.len()
        invariant
            chars@ == value@,
            i <= chars@.len(),
            out@ == utf16_of(chars@.take(i as int)),
        decreases chars@.len() - i,
    {
        let c = chars[i];
        let n = c as u32;
        let ghost before = out@;
        assert(chars@.take(i + 1).drop_last() =~= chars@.take(i as int));
        assert(chars@.take(i + 1).last() == c);
        if n < 0x10000 {
            out.push(n as u16);
            assert(out@ =~= before + utf16_units(c));
        } else {
            let v = n - 0x10000;
            out.push((0xD800 + v / 0x400) as u16);
            out.push((0xDC00 + v % 0x400) as u16);
            assert(out@ =~= before + utf16_units(c));
        }
        i = i + 1;
    }
    assert(chars@.take(chars@.len() as int) =~= chars@);
    out.push(0u16);
    out
}

// ------------------------------------------------------------------------
// Window styles of the embedded meter
// ------------------------------------------------------------------------

/// The frame styles an embedded meter drops: `WS_POPUP`, `WS_CAPTION`,
/// `WS_THICKFRAME`, `WS_BORDER`, `WS_DLGFRAME` and `WS_SYSMENU`.
pub const FRAME_STYLE_BITS: u32 = 0x80CC_0000u32;

/// The styles an embedded meter takes: `WS_CHILD`, `WS_VISIBLE` and
/// `WS_CLIPSIBLINGS`.
pub const CHILD_STYLE_BITS: u32 = 0x5400_0000u32;

/// The extended styles an embedded meter drops: `WS_EX_APPWINDOW`,
/// `WS_EX_CLIENTEDGE`, `WS_EX_WINDOWEDGE` and `WS_EX_STATICEDGE`.
pub const EDGE_EX_STYLE_BITS: u32 = 0x0006_0300u32;

/// The extended styles an embedded meter takes: `WS_EX_TOOLWINDOW` and
/// `WS_EX_NOACTIVATE`.
pub const CHILD_EX_STYLE_BITS: u32 = 0x0800_0080u32;

/// The window style of the meter once it is a child of the taskbar: its
/// style without the frame styles, with the child styles.
pub fn child_style(style: u32) -> (r: u32)
    ensures
        r == (style & !FRAME_STYLE_BITS) | CHILD_STYLE_BITS,
        r & FRAME_STYLE_BITS == 0,
        r & CHILD_STYLE_BITS == CHILD_STYLE_BITS,
{
    let r = (style & !FRAME_STYLE_BITS) | CHILD_STYLE_BITS;
    assert(r & 0x80CC_0000u32 == 0 && r & 0x5400_0000u32 == 0x5400_0000u32) by (bit_vector)
        requires
            r == (style & !0x80CC_0000u32) | 0x5400_0000u32,
    ;
    r
}

/// The extended window style of the meter once it is a child of the
/// taskbar: without the edge styles, with the tool-window and
/// no-activate styles.
pub fn child_ex_style(ex_style: u32) -> (r: u32)
    ensures
        r == (ex_style & !EDGE_EX_STYLE_BITS) | CHILD_EX_STYLE_BITS,
        r & EDGE_EX_STYLE_BITS == 0,
        r & CHILD_EX_STYLE_BITS == CHILD_EX_STYLE_BITS,
{
    let r = (ex_style & !EDGE_EX_STYLE_BITS) | CHILD_EX_STYLE_BITS;
    assert(r & 0x0006_0300u32 == 0 && r & 0x0800_0080u32 == 0x0800_0080u32) by (bit_vector)
        requires
            r == (ex_style & !0x0006_0300u32) | 0x0800_0080u32,
    ;
    r
}

} // verus!
