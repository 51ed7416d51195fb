//! The page editor: one page on the whole screen, with the crop tool.
//!
//! The crop rectangle is kept in pixels of the full image. A place of the
//! terminal comes in as the pixel it stands for.

use vstd::prelude::*;

use crate::backend::pdf::CropRect;
use crate::text;
use crate::text::{cat, cat3, cat5, u64_text};
use crate::tui::input::{Key, KeyCode, Mouse, MouseKind, Rect};

verus! {

/// A rectangle in pixels of the full image.
pub type ImageRect = CropRect;

// ------------------------------------------------------------------ geometry

/// A rectangle of at least one pixel, inside an image of the given size.
pub open spec fn rect_in(r: ImageRect, max: (u32, u32)) -> bool {
    r.w >= 1 && r.h >= 1 && r.x + r.w <= max.0 && r.y + r.h <= max.1
}

/// Whether a rectangle of at least one pixel lies inside an image.
pub fn fits(r: ImageRect, max: (u32, u32)) -> (b: bool)
    ensures
        b == rect_in(r, max),
{
    r.w >= 1 && r.h >= 1 && r.x as u64 + r.w as u64 <= max.0 as u64 && r.y as u64 + r.h as u64
        <= max.1 as u64
}

/// `v`, held between two bounds.
pub open spec fn between(v: int, lo: int, hi: int) -> int {
    if v < lo {
        lo
    } else if v > hi {
        hi
    } else {
        v
    }
}

pub open spec fn smaller(a: int, b: int) -> int {
    if a <= b {
        a
    } else {
        b
    }
}

pub open spec fn larger(a: int, b: int) -> int {
    if a >= b {
        a
    } else {
        b
    }
}

/// A coordinate held inside a length.
pub open spec fn held(v: u32, m: u32) -> int {
    smaller(
        v as int,
        if m > 0 {
            m - 1
        } else {
            0
        },
    )
}

fn hold(v: u32, m: u32) -> (r: u32)
    ensures
        r == held(v, m),
{
    let top: u32 = if m > 0 {
        m - 1
    } else {
        0
    };
    if v <= top {
        v
    } else {
        top
    }
}

fn clamp(v: i64, lo: i64, hi: i64) -> (r: i64)
    ensures
        r == between(v as int, lo as int, hi as int),
{
    if v < lo {
        lo
    } else if v > hi {
        hi
    } else {
        v
    }
}

/// The rectangle between two corners, both held inside the image.
pub open spec fn spanned(a: (u32, u32), b: (u32, u32), max: (u32, u32)) -> ImageRect {
    let left = smaller(held(a.0, max.0), held(b.0, max.0));
    let right = larger(held(a.0, max.0), held(b.0, max.0));
    let top = smaller(held(a.1, max.1), held(b.1, max.1));
    let bottom = larger(held(a.1, max.1), held(b.1, max.1));
    CropRect {
        x: left as u32,
        y: top as u32,
        w: (right - left + 1) as u32,
        h: (bottom - top + 1) as u32,
    }
}

/// The rectangle between two corners, of at least one pixel and inside the
/// image.
pub fn normalize_rect(a: (u32, u32), b: (u32, u32), max: (u32, u32)) -> (r: ImageRect)
    ensures
        r == spanned(a, b, max),
        max.0 > 0 && max.1 > 0 ==> rect_in(r, max),
{
    let x0: u32 = hold(a.0, max.0);
    let y0: u32 = hold(a.1, max.1);
    let x1: u32 = hold(b.0, max.0);
    let y1: u32 = hold(b.1, max.1);
    let (left, right) = if x0 <= x1 {
        (x0, x1)
    } else {
        (x1, x0)
    };
    let (top, bottom) = if y0 <= y1 {
        (y0, y1)
    } else {
        (y1, y0)
    };
    CropRect { x: left, y: top, w: right - left + 1, h: bottom - top + 1 }
}

/// A rectangle moved by some pixels, held inside the image.
pub open spec fn moved(r: ImageRect, dx: int, dy: int, max: (u32, u32)) -> ImageRect {
    CropRect {
        x: between(r.x + dx, 0, max.0 - r.w) as u32,
        y: between(r.y + dy, 0, max.1 - r.h) as u32,
        ..r
    }
}

/// A rectangle moved by some pixels, held inside the image.
pub fn move_rect(rect: ImageRect, dx: i64, dy: i64, max: (u32, u32)) -> (r: ImageRect)
    requires
        rect.w <= max.0,
        rect.h <= max.1,
        i64::MIN <= rect.x + dx <= i64::MAX,
        i64::MIN <= rect.y + dy <= i64::MAX,
    ensures
        r == moved(rect, dx as int, dy as int, max),
        rect_in(rect, max) ==> rect_in(r, max),
{
    let x: i64 = clamp(rect.x as i64 + dx, 0, (max.0 - rect.w) as i64);
    let y: i64 = clamp(rect.y as i64 + dy, 0, (max.1 - rect.h) as i64);
    CropRect { x: x as u32, y: y as u32, w: rect.w, h: rect.h }
}

/// An edge of a rectangle.
#[derive(Debug, Clone, Copy, PartialEq, Eq, Structural)]
pub enum Edge {
    Left,
    Right,
    Top,
    Bottom,
}

/// A rectangle with one edge moved outward by some pixels, or inward where
/// the amount is negative. The opposite edge stays; at least one pixel is
/// left, and the rectangle stays inside the image.
pub open spec fn extended(r: ImageRect, edge: Edge, amount: int, max: (u32, u32)) -> ImageRect {
    match edge {
        Edge::Left => {
            let right = r.x + r.w - 1;
            let left = between(r.x - amount, 0, right);
            CropRect { x: left as u32, w: (right - left + 1) as u32, ..r }
        },
        Edge::Right => CropRect { w: between(r.w + amount, 1, max.0 - r.x) as u32, ..r },
        Edge::Top => {
            let bottom = r.y + r.h - 1;
            let top = between(r.y - amount, 0, bottom);
            CropRect { y: top as u32, h: (bottom - top + 1) as u32, ..r }
        },
        Edge::Bottom => CropRect { h: between(r.h + amount, 1, max.1 - r.y) as u32, ..r },
    }
}

/// A rectangle with one edge moved outward by some pixels, or inward where
/// the amount is negative.
pub fn extend_rect(rect: ImageRect, edge: Edge, amount: i64, max: (u32, u32)) -> (r: ImageRect)
    requires
        match edge {
            Edge::Left => 1 <= rect.x + rect.w <= u32::MAX && i64::MIN <= rect.x - amount
                <= i64::MAX,
            Edge::Right => rect.x < max.0 && i64::MIN <= rect.w + amount <= i64::MAX,
            Edge::Top => 1 <= rect.y + rect.h <= u32::MAX && i64::MIN <= rect.y - amount
                <= i64::MAX,
            Edge::Bottom => rect.y < max.1 && i64::MIN <= rect.h + amount <= i64::MAX,
        },
    ensures
        r == extended(rect, edge, amount as int, max),
        rect_in(rect, max) ==> rect_in(r, max),
{
    match edge {
        Edge::Left => {
            let right: i64 = rect.x as i64 + rect.w as i64 - 1;
            let left: i64 = clamp(rect.x as i64 - amount, 0, right);
            CropRect { x: left as u32, y: rect.y, w: (right - left + 1) as u32, h: rect.h }
        },
        Edge::Right => {
            let w: i64 = clamp(rect.w as i64 + amount, 1, (max.0 - rect.x) as i64);
            CropRect { x: rect.x, y: rect.y, w: w as u32, h: rect.h }
        },
        Edge::Top => {
            let bottom: i64 = rect.y as i64 + rect.h as i64 - 1;
            let top: i64 = clamp(rect.y as i64 - amount, 0, bottom);
            CropRect { x: rect.x, y: top as u32, w: rect.w, h: (bottom - top + 1) as u32 }
        },
        Edge::Bottom => {
            let h: i64 = clamp(rect.h as i64 + amount, 1, (max.1 - rect.y) as i64);
            CropRect { x: rect.x, y: rect.y, w: rect.w, h: h as u32 }
        },
    }
}

/// Which edges of a rectangle: left, top, right, bottom.
pub type Edges = (bool, bool, bool, bool);

/// One side of a rectangle, given as its first and last pixel, with the
/// edges that follow the cursor.
pub open spec fn dragged_span(
    first: int,
    last: int,
    cursor: int,
    move_first: bool,
    move_last: bool,
) -> (int, int) {
    let a = if move_first {
        smaller(cursor, last)
    } else {
        first
    };
    let b = if move_last {
        larger(cursor, a)
    } else {
        larger(last, a)
    };
    (a, b)
}

/// The last pixel of a side that begins at `x` and has `w` pixels.
pub open spec fn last_px(x: u32, w: u32) -> int {
    if w > 0 {
        x + w - 1
    } else {
        x as int
    }
}

/// A rectangle some of whose edges follow the cursor. The other edges stay;
/// at least one pixel is left.
pub open spec fn dragged(r: ImageRect, p: (u32, u32), edges: Edges, max: (u32, u32)) -> ImageRect {
    let h = dragged_span(r.x as int, last_px(r.x, r.w), held(p.0, max.0), edges.0, edges.2);
    let v = dragged_span(r.y as int, last_px(r.y, r.h), held(p.1, max.1), edges.1, edges.3);
    CropRect {
        x: h.0 as u32,
        y: v.0 as u32,
        w: (h.1 - h.0 + 1) as u32,
        h: (v.1 - v.0 + 1) as u32,
    }
}

/// The length of a side some of whose ends follow the cursor.
pub open spec fn span_len(x: u32, w: u32, p: u32, max: u32, move_first: bool, move_last: bool) -> int {
    let s = dragged_span(x as int, last_px(x, w), held(p, max), move_first, move_last);
    s.1 - s.0 + 1
}

fn drag_span(first: u32, last: u32, cursor: u32, move_first: bool, move_last: bool) -> (r: (
    u32,
    u32,
))
    ensures
        (r.0 as int, r.1 as int) == dragged_span(
            first as int,
            last as int,
            cursor as int,
            move_first,
            move_last,
        ),
        r.0 <= r.1,
        r.1 <= last || r.1 <= cursor || r.1 <= first,
{
    let a: u32 = if move_first {
        if cursor <= last {
            cursor
        } else {
            last
        }
    } else {
        first
    };
    let b: u32 = if move_last {
        if cursor >= a {
            cursor
        } else {
            a
        }
    } else {
        if last >= a {
            last
        } else {
            a
        }
    };
    (a, b)
}

/// A rectangle some of whose edges follow the cursor.
pub fn drag_resize(rect: ImageRect, p: (u32, u32), edges: Edges, max: (u32, u32)) -> (r: ImageRect)
    requires
        last_px(rect.x, rect.w) <= u32::MAX,
        last_px(rect.y, rect.h) <= u32::MAX,
        span_len(rect.x, rect.w, p.0, max.0, edges.0, edges.2) <= u32::MAX,
        span_len(rect.y, rect.h, p.1, max.1, edges.1, edges.3) <= u32::MAX,
    ensures
        r == dragged(rect, p, edges, max),
        rect_in(rect, max) ==> rect_in(r, max),
{
    let cx: u32 = hold(p.0, max.0);
    let cy: u32 = hold(p.1, max.1);
    let x2: u32 = if rect.w > 0 {
        rect.x + (rect.w - 1)
    } else {
        rect.x
    };
    let y2: u32 = if rect.h > 0 {
        rect.y + (rect.h - 1)
    } else {
        rect.y
    };
    let (left, right) = drag_span(rect.x, x2, cx, edges.0, edges.2);
    let (top, bottom) = drag_span(rect.y, y2, cy, edges.1, edges.3);
    CropRect { x: left, y: top, w: right - left + 1, h: bottom - top + 1 }
}

/// What a drag of the mouse is doing.
#[derive(Debug, Clone, Copy, PartialEq, Eq)]
pub enum Drag {
    /// Drawing a new rectangle from a fixed corner.
    Draw { anchor: (u32, u32) },
    /// Moving the rectangle, which was grabbed at this distance from its
    /// corner.
    Move { grab_dx: i64, grab_dy: i64 },
    /// Moving some edges.
    Resize { left: bool, top: bool, right: bool, bottom: bool },
}

impl Drag {
    /// The edges that a drag moves, where it moves single edges.
    pub fn edges(self) -> (r: Edges)
        ensures
            r == (match self {
                Drag::Resize { left, top, right, bottom } => (left, top, right, bottom),
                _ => (false, false, false, false),
            }),
    {
        match self {
            Drag::Draw { .. } | Drag::Move { .. } => (false, false, false, false),
            Drag::Resize { left, top, right, bottom } => (left, top, right, bottom),
        }
    }
}

/// Whether a pixel lies in a rectangle.
pub open spec fn inside(r: ImageRect, p: (u32, u32)) -> bool {
    r.x <= p.0 <= last_px(r.x, r.w) && r.y <= p.1 <= last_px(r.y, r.h)
}

/// How many pixels from an edge still count as the edge, on a side of the
/// given length.
pub open spec fn band(tolerance: u32, side: u32) -> int {
    smaller(larger(tolerance as int, 1), larger(side as int, 1))
}

/// The edges of a rectangle that a pixel of it is on; two at a corner, none
/// in the middle.
pub open spec fn edges_at(r: ImageRect, p: (u32, u32), tolerance: u32) -> Edges {
    let bx = band(tolerance, r.w);
    let by_ = band(tolerance, r.h);
    (p.0 < r.x + bx, p.1 < r.y + by_, p.0 >= r.x + r.w - bx, p.1 >= r.y + r.h - by_)
}

/// The edges of a rectangle that a pixel is on, if it is on any.
pub open spec fn edges_hit(r: ImageRect, p: (u32, u32), tolerance: u32) -> Option<Edges> {
    let e = edges_at(r, p, tolerance);
    if inside(r, p) && (e.0 || e.1 || e.2 || e.3) {
        Some(e)
    } else {
        None
    }
}

/// The edges of a rectangle that a pixel is on, if it is on any.
pub fn hit_edges(rect: ImageRect, p: (u32, u32), tolerance: u32) -> (r: Option<Edges>)
    requires
        rect.x + rect.w <= u32::MAX,
        rect.y + rect.h <= u32::MAX,
    ensures
        r == edges_hit(rect, p, tolerance),
{
    if !is_inside(rect, p) {
        return None;
    }
    let bx: u64 = band_of(tolerance, rect.w);
    let by_: u64 = band_of(tolerance, rect.h);
    let px: u64 = p.0 as u64;
    let py: u64 = p.1 as u64;
    let l = px < rect.x as u64 + bx;
    let r = px + bx >= rect.x as u64 + rect.w as u64;
    let t = py < rect.y as u64 + by_;
    let b = py + by_ >= rect.y as u64 + rect.h as u64;
    if !(l || r || t || b) {
        return None;
    }
    Some((l, t, r, b))
}

fn band_of(tolerance: u32, side: u32) -> (r: u64)
    ensures
        r == band(tolerance, side),
{
    let a: u32 = if tolerance >= 1 {
        tolerance
    } else {
        1
    };
    let b: u32 = if side >= 1 {
        side
    } else {
        1
    };
    if a <= b {
        a as u64
    } else {
        b as u64
    }
}

/// Whether a pixel lies in a rectangle.
pub fn is_inside(r: ImageRect, p: (u32, u32)) -> (b: bool)
    ensures
        b == inside(r, p),
{
    let x2: u64 = if r.w > 0 {
        r.x as u64 + (r.w as u64 - 1)
    } else {
        r.x as u64
    };
    let y2: u64 = if r.h > 0 {
        r.y as u64 + (r.h as u64 - 1)
    } else {
        r.y as u64
    };
    r.x <= p.0 && p.0 as u64 <= x2 && r.y <= p.1 && p.1 as u64 <= y2
}

/// How far a key moves the rectangle: a fiftieth of the longer side of the
/// image, at least one pixel.
pub open spec fn step_of(orig: (u32, u32)) -> int {
    larger(larger(orig.0 as int, orig.1 as int) / 50, 1)
}

/// How far a key moves the rectangle.
pub fn key_step(orig: (u32, u32)) -> (r: u32)
    ensures
        r == step_of(orig),
{
    let long: u32 = if orig.0 >= orig.1 {
        orig.0
    } else {
        orig.1
    };
    let s: u32 = long / 50;
    if s >= 1 {
        s
    } else {
        1
    }
}

/// Growing an edge and shrinking it by the same amount leads back, wherever
/// the image's edge was not in the way.
pub proof fn law_extend_back(r: ImageRect, edge: Edge, amount: int, max: (u32, u32))
    requires
        rect_in(r, max),
        amount >= 0,
        match edge {
            Edge::Left => amount <= r.x,
            Edge::Right => r.x + r.w + amount <= max.0,
            Edge::Top => amount <= r.y,
            Edge::Bottom => r.y + r.h + amount <= max.1,
        },
    ensures
        extended(extended(r, edge, amount, max), edge, -amount, max) == r,
{
}

/// Moving one edge leaves the opposite edge and the other two where they are.
pub proof fn law_extend_keeps_other_edges(r: ImageRect, edge: Edge, amount: int, max: (u32, u32))
    requires
        rect_in(r, max),
    ensures
        ({
            let q = extended(r, edge, amount, max);
            &&& edge == Edge::Left ==> q.x + q.w == r.x + r.w
            &&& edge == Edge::Right ==> q.x == r.x
            &&& edge == Edge::Top ==> q.y + q.h == r.y + r.h
            &&& edge == Edge::Bottom ==> q.y == r.y
            &&& edge == Edge::Left || edge == Edge::Right ==> q.y == r.y && q.h == r.h
            &&& edge == Edge::Top || edge == Edge::Bottom ==> q.x == r.x && q.w == r.w
        }),
{
}

/// Dragging no edge leaves a rectangle as it is, and an edge that is not
/// dragged stays where it is, wherever the cursor goes.
pub proof fn law_drag_keeps_other_edges(
    r: ImageRect,
    p: (u32, u32),
    edges: Edges,
    max: (u32, u32),
)
    requires
        rect_in(r, max),
    ensures
        dragged(r, p, (false, false, false, false), max) == r,
        !edges.0 ==> dragged(r, p, edges, max).x == r.x,
        !edges.1 ==> dragged(r, p, edges, max).y == r.y,
        !edges.2 ==> dragged(r, p, edges, max).x + dragged(r, p, edges, max).w == r.x + r.w,
        !edges.3 ==> dragged(r, p, edges, max).y + dragged(r, p, edges, max).h == r.y + r.h,
{
}

/// A rectangle keeps its size when it is moved, and moving it by nothing
/// leaves it where it is.
pub proof fn law_move_keeps_size(r: ImageRect, dx: int, dy: int, max: (u32, u32))
    requires
        rect_in(r, max),
    ensures
        moved(r, dx, dy, max).w == r.w && moved(r, dx, dy, max).h == r.h,
        moved(r, 0, 0, max) == r,
{
}

/// The rectangle between two corners does not depend on which comes first,
/// and both corners, held inside the image, lie in it.
pub proof fn law_spanned(a: (u32, u32), b: (u32, u32), max: (u32, u32))
    ensures
        spanned(a, b, max) == spanned(b, a, max),
        inside(spanned(a, b, max), (held(a.0, max.0) as u32, held(a.1, max.1) as u32)),
        inside(spanned(a, b, max), (held(b.0, max.0) as u32, held(b.1, max.1) as u32)),
{
}

/// The four corner pixels of a rectangle are on two edges each, however small
/// the tolerance.
pub proof fn law_corners_are_edges(r: ImageRect, max: (u32, u32), tolerance: u32)
    requires
        rect_in(r, max),
    ensures
        ({
            let right = (r.x + r.w - 1) as u32;
            let bottom = (r.y + r.h - 1) as u32;
            &&& edges_hit(r, (r.x, r.y), tolerance) matches Some(e) && e.0 && e.1
            &&& edges_hit(r, (right, r.y), tolerance) matches Some(e) && e.2 && e.1
            &&& edges_hit(r, (r.x, bottom), tolerance) matches Some(e) && e.0 && e.3
            &&& edges_hit(r, (right, bottom), tolerance) matches Some(e) && e.2 && e.3
        }),
{
}

// --------------------------------------------------------------------- layout

/// Where the image is, for the current frame.
#[derive(Debug, Clone, Copy, PartialEq, Eq, Structural)]
pub struct EditorRects {
    /// The space that is offered to the image.
    pub area: Rect,
    /// The part of it that the image takes.
    pub image: Rect,
}

/// `a - b`, or zero.
pub open spec fn less(a: u16, b: int) -> int {
    if a >= b {
        a - b
    } else {
        0
    }
}

/// The space for the image: between the header and the footer, with a cell of
/// margin on each side.
pub open spec fn area_of(whole: Rect) -> Rect {
    Rect {
        x: (whole.x + 1) as u16,
        y: (whole.y + 2) as u16,
        width: less(whole.width, 2) as u16,
        height: larger(less(whole.height, 4), 1) as u16,
    }
}

/// The space for the image.
pub fn editor_area(whole: Rect) -> (r: Rect)
    requires
        whole.x < u16::MAX,
        whole.y < u16::MAX - 1,
    ensures
        r == area_of(whole),
        whole.width >= 2 && whole.height >= 5 ==> whole.covers(r),
{
    let width: u16 = if whole.width >= 2 {
        whole.width - 2
    } else {
        0
    };
    let height: u16 = if whole.height >= 5 {
        whole.height - 4
    } else {
        1
    };
    Rect { x: whole.x + 1, y: whole.y + 2, width, height }
}

/// The part of the space that an image of the given size takes.
pub fn image_rect(area: Rect, width: u16, height: u16) -> (r: Rect)
    ensures
        r == (Rect {
            x: area.x,
            y: area.y,
            width: smaller(width as int, area.width as int) as u16,
            height: smaller(height as int, area.height as int) as u16,
        }),
        area.covers(r),
{
    let w: u16 = if width <= area.width {
        width
    } else {
        area.width
    };
    let h: u16 = if height <= area.height {
        height
    } else {
        area.height
    };
    Rect { x: area.x, y: area.y, width: w, height: h }
}

/// The header of the editor. The share of the page comes in as text.
pub open spec fn header_of(
    ready: bool,
    label: Seq<char>,
    crop: Option<ImageRect>,
    percent: Seq<char>,
) -> Seq<char> {
    if !ready {
        " decoding image… "@
    } else {
        " editing page "@ + label + " "@ + (match crop {
            Some(r) => "· crop "@ + text::dec(r.w as nat) + "x"@ + text::dec(r.h as nat) + " px ("@
                + percent + "% of page)"@,
            None => ""@,
        })
    }
}

/// The header of the editor.
pub fn editor_header(ready: bool, label: &str, crop: Option<ImageRect>, percent: &str) -> (r:
    String)
    ensures
        r@ == header_of(ready, label@, crop, percent@),
{
    if !ready {
        return " decoding image… ".to_owned();
    }
    let tail = match crop {
        Some(rect) => {
            let size = cat5(
                "· crop ",
                u64_text(rect.w as u64).as_str(),
                "x",
                u64_text(rect.h as u64).as_str(),
                " px (",
            );
            cat3(size.as_str(), percent, "% of page)")
        },
        None => "".to_owned(),
    };
    cat(cat3(" editing page ", label, " ").as_str(), tail.as_str())
}

/// The footer of the editor.
pub fn editor_footer(cropping: bool) -> (r: &'static str)
    ensures
        r@ == (if cropping {
            " drag edge resize · inside move · outside redraw · hjkl move · Alt+hjkl shrink · HJKL grow · Enter apply · c done · Esc back "@
        } else {
            " c crop · drag to draw · Esc back "@
        }),
{
    if cropping {
        " drag edge resize · inside move · outside redraw · hjkl move · Alt+hjkl shrink · HJKL grow · Enter apply · c done · Esc back "
    } else {
        " c crop · drag to draw · Esc back "
    }
}

// ---------------------------------------------------------------------- state

/// The editor, while it is open.
#[derive(Debug, Clone, Copy, PartialEq, Eq)]
pub struct EditorState {
    pub page_id: u32,
    /// The crop rectangle; none while the tool is off.
    pub crop: Option<ImageRect>,
    pub drag: Option<Drag>,
    /// The next Esc discards the crop rectangle.
    pub esc_pending: bool,
}

/// The editor of a page, with the tool off.
pub open spec fn opened(page_id: u32) -> EditorState {
    EditorState { page_id, crop: None, drag: None, esc_pending: false }
}

/// What holds of the editor of an image of the given size: the crop rectangle
/// lies inside the image.
pub open spec fn editor_ok(s: EditorState, orig: (u32, u32)) -> bool {
    &&& s.crop matches Some(r) ==> rect_in(r, orig)
    &&& s.drag matches Some(d) ==> drag_ok(d)
}

/// A rectangle is grabbed at a distance that an image can have.
pub open spec fn drag_ok(d: Drag) -> bool {
    d matches Drag::Move { grab_dx, grab_dy } ==> -u32::MAX <= grab_dx <= u32::MAX && -u32::MAX
        <= grab_dy <= u32::MAX
}

/// What the world around the editor has to do.
#[derive(Debug, Clone, Copy, PartialEq, Eq)]
pub enum EditorReply {
    Nothing,
    /// Leave the program.
    Quit,
    /// Leave the editor.
    Close,
    /// Show the help.
    Help,
    /// Show the diagnostics.
    Diagnostics,
    /// Say that the next Esc discards the rectangle.
    AskDiscard,
    /// Say that the image is not there yet.
    StillDecoding,
    /// Say that there is no rectangle.
    NoCrop,
    /// Ask whether to cut the page down.
    Confirm(u32, ImageRect),
}

/// What is said for a reply.
pub open spec fn reply_text(r: EditorReply) -> Option<Seq<char>> {
    match r {
        EditorReply::AskDiscard => Some("discard crop? Esc again to discard, c to keep"@),
        EditorReply::StillDecoding => Some("image still decoding"@),
        EditorReply::NoCrop => Some("no crop rect - press c to start cropping"@),
        _ => None,
    }
}

/// The rectangle that the tool begins with: the middle of the image.
pub open spec fn middle(orig: (u32, u32)) -> ImageRect {
    let w = larger(orig.0 as int, 1);
    let h = larger(orig.1 as int, 1);
    CropRect {
        x: (w / 5) as u32,
        y: (h / 5) as u32,
        w: (w - 2 * (w / 5)) as u32,
        h: (h - 2 * (h / 5)) as u32,
    }
}

/// A direction in which the rectangle is nudged.
pub open spec fn nudged(r: ImageRect, c: char, shrink: bool, orig: (u32, u32)) -> ImageRect {
    let s = step_of(orig);
    if c == 'h' {
        if shrink {
            extended(r, Edge::Left, -s, orig)
        } else {
            moved(r, -s, 0, orig)
        }
    } else if c == 'l' {
        if shrink {
            extended(r, Edge::Right, -s, orig)
        } else {
            moved(r, s, 0, orig)
        }
    } else if c == 'j' {
        if shrink {
            extended(r, Edge::Bottom, -s, orig)
        } else {
            moved(r, 0, s, orig)
        }
    } else if c == 'k' {
        if shrink {
            extended(r, Edge::Top, -s, orig)
        } else {
            moved(r, 0, -s, orig)
        }
    } else if c == 'H' {
        extended(r, Edge::Left, s, orig)
    } else if c == 'J' {
        extended(r, Edge::Bottom, s, orig)
    } else if c == 'K' {
        extended(r, Edge::Top, s, orig)
    } else if c == 'L' {
        extended(r, Edge::Right, s, orig)
    } else {
        r
    }
}

/// The editor after the rectangle was nudged: nothing happens without a
/// rectangle or an image.
pub open spec fn nudge(s: EditorState, c: char, shrink: bool, orig: (u32, u32)) -> EditorState {
    match s.crop {
        Some(r) => if orig.0 == 0 || orig.1 == 0 {
            s
        } else {
            EditorState { crop: Some(nudged(r, c, shrink, orig)), esc_pending: false, ..s }
        },
        None => s,
    }
}

/// The direction that a key stands for.
pub open spec fn nudge_key(code: KeyCode, alt: bool) -> Option<(char, bool)> {
    match code {
        KeyCode::Char(c) => if c == 'h' || c == 'j' || c == 'k' || c == 'l' || c == 'H' || c == 'J'
            || c == 'K' || c == 'L' {
            Some((c, alt))
        } else {
            None
        },
        KeyCode::Left => Some(('h', false)),
        KeyCode::Right => Some(('l', false)),
        KeyCode::Up => Some(('k', false)),
        KeyCode::Down => Some(('j', false)),
        _ => None,
    }
}

/// The tool is switched off: the rectangle goes.
pub open spec fn tool_off(s: EditorState) -> EditorState {
    EditorState { crop: None, drag: None, esc_pending: false, ..s }
}

/// What the key `c` does: it keeps a rectangle whose discarding was asked
/// about, else it switches the tool.
pub open spec fn crop_key(s: EditorState, orig: (u32, u32), ready: bool) -> (
    EditorState,
    EditorReply,
) {
    if s.crop is Some {
        if s.esc_pending {
            (EditorState { esc_pending: false, ..s }, EditorReply::Nothing)
        } else {
            (tool_off(s), EditorReply::Nothing)
        }
    } else if ready {
        (
            EditorState { crop: Some(middle(orig)), esc_pending: false, ..s },
            EditorReply::Nothing,
        )
    } else {
        (s, EditorReply::StillDecoding)
    }
}

/// The editor of an image that has another size now: a rectangle that does
/// not lie in it goes.
pub open spec fn shrunk(s: EditorState, orig: (u32, u32)) -> EditorState {
    if s.crop is Some && !rect_in(s.crop->0, orig) {
        tool_off(s)
    } else {
        s
    }
}

/// What a key does in the editor; all keys that mean nothing here are
/// swallowed.
pub open spec fn key_pressed(s: EditorState, key: Key, orig: (u32, u32), ready: bool) -> (
    EditorState,
    EditorReply,
) {
    if key.quits() {
        (s, EditorReply::Quit)
    } else if key.code == KeyCode::Esc || key.code == KeyCode::Char('q') {
        if s.crop is Some && !s.esc_pending {
            (EditorState { esc_pending: true, ..s }, EditorReply::AskDiscard)
        } else {
            (s, EditorReply::Close)
        }
    } else if key.code == KeyCode::Char('?') {
        (s, EditorReply::Help)
    } else if key.code == KeyCode::Char('!') {
        (s, EditorReply::Diagnostics)
    } else if key.code == KeyCode::Char('c') {
        crop_key(s, orig, ready)
    } else if key.code == KeyCode::Enter {
        match s.crop {
            Some(r) => (s, EditorReply::Confirm(s.page_id, r)),
            None => (s, EditorReply::NoCrop),
        }
    } else {
        match nudge_key(key.code, key.alt) {
            Some((c, shrink)) => (nudge(s, c, shrink, orig), EditorReply::Nothing),
            None => (s, EditorReply::Nothing),
        }
    }
}

/// The rectangle where a drag has taken it.
pub open spec fn drag_to(r: ImageRect, d: Drag, p: (u32, u32), orig: (u32, u32)) -> ImageRect {
    match d {
        Drag::Draw { anchor } => spanned(anchor, p, orig),
        Drag::Move { grab_dx, grab_dy } => CropRect {
            x: between(p.0 - grab_dx, 0, orig.0 - r.w) as u32,
            y: between(p.1 - grab_dy, 0, orig.1 - r.h) as u32,
            ..r
        },
        Drag::Resize { left, top, right, bottom } => dragged(
            r,
            p,
            (left, top, right, bottom),
            orig,
        ),
    }
}

/// The editor where a drag has taken it.
pub open spec fn dragged_to(s: EditorState, d: Drag, p: (u32, u32), orig: (u32, u32)) -> EditorState {
    match s.crop {
        Some(r) => if orig.0 == 0 || orig.1 == 0 {
            s
        } else {
            EditorState { crop: Some(drag_to(r, d, p, orig)), esc_pending: false, ..s }
        },
        None => s,
    }
}

pub open spec fn drag_ended(s: EditorState) -> EditorState {
    EditorState { drag: None, ..s }
}

pub open spec fn drag_started(s: EditorState, d: Drag) -> EditorState {
    EditorState { drag: Some(d), esc_pending: false, ..s }
}

/// The editor once a new rectangle is being drawn from a pixel.
pub open spec fn drawing(s: EditorState, p: (u32, u32), orig: (u32, u32)) -> EditorState {
    EditorState {
        crop: Some(spanned(p, p, orig)),
        ..drag_started(s, Drag::Draw { anchor: p })
    }
}

/// What pressing the button at a pixel does: on an edge it resizes, inside it
/// moves, outside it draws a new rectangle.
pub open spec fn pressed(s: EditorState, p: (u32, u32), tolerance: u32, orig: (u32, u32)) -> EditorState {
    match (s.crop, s.drag) {
        (Some(r), None) => match edges_hit(r, p, tolerance) {
            Some(e) => drag_started(
                s,
                Drag::Resize { left: e.0, top: e.1, right: e.2, bottom: e.3 },
            ),
            None => if inside(r, p) {
                drag_started(
                    s,
                    Drag::Move { grab_dx: (p.0 - r.x) as i64, grab_dy: (p.1 - r.y) as i64 },
                )
            } else {
                drawing(s, p, orig)
            },
        },
        (None, _) => drawing(s, p, orig),
        (Some(_), Some(d)) => drag_ended(dragged_to(s, d, p, orig)),
    }
}

/// What the mouse does in the editor. The place of the mouse comes in as the
/// pixel that it stands for, if there is one.
pub open spec fn mouse_moved(
    s: EditorState,
    kind: MouseKind,
    p: Option<(u32, u32)>,
    tolerance: u32,
    orig: (u32, u32),
) -> EditorState {
    match kind {
        MouseKind::DownLeft => match p {
            Some(q) => pressed(s, q, tolerance, orig),
            None => drag_ended(s),
        },
        MouseKind::DragLeft => match (s.drag, p) {
            (Some(d), Some(q)) => dragged_to(s, d, q, orig),
            _ => s,
        },
        MouseKind::UpLeft => match (s.drag, p) {
            (Some(d), Some(q)) => drag_ended(dragged_to(s, d, q, orig)),
            _ => drag_ended(s),
        },
        _ => s,
    }
}

impl EditorReply {
    /// What is said for a reply.
    pub fn message(self) -> (r: Option<&'static str>)
        ensures
            match r {
                Some(m) => reply_text(self) == Some(m@),
                None => reply_text(self) is None,
            },
    {
        match self {
            EditorReply::AskDiscard => Some("discard crop? Esc again to discard, c to keep"),
            EditorReply::StillDecoding => Some("image still decoding"),
            EditorReply::NoCrop => Some("no crop rect - press c to start cropping"),
            _ => None,
        }
    }
}

impl EditorState {
    /// The editor of a page, with the tool off.
    pub fn open(page_id: u32) -> (r: Self)
        ensures
            r == opened(page_id),
            forall|orig: (u32, u32)| #[trigger] editor_ok(r, orig),
    {
        EditorState { page_id, crop: None, drag: None, esc_pending: false }
    }

    fn nudge_rect(&mut self, c: char, shrink: bool, orig: (u32, u32))
        requires
            editor_ok(*old(self), orig),
        ensures
            *final(self) == nudge(*old(self), c, shrink, orig),
            editor_ok(*final(self), orig),
    {
        if let Some(r) = self.crop {
            if orig.0 == 0 || orig.1 == 0 {
                return;
            }
            let step: i64 = key_step(orig) as i64;
            let q = if c == 'h' {
                if shrink {
                    extend_rect(r, Edge::Left, -step, orig)
                } else {
                    move_rect(r, -step, 0, orig)
                }
            } else if c == 'l' {
                if shrink {
                    extend_rect(r, Edge::Right, -step, orig)
                } else {
                    move_rect(r, step, 0, orig)
                }
            } else if c == 'j' {
                if shrink {
                    extend_rect(r, Edge::Bottom, -step, orig)
                } else {
                    move_rect(r, 0, step, orig)
                }
            } else if c == 'k' {
                if shrink {
                    extend_rect(r, Edge::Top, -step, orig)
                } else {
                    move_rect(r, 0, -step, orig)
                }
            } else if c == 'H' {
                extend_rect(r, Edge::Left, step, orig)
            } else if c == 'J' {
                extend_rect(r, Edge::Bottom, step, orig)
            } else if c == 'K' {
                extend_rect(r, Edge::Top, step, orig)
            } else if c == 'L' {
                extend_rect(r, Edge::Right, step, orig)
            } else {
                r
            };
            self.crop = Some(q);
            self.esc_pending = false;
        }
    }

    /// The key `c`.
    fn toggle_crop(&mut self, orig: (u32, u32), ready: bool) -> (r: EditorReply)
        requires
            editor_ok(*old(self), orig),
        ensures
            (*final(self), r) == crop_key(*old(self), orig, ready),
            orig.0 > 0 && orig.1 > 0 ==> editor_ok(*final(self), orig),
    {
        if self.crop.is_some() {
            if self.esc_pending {
                self.esc_pending = false;
            } else {
                self.crop = None;
                self.drag = None;
            }
            return EditorReply::Nothing;
        }
        if !ready {
            return EditorReply::StillDecoding;
        }
        let w: u32 = if orig.0 >= 1 {
            orig.0
        } else {
            1
        };
        let h: u32 = if orig.1 >= 1 {
            orig.1
        } else {
            1
        };
        let iw: u32 = w / 5;
        let ih: u32 = h / 5;
        self.crop = Some(CropRect { x: iw, y: ih, w: w - 2 * iw, h: h - 2 * ih });
        self.esc_pending = false;
        EditorReply::Nothing
    }

    /// The image has another size now: a rectangle that does not lie in it
    /// means nothing any more.
    pub fn resized(&mut self, orig: (u32, u32))
        ensures
            *final(self) == shrunk(*old(self), orig),
    {
        if let Some(r) = self.crop {
            if !fits(r, orig) {
                self.crop = None;
                self.drag = None;
                self.esc_pending = false;
            }
        }
    }

    /// The editor is to be left: at once, or after a question where there is a
    /// rectangle.
    fn leave(&mut self) -> (r: EditorReply)
        ensures
            (*final(self), r) == (if old(self).crop is Some && !old(self).esc_pending {
                ((EditorState { esc_pending: true, ..*old(self) }), EditorReply::AskDiscard)
            } else {
                (*old(self), EditorReply::Close)
            }),
    {
        if self.crop.is_some() && !self.esc_pending {
            self.esc_pending = true;
            return EditorReply::AskDiscard;
        }
        EditorReply::Close
    }

    /// A key was pressed in the editor.
    pub fn handle_key(&mut self, key: Key, orig: (u32, u32), ready: bool) -> (r: EditorReply)
        requires
            editor_ok(*old(self), orig),
        ensures
            (*final(self), r) == key_pressed(*old(self), key, orig, ready),
            orig.0 > 0 && orig.1 > 0 ==> editor_ok(*final(self), orig),
    {
        if key.is_ctrl_c() {
            return EditorReply::Quit;
        }
        match key.code {
            KeyCode::Esc => self.leave(),
            KeyCode::Enter => match self.crop {
                Some(r) => EditorReply::Confirm(self.page_id, r),
                None => EditorReply::NoCrop,
            },
            KeyCode::Left => {
                self.nudge_rect('h', false, orig);
                EditorReply::Nothing
            },
            KeyCode::Right => {
                self.nudge_rect('l', false, orig);
                EditorReply::Nothing
            },
            KeyCode::Up => {
                self.nudge_rect('k', false, orig);
                EditorReply::Nothing
            },
            KeyCode::Down => {
                self.nudge_rect('j', false, orig);
                EditorReply::Nothing
            },
            KeyCode::Char(c) => {
                if c == 'q' {
                    self.leave()
                } else if c == '?' {
                    EditorReply::Help
                } else if c == '!' {
                    EditorReply::Diagnostics
                } else if c == 'c' {
                    self.toggle_crop(orig, ready)
                } else {
                    if c == 'h' || c == 'j' || c == 'k' || c == 'l' || c == 'H' || c == 'J' || c
                        == 'K' || c == 'L' {
                        self.nudge_rect(c, key.alt, orig);
                    }
                    EditorReply::Nothing
                }
            },
            _ => EditorReply::Nothing,
        }
    }

    fn apply_drag(&mut self, d: Drag, p: (u32, u32), orig: (u32, u32))
        requires
            editor_ok(*old(self), orig),
            drag_ok(d),
        ensures
            *final(self) == dragged_to(*old(self), d, p, orig),
            editor_ok(*final(self), orig),
    {
        if let Some(r) = self.crop {
            if orig.0 == 0 || orig.1 == 0 {
                return;
            }
            let q = match d {
                Drag::Draw { anchor } => normalize_rect(anchor, p, orig),
                Drag::Move { grab_dx, grab_dy } => {
                    let x: i64 = clamp(p.0 as i64 - grab_dx, 0, (orig.0 - r.w) as i64);
                    let y: i64 = clamp(p.1 as i64 - grab_dy, 0, (orig.1 - r.h) as i64);
                    CropRect { x: x as u32, y: y as u32, w: r.w, h: r.h }
                },
                Drag::Resize { left, top, right, bottom } => drag_resize(
                    r,
                    p,
                    (left, top, right, bottom),
                    orig,
                ),
            };
            self.crop = Some(q);
            self.esc_pending = false;
        }
    }

    fn draw(&mut self, p: (u32, u32), orig: (u32, u32))
        requires
            editor_ok(*old(self), orig),
        ensures
            *final(self) == drawing(*old(self), p, orig),
            orig.0 > 0 && orig.1 > 0 ==> editor_ok(*final(self), orig),
    {
        self.drag = Some(Drag::Draw { anchor: p });
        self.esc_pending = false;
        self.crop = Some(normalize_rect(p, p, orig));
    }

    fn press(&mut self, p: (u32, u32), tolerance: u32, orig: (u32, u32))
        requires
            editor_ok(*old(self), orig),
        ensures
            *final(self) == pressed(*old(self), p, tolerance, orig),
            orig.0 > 0 && orig.1 > 0 ==> editor_ok(*final(self), orig),
    {
        match (self.crop, self.drag) {
            (Some(r), None) => match hit_edges(r, p, tolerance) {
                Some(e) => {
                    self.drag = Some(
                        Drag::Resize { left: e.0, top: e.1, right: e.2, bottom: e.3 },
                    );
                    self.esc_pending = false;
                },
                None => {
                    if is_inside(r, p) {
                        self.drag = Some(
                            Drag::Move {
                                grab_dx: p.0 as i64 - r.x as i64,
                                grab_dy: p.1 as i64 - r.y as i64,
                            },
                        );
                        self.esc_pending = false;
                    } else {
                        self.draw(p, orig);
                    }
                },
            },
            (None, _) => self.draw(p, orig),
            (Some(_), Some(d)) => {
                self.apply_drag(d, p, orig);
                self.drag = None;
            },
        }
    }

    /// The mouse did something in the editor, at a place that stands for the
    /// given pixel, if for any.
    pub fn handle_mouse(
        &mut self,
        mouse: Mouse,
        p: Option<(u32, u32)>,
        tolerance: u32,
        orig: (u32, u32),
    )
        requires
            editor_ok(*old(self), orig),
        ensures
            *final(self) == mouse_moved(*old(self), mouse.kind, p, tolerance, orig),
            orig.0 > 0 && orig.1 > 0 ==> editor_ok(*final(self), orig),
    {
        match mouse.kind {
            MouseKind::DownLeft => match p {
                Some(q) => self.press(q, tolerance, orig),
                None => {
                    self.drag = None;
                },
            },
            MouseKind::DragLeft => match (self.drag, p) {
                (Some(d), Some(q)) => self.apply_drag(d, q, orig),
                _ => {},
            },
            MouseKind::UpLeft => {
                match (self.drag, p) {
                    (Some(d), Some(q)) => self.apply_drag(d, q, orig),
                    _ => {},
                }
                self.drag = None;
            },
            _ => {},
        }
    }
}

/// Discarding a rectangle takes two presses of Esc or `q`: the first only
/// asks. Moving or resizing the rectangle by a key takes the question back, so
/// that leaving asks again.
pub proof fn law_discard_takes_two(
    s: EditorState,
    first: Key,
    second: Key,
    key: Key,
    orig: (u32, u32),
    ready: bool,
)
    requires
        s.crop is Some,
        !s.esc_pending,
        orig.0 > 0 && orig.1 > 0,
        first.code == KeyCode::Esc || first.code == KeyCode::Char('q'),
        second.code == KeyCode::Esc || second.code == KeyCode::Char('q'),
        !key.quits(),
        nudge_key(key.code, key.alt) is Some,
    ensures
        ({
            let once = key_pressed(s, first, orig, ready);
            let used = key_pressed(once.0, key, orig, ready);
            &&& once.1 == EditorReply::AskDiscard
            &&& once.0.crop == s.crop
            &&& key_pressed(once.0, second, orig, ready).1 == EditorReply::Close
            &&& key_pressed(used.0, second, orig, ready).1 == EditorReply::AskDiscard
        }),
{
}

/// Pressing `c` after the question keeps the rectangle, and the question is
/// taken back.
pub proof fn law_c_keeps_after_question(s: EditorState, orig: (u32, u32), ready: bool)
    requires
        s.crop is Some,
        s.esc_pending,
    ensures
        ({
            let c = Key { code: KeyCode::Char('c'), ctrl: false, alt: false };
            &&& key_pressed(s, c, orig, ready).0.crop == s.crop
            &&& !key_pressed(s, c, orig, ready).0.esc_pending
        }),
{
}

/// Grabbing a rectangle inside and letting it go at the same place leaves it
/// where it was: it does not jump under the cursor.
pub proof fn law_grab_does_not_jump(s: EditorState, p: (u32, u32), tolerance: u32, orig: (u32, u32))
    requires
        editor_ok(s, orig),
        s.crop is Some,
        s.drag is None,
        inside(s.crop->0, p),
        edges_hit(s.crop->0, p, tolerance) is None,
    ensures
        ({
            let down = mouse_moved(s, MouseKind::DownLeft, Some(p), tolerance, orig);
            let up = mouse_moved(down, MouseKind::UpLeft, Some(p), tolerance, orig);
            up.crop == s.crop && up.drag is None
        }),
{
    let r = s.crop->0;
    assert(between(r.x as int, 0, orig.0 - r.w) == r.x);
    assert(between(r.y as int, 0, orig.1 - r.h) == r.y);
}

} // verus!
