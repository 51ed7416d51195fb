//! What is shown: the layout of the screen, the texts in it, and which part
//! of it a place of the terminal belongs to.

use ratatui::layout::{Constraint, Layout};
use vstd::prelude::*;

use crate::session::PageId;
use crate::tui::app::{App, Pane};
use crate::tui::editor::less;
use crate::tui::input::Rect;
use crate::tui::model;

verus! {

// --------------------------------------------------------------------- layout

/// The share of a space that one of two parts gets.
#[derive(Debug, Clone, Copy, PartialEq, Eq, Structural)]
pub enum Share {
    Min(u16),
    Length(u16),
    Percentage(u16),
    Fill(u16),
}

/// How much of a space the first of two parts gets; the second gets the rest.
/// A least size comes before a fixed one, which comes before a percentage, and
/// a percentage is rounded to the nearest whole cell. Only the pairs of shares
/// that are used for screens are covered.
pub open spec fn first_part(total: u16, first: Share, second: Share) -> Option<int> {
    match (first, second) {
        (Share::Min(least), Share::Length(n)) => if least > i16::MAX {
            None
        } else if total >= least + n {
            Some(total - n)
        } else if total >= least {
            Some(least as int)
        } else {
            Some(total as int)
        },
        (Share::Percentage(p), Share::Percentage(q)) => if p + q == 100 {
            Some(part_of(total, p as int))
        } else {
            None
        },
        (Share::Percentage(p), Share::Fill(_)) => if p <= 100 {
            Some(part_of(total, p as int))
        } else {
            None
        },
        _ => None,
    }
}

/// A space cut into two parts, one above the other; the first has `n` rows.
pub open spec fn cut_rows(area: Rect, n: int) -> (Rect, Rect) {
    (
        Rect { height: n as u16, ..area },
        Rect { y: (area.y + n) as u16, height: (area.height - n) as u16, ..area },
    )
}

/// A space cut into two parts, side by side; the first has `n` columns.
pub open spec fn cut_columns(area: Rect, n: int) -> (Rect, Rect) {
    (
        Rect { width: n as u16, ..area },
        Rect { x: (area.x + n) as u16, width: (area.width - n) as u16, ..area },
    )
}

/// `ratatui::layout::Layout::vertical`: a space split into two parts, one
/// right above the other, which together fill it, by the documented order and
/// rounding of the constraints. Nothing is claimed of other pairs of
/// constraints, nor of a space whose far corner cannot be written down.
#[verifier::external_body]
pub(crate) fn split_rows(area: Rect, first: Share, second: Share) -> (r: (Rect, Rect))
    ensures
        area.ok() && first_part(area.height, first, second) is Some ==> r == cut_rows(
            area,
            first_part(area.height, first, second)->0,
        ),
{
    let shares = [first, second].map(|s| match s {
        Share::Min(n) => Constraint::Min(n),
        Share::Length(n) => Constraint::Length(n),
        Share::Percentage(n) => Constraint::Percentage(n),
        Share::Fill(n) => Constraint::Fill(n),
    });
    let Rect { x, y, width, height } = area;
    let whole = ratatui::layout::Rect { x, y, width, height };
    let [a, b] = Layout::vertical(shares).areas(whole);
    (
        Rect { x: a.x, y: a.y, width: a.width, height: a.height },
        Rect { x: b.x, y: b.y, width: b.width, height: b.height },
    )
}

/// `ratatui::layout::Layout::horizontal`: a space split into two parts, right
/// beside each other, which together fill it, by the documented order and
/// rounding of the constraints. Nothing is claimed of other pairs of
/// constraints, nor of a space whose far corner cannot be written down.
#[verifier::external_body]
pub(crate) fn split_columns(area: Rect, first: Share, second: Share) -> (r: (Rect, Rect))
    ensures
        area.ok() && first_part(area.width, first, second) is Some ==> r == cut_columns(
            area,
            first_part(area.width, first, second)->0,
        ),
{
    let shares = [first, second].map(|s| match s {
        Share::Min(n) => Constraint::Min(n),
        Share::Length(n) => Constraint::Length(n),
        Share::Percentage(n) => Constraint::Percentage(n),
        Share::Fill(n) => Constraint::Fill(n),
    });
    let Rect { x, y, width, height } = area;
    let whole = ratatui::layout::Rect { x, y, width, height };
    let [a, b] = Layout::horizontal(shares).areas(whole);
    (
        Rect { x: a.x, y: a.y, width: a.width, height: a.height },
        Rect { x: b.x, y: b.y, width: b.width, height: b.height },
    )
}

/// Where the panes are, for the current frame.
#[derive(Debug, Clone, Copy, PartialEq, Eq, Structural)]
pub struct PaneRects {
    pub sidebar: Rect,
    pub status: Rect,
    /// The preview with its border.
    pub preview: Rect,
    /// The preview inside its border, where the cells are laid out.
    pub preview_inner: Rect,
    pub text: Rect,
    pub footer: Rect,
    pub whole: Rect,
}

/// The inside of a border.
pub open spec fn inner_of(r: Rect) -> Rect {
    Rect {
        x: (if r.x < u16::MAX {
            r.x + 1
        } else {
            r.x as int
        }) as u16,
        y: (if r.y < u16::MAX {
            r.y + 1
        } else {
            r.y as int
        }) as u16,
        width: less(r.width, 2) as u16,
        height: less(r.height, 2) as u16,
    }
}

/// The inside of a border.
pub fn inner(r: Rect) -> (q: Rect)
    ensures
        q == inner_of(r),
{
    Rect {
        x: if r.x < u16::MAX {
            r.x + 1
        } else {
            r.x
        },
        y: if r.y < u16::MAX {
            r.y + 1
        } else {
            r.y
        },
        width: if r.width >= 2 {
            r.width - 2
        } else {
            0
        },
        height: if r.height >= 2 {
            r.height - 2
        } else {
            0
        },
    }
}

/// The panes of a screen, out of the parts that it was split into.
pub open spec fn panes(
    whole: Rect,
    footer: Rect,
    left: (Rect, Rect),
    right: (Rect, Rect),
) -> PaneRects {
    PaneRects {
        sidebar: left.0,
        status: left.1,
        preview: right.0,
        preview_inner: inner_of(right.0),
        text: right.1,
        footer,
        whole,
    }
}

/// The panes of a screen: the footer takes the last row, where at least three
/// rows are left for the rest; of these the left three tenths hold the pages
/// above the status, and the others the preview above the text.
pub open spec fn layout_of(area: Rect) -> PaneRects {
    let rows = cut_rows(
        area,
        if area.height >= 4 {
            area.height - 1
        } else {
            area.height as int
        },
    );
    let columns = cut_columns(rows.0, part_of(rows.0.width, 30));
    panes(
        area,
        rows.1,
        cut_rows(columns.0, part_of(columns.0.height, 70)),
        cut_rows(columns.1, part_of(columns.1.height, 55)),
    )
}

/// `percent` of a number of cells, rounded to the nearest whole cell.
pub open spec fn part_of(cells: u16, percent: int) -> int {
    (cells * percent + 50) / 100
}

/// The panes of a screen, out of the parts that it was split into.
pub fn arrange(whole: Rect, footer: Rect, left: (Rect, Rect), right: (Rect, Rect)) -> (r: PaneRects)
    ensures
        r == panes(whole, footer, left, right),
{
    PaneRects {
        sidebar: left.0,
        status: left.1,
        preview: right.0,
        preview_inner: inner(right.0),
        text: right.1,
        footer,
        whole,
    }
}

/// The panes of a screen.
pub fn layout(area: Rect) -> (r: PaneRects)
    ensures
        area.ok() ==> r == layout_of(area),
        r.whole == area,
        r.preview_inner == inner_of(r.preview),
{
    let (body, footer) = split_rows(area, Share::Min(3), Share::Length(1));
    let (left, right) = split_columns(body, Share::Percentage(30), Share::Percentage(70));
    arrange(
        area,
        footer,
        split_rows(left, Share::Percentage(70), Share::Fill(1)),
        split_rows(right, Share::Percentage(55), Share::Fill(1)),
    )
}

/// The panes of a screen fill it without overlapping: every cell of it lies
/// in exactly one of them.
pub proof fn law_panes_tile_screen(area: Rect, column: u16, row: u16)
    requires
        area.ok(),
    ensures
        ({
            let r = layout_of(area);
            let n = |p: Rect|
                if p.has(column, row) {
                    1int
                } else {
                    0
                };
            n(r.sidebar) + n(r.status) + n(r.preview) + n(r.text) + n(r.footer) == n(area)
        }),
{
}

/// A place of the terminal is found to be in a pane exactly where that pane
/// is; the status and the footer belong to none.
pub proof fn law_pane_at_place(area: Rect, column: u16, row: u16)
    requires
        area.ok(),
    ensures
        ({
            let r = layout_of(area);
            let found = model::pane_at(Some(r), column, row);
            &&& found == Some(Pane::Sidebar) <==> r.sidebar.has(column, row)
            &&& found == Some(Pane::Preview) <==> r.preview.has(column, row)
            &&& found == Some(Pane::Text) <==> r.text.has(column, row)
            &&& r.status.has(column, row) || r.footer.has(column, row) ==> found is None
        }),
{
    law_panes_tile_screen(area, column, row);
}

/// A dialog of at most the given size in the middle of a space, with a cell
/// of margin on each side.
pub open spec fn centered(width: u16, height: u16, area: Rect) -> Rect {
    let w = if width <= less(area.width, 2) {
        width as int
    } else {
        less(area.width, 2)
    };
    let h = if height <= less(area.height, 2) {
        height as int
    } else {
        less(area.height, 2)
    };
    Rect {
        x: (area.x + (area.width - w) / 2) as u16,
        y: (area.y + (area.height - h) / 2) as u16,
        width: w as u16,
        height: h as u16,
    }
}

/// A dialog of at most the given size in the middle of a space.
pub fn centered_rect(width: u16, height: u16, area: Rect) -> (r: Rect)
    requires
        area.ok(),
    ensures
        r == centered(width, height, area),
        area.covers(r),
{
    let max_w: u16 = if area.width >= 2 {
        area.width - 2
    } else {
        0
    };
    let max_h: u16 = if area.height >= 2 {
        area.height - 2
    } else {
        0
    };
    let w: u16 = if width <= max_w {
        width
    } else {
        max_w
    };
    let h: u16 = if height <= max_h {
        height
    } else {
        max_h
    };
    Rect {
        x: area.x + (area.width - w) / 2,
        y: area.y + (area.height - h) / 2,
        width: w,
        height: h,
    }
}

/// How far a text is scrolled so that its end is visible, cut down to the
/// sixteen bits that a terminal counts in.
pub open spec fn end_offset(total: nat, height: nat) -> nat {
    if total <= height {
        0
    } else {
        ((total - height) % 65536) as nat
    }
}

/// How far a text is scrolled so that its end is visible.
pub fn scroll_bottom(total: usize, height: usize) -> (r: u16)
    ensures
        r == end_offset(total as nat, height as nat),
{
    if total <= height {
        0
    } else {
        ((total - height) % 65536) as u16
    }
}

// ----------------------------------------------------------------------- grid

/// The cell of a grid in which page `i` is shown. The last column and the last
/// row take what is left over.
pub open spec fn grid_cell(area: Rect, cols: int, rows: int, i: int) -> Rect {
    let cw = area.width as int / cols;
    let ch = area.height as int / rows;
    let col = i % cols;
    let row = i / cols;
    Rect {
        x: (area.x + col * cw) as u16,
        y: (area.y + row * ch) as u16,
        width: (if col == cols - 1 {
            area.width - col * cw
        } else {
            cw
        }) as u16,
        height: (if row == rows - 1 {
            area.height - row * ch
        } else {
            ch
        }) as u16,
    }
}

/// A grid that has room for `n` pages.
pub open spec fn grid_ok(cols: int, rows: int, n: int) -> bool {
    1 <= cols <= u16::MAX && 1 <= rows <= u16::MAX && n <= cols * rows
}

proof fn lemma_cell_index(cols: int, rows: int, i: int)
    requires
        cols >= 1,
        0 <= i < cols * rows,
    ensures
        0 <= i % cols < cols,
        0 <= i / cols < rows,
        i == (i / cols) * cols + i % cols,
{
    assert(0 <= i % cols < cols && i == cols * (i / cols) + i % cols) by (nonlinear_arith)
        requires
            cols >= 1,
    ;
    assert(i / cols >= 0) by (nonlinear_arith)
        requires
            cols >= 1,
            i >= 0,
    ;
    assert(i / cols < rows) by (nonlinear_arith)
        requires
            cols >= 1,
            i == cols * (i / cols) + i % cols,
            i % cols >= 0,
            i < cols * rows,
    ;
    assert((i / cols) * cols == cols * (i / cols)) by (nonlinear_arith);
}

/// One direction of a grid: the pieces before the last are equal, and the
/// last one ends where the whole ends.
proof fn lemma_piece(len: int, parts: int, k: int)
    requires
        0 <= len,
        parts >= 1,
        0 <= k < parts,
    ensures
        0 <= len / parts,
        0 <= k * (len / parts),
        k * (len / parts) + len / parts <= len,
        k < parts - 1 ==> (k + 1) * (len / parts) <= len,
{
    let q = len / parts;
    assert(q >= 0 && q * parts <= len) by (nonlinear_arith)
        requires
            len >= 0,
            parts >= 1,
            q == len / parts,
    ;
    assert(0 <= k * q && k * q + q <= len && (k < parts - 1 ==> (k + 1) * q <= len))
        by (nonlinear_arith)
        requires
            q >= 0,
            q * parts <= len,
            0 <= k < parts,
    ;
}

proof fn lemma_grid_cell(area: Rect, cols: int, rows: int, i: int)
    requires
        area.ok(),
        cols >= 1,
        rows >= 1,
        0 <= i < cols * rows,
    ensures
        0 <= i % cols < cols,
        0 <= i / cols < rows,
        ({
            let cw = area.width as int / cols;
            let ch = area.height as int / rows;
            let col = i % cols;
            let row = i / cols;
            &&& 0 <= cw && 0 <= ch
            &&& 0 <= col * cw && col * cw + cw <= area.width
            &&& 0 <= row * ch && row * ch + ch <= area.height
        }),
        area.covers(grid_cell(area, cols, rows, i)),
{
    lemma_cell_index(cols, rows, i);
    lemma_piece(area.width as int, cols, i % cols);
    lemma_piece(area.height as int, rows, i / cols);
}

/// The cells of a grid, one per page, for a split into columns and rows.
pub fn grid_cells(area: Rect, n: usize, cols: usize, rows: usize) -> (r: Vec<Rect>)
    requires
        area.ok(),
        grid_ok(cols as int, rows as int, n as int),
    ensures
        r@ == (if area.width == 0 || area.height == 0 {
            Seq::empty()
        } else {
            Seq::new(n as nat, |i: int| grid_cell(area, cols as int, rows as int, i))
        }),
{
    let mut r: Vec<Rect> = Vec::new();
    if area.width == 0 || area.height == 0 {
        assert(r@ =~= Seq::empty());
        return r;
    }
    let cw: u16 = area.width / cols as u16;
    let ch: u16 = area.height / rows as u16;
    let ghost full = Seq::new(n as nat, |i: int| grid_cell(area, cols as int, rows as int, i));
    assert(r@ =~= full.take(0));
    let mut i: usize = 0;
    while i < n
        invariant
            i <= n,
            area.ok(),
            grid_ok(cols as int, rows as int, n as int),
            cw == area.width as int / cols as int,
            ch == area.height as int / rows as int,
            full == Seq::new(n as nat, |i: int| grid_cell(area, cols as int, rows as int, i)),
            r@ == full.take(i as int),
        decreases n - i,
    {
        proof {
            lemma_grid_cell(area, cols as int, rows as int, i as int);
        }
        let col: u16 = (i % cols) as u16;
        let row: u16 = (i / cols) as u16;
        let dx: u16 = col * cw;
        let dy: u16 = row * ch;
        let w: u16 = if col as usize == cols - 1 {
            area.width - dx
        } else {
            cw
        };
        let h: u16 = if row as usize == rows - 1 {
            area.height - dy
        } else {
            ch
        };
        r.push(Rect { x: area.x + dx, y: area.y + dy, width: w, height: h });
        assert(full.take(i + 1) =~= full.take(i as int).push(full[i as int]));
        i = i + 1;
    }
    assert(full.take(n as int) =~= full);
    r
}

/// Every cell of a grid lies inside the space, and the cells of the last
/// column and of the last row reach its end.
pub proof fn law_grid_fills_area(area: Rect, cols: int, rows: int, i: int)
    requires
        area.ok(),
        cols >= 1,
        rows >= 1,
        0 <= i < cols * rows,
    ensures
        area.covers(grid_cell(area, cols, rows, i)),
        i % cols == cols - 1 ==> grid_cell(area, cols, rows, i).x + grid_cell(
            area,
            cols,
            rows,
            i,
        ).width == area.x + area.width,
        i / cols == rows - 1 ==> grid_cell(area, cols, rows, i).y + grid_cell(
            area,
            cols,
            rows,
            i,
        ).height == area.y + area.height,
{
    lemma_grid_cell(area, cols, rows, i);
}

/// No place of the terminal lies in two cells of a grid.
pub proof fn law_grid_cells_disjoint(
    area: Rect,
    cols: int,
    rows: int,
    i: int,
    j: int,
    column: u16,
    row: u16,
)
    requires
        area.ok(),
        cols >= 1,
        rows >= 1,
        0 <= i < cols * rows,
        0 <= j < cols * rows,
        i != j,
    ensures
        !(grid_cell(area, cols, rows, i).has(column, row) && grid_cell(area, cols, rows, j).has(
            column,
            row,
        )),
{
    lemma_grid_cell(area, cols, rows, i);
    lemma_grid_cell(area, cols, rows, j);
    lemma_cell_index(cols, rows, i);
    lemma_cell_index(cols, rows, j);
    let cw = area.width as int / cols;
    let ch = area.height as int / rows;
    let (c1, r1) = (i % cols, i / cols);
    let (c2, r2) = (j % cols, j / cols);
    assert(c1 != c2 || r1 != r2);
    if c1 < c2 {
        lemma_step(c1, c2, cw);
    } else if c2 < c1 {
        lemma_step(c2, c1, cw);
    } else if r1 < r2 {
        lemma_step(r1, r2, ch);
    } else {
        lemma_step(r2, r1, ch);
    }
}

proof fn lemma_step(a: int, b: int, q: int)
    requires
        a < b,
        q >= 0,
    ensures
        a * q + q <= b * q,
{
    assert(a * q + q <= b * q) by (nonlinear_arith)
        requires
            a < b,
            q >= 0,
    ;
}


// ----------------------------------------------------------------- hit tests

/// The pane at a place of the terminal.
pub fn hit_test(app: &App, pos: (u16, u16)) -> (r: Option<Pane>)
    ensures
        r == model::pane_at(app@.pane_rects, pos.0, pos.1),
{
    match app.pane_rects {
        Some(rects) => {
            if rects.sidebar.contains(pos.0, pos.1) {
                Some(Pane::Sidebar)
            } else if rects.preview.contains(pos.0, pos.1) {
                Some(Pane::Preview)
            } else if rects.text.contains(pos.0, pos.1) {
                Some(Pane::Text)
            } else {
                None
            }
        },
        None => None,
    }
}

/// The page whose cell is at a place of the terminal.
pub fn preview_cell_at(app: &App, pos: (u16, u16)) -> (r: Option<PageId>)
    ensures
        r == model::cell_at(app@.preview_cells, pos.0, pos.1),
{
    let ghost all = app.preview_cells@;
    let mut i: usize = 0;
    assert(all.take(0) =~= Seq::empty());
    while i < app.preview_cells.len()
        invariant
            i <= app.preview_cells@.len(),
            all == app.preview_cells@,
            model::cell_at(all.take(i as int), pos.0, pos.1) is None,
        decreases app.preview_cells@.len() - i,
    {
        assert(all.take(i + 1).drop_last() =~= all.take(i as int));
        assert(all.take(i + 1).last() == all[i as int]);
        let (id, cell) = app.preview_cells[i];
        if cell.contains(pos.0, pos.1) {
            proof {
                lemma_cell_found(all, pos.0, pos.1, i + 1);
            }
            return Some(id);
        }
        i = i + 1;
    }
    assert(all.take(all.len() as int) =~= all);
    None
}

proof fn lemma_cell_found(cells: Seq<(PageId, Rect)>, column: u16, row: u16, n: int)
    requires
        0 <= n <= cells.len(),
        model::cell_at(cells.take(n), column, row) is Some,
    ensures
        model::cell_at(cells, column, row) == model::cell_at(cells.take(n), column, row),
    decreases cells.len() - n,
{
    if n < cells.len() {
        assert(cells.take(n + 1).drop_last() =~= cells.take(n));
        lemma_cell_found(cells, column, row, n + 1);
    } else {
        assert(cells.take(n) =~= cells);
    }
}

/// The row of the page list at a place of the terminal.
pub fn sidebar_index_at(app: &App, pos: (u16, u16)) -> (r: Option<usize>)
    ensures
        match r {
            Some(i) => model::row_at(app@.pane_rects, pos.0, pos.1) == Some(i as nat),
            None => model::row_at(app@.pane_rects, pos.0, pos.1) is None,
        },
{
    match app.pane_rects {
        Some(rects) => {
            let s = rects.sidebar;
            let x: u32 = pos.0 as u32;
            let y: u32 = pos.1 as u32;
            if s.x as u32 <= x && x < s.x as u32 + s.width as u32 && s.y as u32 + 1 <= y && y + 1
                < s.y as u32 + s.height as u32 {
                Some((pos.1 - s.y - 1) as usize)
            } else {
                None
            }
        },
        None => None,
    }
}

} // verus!
