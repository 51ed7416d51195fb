//! Rectangles: the crop tool, the layout of the screen, and where clicks go.

use auto_scanner_ocr::tui::app::{App, Pane};
use auto_scanner_ocr::config::Config;
use auto_scanner_ocr::tui::dialogs::overlay_place;
use auto_scanner_ocr::tui::editor::{
    drag_resize, editor_area, editor_footer, editor_header, extend_rect, hit_edges, image_rect,
    key_step, move_rect, normalize_rect, Drag, Edge, EditorReply, EditorState, ImageRect,
};
use auto_scanner_ocr::tui::input::{Key, KeyCode, Mouse, MouseKind, Rect};
use auto_scanner_ocr::tui::overlays::{handle_mouse, Confirm, LangPicker, Overlay};
use auto_scanner_ocr::tui::preview::{outline_bands, Band};
use auto_scanner_ocr::tui::ui::{
    centered_rect, grid_cells, hit_test, inner, layout, preview_cell_at, scroll_bottom,
    sidebar_index_at,
};

fn img(x: u32, y: u32, w: u32, h: u32) -> ImageRect {
    ImageRect { x, y, w, h }
}

fn at(x: u16, y: u16, width: u16, height: u16) -> Rect {
    Rect { x, y, width, height }
}

fn rect(w: u16, h: u16) -> Rect {
    at(0, 0, w, h)
}

fn mouse(kind: MouseKind, column: u16, row: u16) -> Mouse {
    Mouse { kind, column, row }
}

// ------------------------------------------------------------------ crop tool

#[test]
fn normalize_rect_swaps_and_clamps() {
    let max = (100u32, 80u32);
    assert_eq!(normalize_rect((50, 40), (10, 20), max), img(10, 20, 41, 21));
    assert_eq!(normalize_rect((200, 200), (300, 300), max), img(99, 79, 1, 1));
    assert_eq!(normalize_rect((10, 10), (10, 10), max), img(10, 10, 1, 1));
}

#[test]
fn move_rect_clamps() {
    let max = (100u32, 100u32);
    let r = img(90, 90, 10, 10);
    let moved = move_rect(r, 50, 50, max);
    assert_eq!(moved.x, 90, "clamped at right edge");
    assert_eq!(moved.y, 90);
    let back = move_rect(r, -500, -500, max);
    assert_eq!((back.x, back.y), (0, 0));
}

#[test]
fn extend_rect_edges() {
    let max = (100u32, 100u32);
    let r = img(10, 10, 10, 10);
    assert_eq!(extend_rect(r, Edge::Right, 5, max).w, 15);
    assert_eq!(extend_rect(r, Edge::Right, -50, max).w, 1);
    let l = extend_rect(r, Edge::Left, 5, max);
    assert_eq!(l.x, 5);
    assert_eq!(l.w, 15);
    assert_eq!(l.x + l.w, r.x + r.w, "right edge fixed");
    assert_eq!(extend_rect(r, Edge::Left, -50, max).w, 1);
    assert_eq!(extend_rect(r, Edge::Left, -50, max).x, 19, "right edge fixed");
    let b = extend_rect(r, Edge::Bottom, 500, max);
    assert_eq!(b.h, 90);
    let t = extend_rect(r, Edge::Top, 500, max);
    assert_eq!(t.y, 0);
    assert_eq!(t.h, 20);
}

#[test]
fn key_step_two_percent() {
    assert_eq!(key_step((1000, 2000)), 40);
    assert_eq!(key_step((40, 40)), 1, "min step 1px");
}

#[test]
fn hit_edges_bands_and_interior() {
    let r = img(10, 10, 50, 40);
    assert_eq!(hit_edges(r, (10, 10), 8), Some((true, true, false, false)));
    assert_eq!(hit_edges(r, (59, 49), 8), Some((false, false, true, true)));
    assert_eq!(hit_edges(r, (30, 12), 8), Some((false, true, false, false)));
    assert_eq!(hit_edges(r, (55, 30), 8), Some((false, false, true, false)));
    assert_eq!(hit_edges(r, (30, 30), 8), None);
    assert_eq!(hit_edges(r, (70, 30), 8), None);
    let tiny = img(10, 10, 2, 2);
    assert_eq!(hit_edges(tiny, (10, 10), 8), Some((true, true, true, true)));
}

#[test]
fn drag_resize_moves_grabbed_edges_only() {
    let max = (100u32, 100u32);
    let r = img(10, 10, 50, 40);
    let r2 = drag_resize(r, (30, 30), (false, false, true, false), max);
    assert_eq!((r2.x, r2.w), (10, 21), "left edge fixed, right follows");
    let r3 = drag_resize(r, (200, 30), (false, false, true, false), max);
    assert_eq!(r3.w, 90, "clamped to image width");
    let r4 = drag_resize(r, (5, 5), (true, false, false, false), max);
    assert_eq!((r4.x, r4.w), (5, 55), "right edge 59 stays fixed");
    let r5 = drag_resize(r, (95, 30), (true, false, false, false), max);
    assert_eq!(r5.w, 1, "cursor clamps to right edge");
    assert_eq!(r5.x, 59, "clamped to the fixed right edge");
    let c = drag_resize(r, (5, 5), (true, true, false, false), max);
    assert_eq!((c.x, c.y, c.w, c.h), (5, 5, 55, 45));
    let n = drag_resize(r, (1, 1), (false, false, false, false), max);
    assert_eq!(n, r);
}

fn editing(crop: ImageRect) -> EditorState {
    let mut e = EditorState::open(1);
    e.crop = Some(crop);
    e
}

#[test]
fn drag_move_preserves_offset() {
    let max = (100u32, 100u32);
    let mut e = editing(img(20, 30, 10, 10));
    // Grabbed at a distance of (2, 1) from the corner, moved to (50, 60).
    e.drag = Some(Drag::Move { grab_dx: 2, grab_dy: 1 });
    e.handle_mouse(mouse(MouseKind::DragLeft, 0, 0), Some((50, 60)), 0, max);
    let moved = e.crop.unwrap();
    assert_eq!((moved.x, moved.y), (48, 59));
}

#[test]
fn the_crop_tool_answers_keys() {
    let max = (1000u32, 2000u32);
    let mut e = EditorState::open(7);
    assert!(e.crop.is_none());
    assert!(matches!(e.handle_key(Key::plain(KeyCode::Char('c')), max, true), EditorReply::Nothing));
    assert!(e.crop.is_some());
    let before = e.crop.unwrap();
    e.handle_key(Key::plain(KeyCode::Char('l')), max, true);
    assert!(e.crop.unwrap().x >= before.x);
    match e.handle_key(Key::plain(KeyCode::Enter), max, true) {
        EditorReply::Confirm(7, r) => assert_eq!(Some(r), e.crop),
        other => panic!("{other:?}"),
    }
    // Leaving with a rectangle takes a second Esc.
    assert!(matches!(e.handle_key(Key::plain(KeyCode::Esc), max, true), EditorReply::AskDiscard));
    e.handle_key(Key::plain(KeyCode::Char('h')), max, true);
    assert!(matches!(e.handle_key(Key::plain(KeyCode::Esc), max, true), EditorReply::AskDiscard));
    e.handle_key(Key::plain(KeyCode::Esc), max, true);
    assert!(matches!(e.handle_key(Key::plain(KeyCode::Esc), max, true), EditorReply::Close));
    let mut e = EditorState::open(7);
    e.handle_key(Key::plain(KeyCode::Char('c')), max, true);
    let q = Key::plain(KeyCode::Char('q'));
    assert!(matches!(e.handle_key(q, max, true), EditorReply::AskDiscard));
    assert!(e.crop.is_some());
    assert!(matches!(e.handle_key(q, max, true), EditorReply::Close));
    // An image that has shrunk takes its rectangle along.
    e.resized((1000, 2000));
    assert!(e.crop.is_some());
    e.resized((10, 10));
    assert!(e.crop.is_none() && !e.esc_pending);
    assert!(matches!(e.handle_key(q, (10, 10), true), EditorReply::Close));
    let mut e = EditorState::open(7);
    assert!(matches!(e.handle_key(Key::plain(KeyCode::Enter), max, true), EditorReply::NoCrop));
    assert!(matches!(
        e.handle_key(Key::plain(KeyCode::Char('c')), max, false),
        EditorReply::StillDecoding
    ));
    let ctrl_c = Key { code: KeyCode::Char('c'), ctrl: true, alt: false };
    assert!(matches!(e.handle_key(ctrl_c, max, true), EditorReply::Quit));
}

#[test]
fn the_crop_tool_answers_the_mouse() {
    let max = (100u32, 100u32);
    let mut e = editing(img(20, 20, 40, 40));
    // Outside: a new rectangle is drawn.
    e.handle_mouse(mouse(MouseKind::DownLeft, 0, 0), Some((80, 80)), 2, max);
    e.handle_mouse(mouse(MouseKind::DragLeft, 0, 0), Some((90, 95)), 2, max);
    assert_eq!(e.crop, Some(img(80, 80, 11, 16)));
    e.handle_mouse(mouse(MouseKind::UpLeft, 0, 0), Some((90, 95)), 2, max);
    assert!(e.drag.is_none());
    // An edge: it follows.
    e.handle_mouse(mouse(MouseKind::DownLeft, 0, 0), Some((90, 88)), 1, max);
    e.handle_mouse(mouse(MouseKind::DragLeft, 0, 0), Some((85, 88)), 1, max);
    assert_eq!(e.crop, Some(img(80, 80, 6, 16)));
}

#[test]
fn the_editor_has_its_place() {
    let whole = rect(80, 24);
    let area = editor_area(whole);
    assert!(area.width < 80 && area.height < 24);
    let image = image_rect(area, 10, 5);
    assert!(image.width <= 10 && image.height <= 5);
    assert!(editor_footer(true).contains("Enter apply"));
    assert_ne!(editor_footer(true), editor_footer(false));
    assert!(editor_header(true, "page 1", Some(img(1, 2, 3, 4)), "5").contains("page 1"));
}

// ------------------------------------------------------------------- overlays

fn dialog() -> Option<Rect> {
    Some(at(10, 5, 20, 6))
}

#[test]
fn pointer_movement_never_closes() {
    for kind in [
        MouseKind::Other,
        MouseKind::UpLeft,
        MouseKind::DragLeft,
        MouseKind::ScrollUp,
        MouseKind::ScrollDown,
    ] {
        assert!(
            handle_mouse(&Overlay::Help, dialog(), mouse(kind, 0, 0)),
            "{kind:?} must not close the overlay"
        );
    }
}

#[test]
fn left_click_inside_keeps() {
    for (col, row) in [(10, 5), (29, 5), (10, 10), (29, 10), (19, 7)] {
        let o = Overlay::Confirm(Confirm::quit());
        assert!(handle_mouse(&o, dialog(), mouse(MouseKind::DownLeft, col, row)));
    }
}

#[test]
fn left_click_outside_closes_except_diagnostics() {
    for (col, row) in [(31, 7), (19, 12), (5, 5)] {
        let click = mouse(MouseKind::DownLeft, col, row);
        assert!(!handle_mouse(&Overlay::Help, dialog(), click));
        assert!(!handle_mouse(&Overlay::Confirm(Confirm::quit()), dialog(), click));
        assert!(!handle_mouse(&Overlay::LangPicker(LangPicker::new("eng")), dialog(), click));
        assert!(handle_mouse(&Overlay::Diagnostics, dialog(), click));
    }
}

#[test]
fn missing_or_degenerate_rect_never_closes() {
    let click = mouse(MouseKind::DownLeft, 0, 0);
    assert!(handle_mouse(&Overlay::Help, None, click));
    for degenerate in [rect(0, 6), rect(20, 0)] {
        assert!(handle_mouse(&Overlay::Help, Some(degenerate), click));
    }
}

#[test]
fn dialogs_lie_in_the_middle() {
    let app = App::new(Config::default());
    let whole = rect(100, 40);
    assert_eq!(overlay_place(&app, &Overlay::Help, whole), at(19, 7, 62, 25));
    assert_eq!(overlay_place(&app, &Overlay::Diagnostics, whole), at(20, 16, 60, 8));
    assert_eq!(
        overlay_place(&app, &Overlay::LangPicker(LangPicker::new("eng")), whole),
        at(30, 17, 40, 6)
    );
    // A small screen keeps a margin of one cell.
    assert_eq!(overlay_place(&app, &Overlay::Help, rect(20, 10)), at(1, 1, 18, 8));
    assert_eq!(centered_rect(4, 2, rect(10, 10)), at(3, 4, 4, 2));
}

// ----------------------------------------------------------------------- grid

/// The split of a space that suits pages of a shape best.
fn best_grid(area: Rect, n: usize, page_aspect: f32) -> (usize, usize) {
    let area_aspect = area.width as f32 / area.height as f32;
    let ideal_cols = ((n as f32) * (area_aspect / page_aspect)).sqrt();
    let mut best = (1, n);
    let mut best_cost = f32::INFINITY;
    let lo = ideal_cols.floor().max(1.0) as usize;
    for cols in lo.saturating_sub(2).max(1)..=(lo + 2).min(n) {
        let rows = n.div_ceil(cols);
        let cell_w = area.width as f32 / cols as f32;
        let cell_h = area.height as f32 / rows as f32;
        let cell_aspect = cell_w / cell_h;
        let distortion = if cell_aspect >= page_aspect {
            cell_aspect / page_aspect
        } else {
            page_aspect / cell_aspect
        };
        let cost = distortion + 0.02 * rows as f32;
        if cost < best_cost {
            best_cost = cost;
            best = (cols, rows);
        }
    }
    best
}

fn grid(area: Rect, n: usize, page_aspect: f32) -> Vec<Rect> {
    if area.width == 0 || area.height == 0 || n == 0 {
        return grid_cells(area, n.min(1), 1, 1).into_iter().take(n).collect();
    }
    let (cols, rows) = best_grid(area, n, page_aspect);
    grid_cells(area, n, cols, rows)
}

#[test]
fn grid_cells_empty_and_degenerate() {
    assert!(grid(rect(0, 10), 3, 0.7).is_empty());
    assert!(grid(rect(10, 0), 3, 0.7).is_empty());
    assert!(grid(rect(10, 10), 0, 0.7).is_empty());
}

#[test]
fn grid_cells_single_fills_area() {
    let cells = grid(rect(40, 20), 1, 0.7);
    assert_eq!(cells.len(), 1);
    assert_eq!(cells[0], rect(40, 20));
}

#[test]
fn grid_cells_counts_match_and_cover() {
    for n in [2usize, 5, 17, 23] {
        for (w, h) in [(80u16, 24u16), (100, 40), (30, 12)] {
            let area = rect(w, h);
            let cells = grid(area, n, 0.707);
            assert_eq!(cells.len(), n, "n={n} {w}x{h}");
            for c in &cells {
                assert!(c.x >= area.x && c.y >= area.y);
                assert!(c.x + c.width <= area.x + area.width);
                assert!(c.y + c.height <= area.y + area.height);
                assert!(c.width > 0 && c.height > 0);
            }
            assert_eq!((cells[0].x, cells[0].y), (0, 0));
        }
    }
}

#[test]
fn grid_cells_tiling_is_rectangular() {
    let cells = grid(rect(80, 24), 7, 0.707);
    let cols = cells.iter().filter(|c| c.y == 0).count();
    assert!(cols >= 1);
    assert_eq!(cells.len(), 7);
    for c in &cells {
        assert!(c.width > 0 && c.height > 0);
    }
}

#[test]
fn grid_cells_portrait_prefers_more_columns_than_landscape() {
    let area = rect(100, 40);
    let portrait = grid(area, 6, 0.707);
    let landscape = grid(area, 6, 1.8);
    let cols_of = |cells: &[Rect]| cells.iter().filter(|c| c.y == 0).count();
    assert!(cols_of(&portrait) >= cols_of(&landscape));
}

#[test]
fn grid_cells_last_cell_absorbs_remainder() {
    let area = rect(80, 24);
    let cells = grid(area, 3, 0.707);
    let max_y = cells.iter().map(|c| c.y + c.height).max().unwrap();
    assert_eq!(max_y, area.height);
    let max_x = cells.iter().map(|c| c.x + c.width).max().unwrap();
    assert_eq!(max_x, area.width);
}

// --------------------------------------------------------------------- layout

#[test]
fn panes_fill_the_screen() {
    let whole = rect(100, 40);
    let r = layout(whole);
    assert_eq!(r.whole, whole);
    assert_eq!(r.footer.height, 1);
    assert_eq!(r.footer.y, 39);
    assert_eq!(r.preview_inner, inner(r.preview));
    assert_eq!(r.sidebar.x, 0);
    assert_eq!(r.preview.x, r.sidebar.width);
    assert_eq!(r.sidebar.width + r.preview.width, 100);
    assert_eq!(r.sidebar.height + r.status.height, 39);
    assert_eq!(r.sidebar, at(0, 0, 30, 27));
    assert_eq!(r.status, at(0, 27, 30, 12));
    assert_eq!(r.preview, at(30, 0, 70, 21));
    assert_eq!(r.text, at(30, 21, 70, 18));
}

/// `percent` of a number of cells, to the nearest one.
fn part(cells: u16, percent: u32) -> u16 {
    ((u32::from(cells) * percent + 50) / 100) as u16
}

fn assert_panes(whole: Rect) {
    let Rect { x, y, width, height } = whole;
    let body = if height >= 4 { height - 1 } else { height };
    let left = part(width, 30);
    let pages = part(body, 70);
    let preview = part(body, 55);
    let r = layout(whole);
    assert_eq!(r.footer, at(x, y + body, width, height - body), "{whole:?}");
    assert_eq!(r.sidebar, at(x, y, left, pages), "{whole:?}");
    assert_eq!(r.status, at(x, y + pages, left, body - pages), "{whole:?}");
    assert_eq!(r.preview, at(x + left, y, width - left, preview), "{whole:?}");
    assert_eq!(r.text, at(x + left, y + preview, width - left, body - preview), "{whole:?}");
}

#[test]
fn panes_fit_narrow_and_wide_screens() {
    for width in 0..400 {
        assert_panes(at(0, 0, width, 24));
        assert_panes(at(7, 3, width, 50));
    }
    for width in [1000, 4095, 20001, 65535] {
        assert_panes(at(0, 0, width, 9));
    }
}

#[test]
fn panes_fit_low_and_high_screens() {
    for height in 0..400 {
        assert_panes(at(0, 0, 80, height));
        assert_panes(at(11, 5, 131, height));
    }
    for height in [1000, 4095, 20001, 65535] {
        assert_panes(at(0, 0, 80, height));
    }
    assert_panes(at(60000, 65000, 5535, 535));
}

#[test]
fn clicks_find_their_pane() {
    let mut app = App::new(Config::default());
    assert!(hit_test(&app, (1, 1)).is_none());
    let r = layout(rect(100, 40));
    app.pane_rects = Some(r);
    assert_eq!(hit_test(&app, (r.sidebar.x, r.sidebar.y)), Some(Pane::Sidebar));
    assert_eq!(hit_test(&app, (r.preview.x, r.preview.y)), Some(Pane::Preview));
    assert_eq!(hit_test(&app, (r.text.x, r.text.y)), Some(Pane::Text));
    assert_eq!(hit_test(&app, (r.footer.x, r.footer.y)), None);
    assert_eq!(sidebar_index_at(&app, (r.sidebar.x + 1, r.sidebar.y + 3)), Some(2));
    assert_eq!(sidebar_index_at(&app, (r.sidebar.x + 1, r.sidebar.y)), None);
    app.preview_cells = vec![(4, at(50, 5, 10, 10)), (9, at(60, 5, 10, 10))];
    assert_eq!(preview_cell_at(&app, (60, 14)), Some(9));
    assert_eq!(preview_cell_at(&app, (60, 15)), None);
}

#[test]
fn logs_show_their_end() {
    assert_eq!(scroll_bottom(3, 10), 0);
    assert_eq!(scroll_bottom(30, 10), 20);
}

// -------------------------------------------------------------------- outline

#[test]
fn outlines_mark_the_edges() {
    let bands = outline_bands((40, 30), (2, 3, 20, 10), 2);
    let on = |x: u32, y: u32| {
        bands.iter().any(|b: &Band| b.x0 <= x && x <= b.x1 && b.y0 <= y && y <= b.y1)
    };
    for (x, y) in [(2, 3), (21, 12), (3, 8), (20, 8), (10, 4), (10, 11)] {
        assert!(on(x, y), "{x},{y}");
    }
    for (x, y) in [(1, 3), (22, 8), (10, 13), (10, 8), (4, 5), (19, 10)] {
        assert!(!on(x, y), "{x},{y}");
    }
    assert!(outline_bands((40, 30), (0, 0, 0, 5), 2).is_empty());
    // Beyond the image: cut off at its edge.
    let bands = outline_bands((40, 30), (35, 25, 100, 100), 2);
    assert!(bands.iter().all(|b| b.x1 < 40 && b.y1 < 30));
}
