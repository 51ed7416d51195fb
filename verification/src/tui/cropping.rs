//! What the keys and the mouse do to the crop rectangle.

use vstd::prelude::*;

use crate::tui::editor;
use crate::tui::editor::{EditorReply, EditorState, ImageRect};
use crate::tui::input::{Key, KeyCode, MouseKind, Rect};

verus! {

// ----------------------------------------------------------------------- keys

/// A fiftieth of the longer side of an image, at least one pixel.
pub open spec fn fiftieth(orig: (u32, u32)) -> int {
    let long = if orig.0 >= orig.1 {
        orig.0 as int
    } else {
        orig.1 as int
    };
    if long >= 50 {
        long / 50
    } else {
        1
    }
}

/// A rectangle with pixels, inside an image.
pub open spec fn lies_in(r: ImageRect, orig: (u32, u32)) -> bool {
    r.w > 0 && r.h > 0 && r.x + r.w <= orig.0 && r.y + r.h <= orig.1
}

/// The rectangle after a key: nothing else changes, but that a pending
/// question is forgotten.
pub open spec fn key_changes_crop(
    s: EditorState,
    key: Key,
    orig: (u32, u32),
    ready: bool,
    q: ImageRect,
) -> bool {
    let (t, reply) = editor::key_pressed(s, key, orig, ready);
    &&& reply == EditorReply::Nothing
    &&& t.crop == Some(q)
    &&& t.page_id == s.page_id
    &&& t.drag == s.drag
    &&& !t.esc_pending
}

/// With room on all sides, `j` and Down take the rectangle down by a fiftieth
/// of the longer side of the image, `k` and Up take it up, `l` and Right take
/// it right, `h` and Left take it left; its size stays, and so does its place
/// in the other direction.
pub proof fn law_keys_move(
    s: EditorState,
    r: ImageRect,
    key: Key,
    orig: (u32, u32),
    ready: bool,
)
    requires
        s.crop == Some(r),
        lies_in(r, orig),
        r.x >= fiftieth(orig),
        r.y >= fiftieth(orig),
        r.x + r.w + fiftieth(orig) <= orig.0,
        r.y + r.h + fiftieth(orig) <= orig.1,
    ensures
        key.code == KeyCode::Down || (key.code == KeyCode::Char('j') && !key.alt)
            ==> key_changes_crop(
            s,
            key,
            orig,
            ready,
            (ImageRect { x: r.x, y: (r.y + fiftieth(orig)) as u32, w: r.w, h: r.h }),
        ),
        key.code == KeyCode::Up || (key.code == KeyCode::Char('k') && !key.alt)
            ==> key_changes_crop(
            s,
            key,
            orig,
            ready,
            (ImageRect { x: r.x, y: (r.y - fiftieth(orig)) as u32, w: r.w, h: r.h }),
        ),
        key.code == KeyCode::Right || (key.code == KeyCode::Char('l') && !key.alt)
            ==> key_changes_crop(
            s,
            key,
            orig,
            ready,
            (ImageRect { x: (r.x + fiftieth(orig)) as u32, y: r.y, w: r.w, h: r.h }),
        ),
        key.code == KeyCode::Left || (key.code == KeyCode::Char('h') && !key.alt)
            ==> key_changes_crop(
            s,
            key,
            orig,
            ready,
            (ImageRect { x: (r.x - fiftieth(orig)) as u32, y: r.y, w: r.w, h: r.h }),
        ),
{
}

/// Where there is less room, the rectangle goes as far as the image does, and
/// keeps its size.
pub proof fn law_keys_move_to_border(
    s: EditorState,
    r: ImageRect,
    key: Key,
    orig: (u32, u32),
    ready: bool,
)
    requires
        s.crop == Some(r),
        lies_in(r, orig),
        !key.alt,
    ensures
        ({
            let q = editor::key_pressed(s, key, orig, ready).0.crop->0;
            let step = fiftieth(orig);
            &&& (key.code == KeyCode::Down || key.code == KeyCode::Char('j')) && r.y + r.h + step
                >= orig.1 ==> q.y + q.h == orig.1 && q.x == r.x && q.w == r.w && q.h == r.h
            &&& (key.code == KeyCode::Up || key.code == KeyCode::Char('k')) && r.y <= step ==> q.y
                == 0 && q.x == r.x && q.w == r.w && q.h == r.h
            &&& (key.code == KeyCode::Right || key.code == KeyCode::Char('l')) && r.x + r.w + step
                >= orig.0 ==> q.x + q.w == orig.0 && q.y == r.y && q.w == r.w && q.h == r.h
            &&& (key.code == KeyCode::Left || key.code == KeyCode::Char('h')) && r.x <= step
                ==> q.x == 0 && q.y == r.y && q.w == r.w && q.h == r.h
        }),
{
}

/// Capitals grow the rectangle by a fiftieth of the longer side of the image:
/// `H` at its left edge, `L` at its right, `K` at its top, `J` at its bottom,
/// as far as the image goes. The other edges stay.
pub proof fn law_keys_grow(
    s: EditorState,
    r: ImageRect,
    key: Key,
    orig: (u32, u32),
    ready: bool,
)
    requires
        s.crop == Some(r),
        lies_in(r, orig),
    ensures
        ({
            let q = editor::key_pressed(s, key, orig, ready).0.crop->0;
            let step = fiftieth(orig);
            &&& key.code == KeyCode::Char('H') ==> {
                &&& q.x == (if r.x >= step {
                    r.x - step
                } else {
                    0
                })
                &&& q.x + q.w == r.x + r.w
                &&& q.y == r.y && q.h == r.h
            }
            &&& key.code == KeyCode::Char('L') ==> {
                &&& q.x == r.x
                &&& q.x + q.w == (if r.x + r.w + step <= orig.0 {
                    r.x + r.w + step
                } else {
                    orig.0 as int
                })
                &&& q.y == r.y && q.h == r.h
            }
            &&& key.code == KeyCode::Char('K') ==> {
                &&& q.y == (if r.y >= step {
                    r.y - step
                } else {
                    0
                })
                &&& q.y + q.h == r.y + r.h
                &&& q.x == r.x && q.w == r.w
            }
            &&& key.code == KeyCode::Char('J') ==> {
                &&& q.y == r.y
                &&& q.y + q.h == (if r.y + r.h + step <= orig.1 {
                    r.y + r.h + step
                } else {
                    orig.1 as int
                })
                &&& q.x == r.x && q.w == r.w
            }
        }),
{
}

/// With Alt, the small letters shrink the rectangle by a fiftieth of the
/// longer side of the image: `h` at its left edge, `l` at its right, `k` at
/// its top, `j` at its bottom, down to one pixel. The other edges stay.
pub proof fn law_keys_shrink(
    s: EditorState,
    r: ImageRect,
    key: Key,
    orig: (u32, u32),
    ready: bool,
)
    requires
        s.crop == Some(r),
        lies_in(r, orig),
        key.alt,
    ensures
        ({
            let q = editor::key_pressed(s, key, orig, ready).0.crop->0;
            let step = fiftieth(orig);
            let w = if r.w > step {
                r.w - step
            } else {
                1
            };
            let h = if r.h > step {
                r.h - step
            } else {
                1
            };
            &&& key.code == KeyCode::Char('h') ==> q.w == w && q.x + q.w == r.x + r.w && q.y == r.y
                && q.h == r.h
            &&& key.code == KeyCode::Char('l') ==> q.w == w && q.x == r.x && q.y == r.y && q.h
                == r.h
            &&& key.code == KeyCode::Char('k') ==> q.h == h && q.y + q.h == r.y + r.h && q.x == r.x
                && q.w == r.w
            &&& key.code == KeyCode::Char('j') ==> q.h == h && q.y == r.y && q.x == r.x && q.w
                == r.w
        }),
{
}

/// `c` begins with a rectangle in the middle of the image, a fifth of each
/// side away from its borders, once the image is there; where there is a
/// rectangle and no question is pending, `c` takes it away, and a drag with
/// it.
pub proof fn law_c_switches_tool(s: EditorState, key: Key, orig: (u32, u32), ready: bool)
    requires
        key.code == KeyCode::Char('c'),
        !key.ctrl,
        orig.0 > 0,
        orig.1 > 0,
    ensures
        ({
            let (t, reply) = editor::key_pressed(s, key, orig, ready);
            &&& t.page_id == s.page_id
            &&& s.crop is None && ready ==> {
                &&& reply == EditorReply::Nothing
                &&& t.crop is Some
                &&& lies_in(t.crop->0, orig)
                &&& t.crop->0.x == orig.0 / 5
                &&& t.crop->0.y == orig.1 / 5
                &&& t.crop->0.x + t.crop->0.w + t.crop->0.x == orig.0
                &&& t.crop->0.y + t.crop->0.h + t.crop->0.y == orig.1
                &&& !t.esc_pending
            }
            &&& s.crop is None && !ready ==> t == s && reply == EditorReply::StillDecoding
            &&& s.crop is Some && !s.esc_pending ==> t.crop is None && t.drag is None && reply
                == EditorReply::Nothing
        }),
{
}

/// Enter asks about the rectangle that is there, for the page that is edited,
/// and changes nothing; Esc and `q` ask before a rectangle goes, and leave
/// the editor where there is none; `?` and `!` call for help and diagnostics;
/// Ctrl-C leaves the program.
pub proof fn law_editor_keys(s: EditorState, key: Key, orig: (u32, u32), ready: bool)
    ensures
        ({
            let (t, reply) = editor::key_pressed(s, key, orig, ready);
            &&& key.code == KeyCode::Enter ==> t == s && reply == (match s.crop {
                Some(r) => EditorReply::Confirm(s.page_id, r),
                None => EditorReply::NoCrop,
            })
            &&& key.code == KeyCode::Esc || key.code == KeyCode::Char('q') ==> {
                &&& t.crop == s.crop
                &&& s.crop is None ==> reply == EditorReply::Close
                &&& s.crop is Some && s.esc_pending ==> reply == EditorReply::Close
                &&& s.crop is Some && !s.esc_pending ==> reply == EditorReply::AskDiscard
                    && t.esc_pending
            }
            &&& key.code == KeyCode::Char('?') ==> t == s && reply == EditorReply::Help
            &&& key.code == KeyCode::Char('!') ==> t == s && reply == EditorReply::Diagnostics
            &&& key.ctrl && key.code == KeyCode::Char('c') ==> t == s && reply == EditorReply::Quit
            &&& s.crop is None && !(key.code is Enter || key.code is Esc || key.code is Char) ==> t
                == s && reply == EditorReply::Nothing
        }),
{
}

/// What the editor says, and that it says nothing else.
pub proof fn law_editor_says(r: EditorReply)
    ensures
        editor::reply_text(EditorReply::AskDiscard) == Some(
            "discard crop? Esc again to discard, c to keep"@,
        ),
        editor::reply_text(EditorReply::StillDecoding) == Some("image still decoding"@),
        editor::reply_text(EditorReply::NoCrop) == Some(
            "no crop rect - press c to start cropping"@,
        ),
        editor::reply_text(r) is Some <==> r is AskDiscard || r is StillDecoding || r is NoCrop,
{
}

/// The editor begins with the tool off, on the page that it was opened for. A
/// rectangle that does not fit an image of another size goes; one that fits
/// stays as it is.
pub proof fn law_editor_begins(s: EditorState, id: u32, orig: (u32, u32))
    ensures
        editor::opened(id).page_id == id,
        editor::opened(id).crop is None,
        editor::opened(id).drag is None,
        !editor::opened(id).esc_pending,
        editor::shrunk(s, orig).page_id == s.page_id,
        s.crop matches Some(r) && lies_in(r, orig) ==> editor::shrunk(s, orig) == s,
        s.crop matches Some(r) && !lies_in(r, orig) ==> editor::shrunk(s, orig).crop is None
            && editor::shrunk(s, orig).drag is None && !editor::shrunk(s, orig).esc_pending,
{
}

// ---------------------------------------------------------------------- mouse

/// Pressing the button outside the rectangle, or where there is none, and
/// letting it go at another pixel draws the rectangle that has both pixels as
/// its corners. A pending question is forgotten.
pub proof fn law_mouse_draws(
    s: EditorState,
    p: (u32, u32),
    q: (u32, u32),
    tolerance: u32,
    orig: (u32, u32),
)
    requires
        s.drag is None,
        s.crop matches Some(r) ==> !(r.x <= p.0 < r.x + r.w && r.y <= p.1 < r.y + r.h) && lies_in(
            r,
            orig,
        ),
        p.0 < orig.0 && p.1 < orig.1,
        q.0 < orig.0 && q.1 < orig.1,
    ensures
        ({
            let down = editor::mouse_moved(s, MouseKind::DownLeft, Some(p), tolerance, orig);
            let dragging = editor::mouse_moved(down, MouseKind::DragLeft, Some(q), tolerance, orig);
            let up = editor::mouse_moved(down, MouseKind::UpLeft, Some(q), tolerance, orig);
            let r = up.crop->0;
            &&& down.crop == Some(ImageRect { x: p.0, y: p.1, w: 1, h: 1 })
            &&& dragging.crop == up.crop
            &&& dragging.drag is Some
            &&& up.drag is None
            &&& !down.esc_pending && !up.esc_pending
            &&& up.crop is Some
            &&& up.page_id == s.page_id
            &&& r.x == (if p.0 <= q.0 {
                p.0
            } else {
                q.0
            })
            &&& r.y == (if p.1 <= q.1 {
                p.1
            } else {
                q.1
            })
            &&& r.x + r.w - 1 == (if p.0 <= q.0 {
                q.0
            } else {
                p.0
            })
            &&& r.y + r.h - 1 == (if p.1 <= q.1 {
                q.1
            } else {
                p.1
            })
        }),
{
}

/// A pixel is on the left edge of a rectangle that it lies in exactly when it
/// is fewer pixels away from it than the tolerance says, and so for the other
/// edges; the tolerance is at least one pixel, and at most the side.
pub proof fn law_what_is_an_edge(
    r: ImageRect,
    p: (u32, u32),
    tolerance: u32,
    orig: (u32, u32),
)
    requires
        lies_in(r, orig),
    ensures
        ({
            let hit = editor::edges_hit(r, p, tolerance);
            let in_it = r.x <= p.0 < r.x + r.w && r.y <= p.1 < r.y + r.h;
            let t = if tolerance >= 1 {
                tolerance as int
            } else {
                1
            };
            let left = p.0 - r.x < t;
            let top = p.1 - r.y < t;
            let right = r.x + r.w - 1 - p.0 < t;
            let bottom = r.y + r.h - 1 - p.1 < t;
            &&& !in_it ==> hit is None
            &&& in_it && !(left || top || right || bottom) ==> hit is None
            &&& in_it && (left || top || right || bottom) ==> hit == Some(
                (left, top, right, bottom),
            )
        }),
{
}

/// Dragging an edge takes it to the pixel under the mouse, as long as it does
/// not pass the opposite edge; the edges that were not grabbed stay.
pub proof fn law_mouse_resizes(
    s: EditorState,
    r: ImageRect,
    p: (u32, u32),
    q: (u32, u32),
    tolerance: u32,
    orig: (u32, u32),
)
    requires
        s.crop == Some(r),
        s.drag is None,
        lies_in(r, orig),
        editor::edges_hit(r, p, tolerance) is Some,
        q.0 < orig.0 && q.1 < orig.1,
    ensures
        ({
            let e = editor::edges_hit(r, p, tolerance)->0;
            let down = editor::mouse_moved(s, MouseKind::DownLeft, Some(p), tolerance, orig);
            let up = editor::mouse_moved(down, MouseKind::UpLeft, Some(q), tolerance, orig);
            let n = up.crop->0;
            &&& down.crop == s.crop
            &&& up.crop is Some
            &&& up.drag is None
            &&& !down.esc_pending && !up.esc_pending
            &&& e.0 && !e.2 && q.0 <= r.x + r.w - 1 ==> n.x == q.0 && n.x + n.w == r.x + r.w
            &&& e.2 && !e.0 && q.0 >= r.x ==> n.x == r.x && n.x + n.w - 1 == q.0
            &&& e.1 && !e.3 && q.1 <= r.y + r.h - 1 ==> n.y == q.1 && n.y + n.h == r.y + r.h
            &&& e.3 && !e.1 && q.1 >= r.y ==> n.y == r.y && n.y + n.h - 1 == q.1
            &&& !e.0 && !e.2 ==> n.x == r.x && n.w == r.w
            &&& !e.1 && !e.3 ==> n.y == r.y && n.h == r.h
        }),
{
}

/// Dragging from inside takes the rectangle along by as many pixels as the
/// mouse has moved, as far as the image goes; its size stays.
pub proof fn law_mouse_moves(
    s: EditorState,
    r: ImageRect,
    p: (u32, u32),
    q: (u32, u32),
    tolerance: u32,
    orig: (u32, u32),
)
    requires
        s.crop == Some(r),
        s.drag is None,
        lies_in(r, orig),
        r.x <= p.0 < r.x + r.w,
        r.y <= p.1 < r.y + r.h,
        editor::edges_hit(r, p, tolerance) is None,
    ensures
        ({
            let down = editor::mouse_moved(s, MouseKind::DownLeft, Some(p), tolerance, orig);
            let up = editor::mouse_moved(down, MouseKind::UpLeft, Some(q), tolerance, orig);
            let n = up.crop->0;
            let x = r.x + q.0 - p.0;
            let y = r.y + q.1 - p.1;
            &&& down.crop == s.crop
            &&& up.crop is Some
            &&& up.drag is None
            &&& !down.esc_pending && !up.esc_pending
            &&& n.w == r.w && n.h == r.h
            &&& 0 <= x && x + r.w <= orig.0 ==> n.x == x
            &&& x < 0 ==> n.x == 0
            &&& x + r.w > orig.0 ==> n.x + n.w == orig.0
            &&& 0 <= y && y + r.h <= orig.1 ==> n.y == y
            &&& y < 0 ==> n.y == 0
            &&& y + r.h > orig.1 ==> n.y + n.h == orig.1
        }),
{
}

/// Away from the image the mouse changes no rectangle: pressing or letting go
/// there ends a drag. Without a drag, moving the mouse does nothing, and
/// neither does the wheel.
pub proof fn law_mouse_off_image(
    s: EditorState,
    p: Option<(u32, u32)>,
    tolerance: u32,
    orig: (u32, u32),
)
    ensures
        editor::mouse_moved(s, MouseKind::DownLeft, None, tolerance, orig) == (EditorState {
            drag: None,
            ..s
        }),
        editor::mouse_moved(s, MouseKind::UpLeft, None, tolerance, orig) == (EditorState {
            drag: None,
            ..s
        }),
        editor::mouse_moved(s, MouseKind::DragLeft, None, tolerance, orig) == s,
        s.drag is None ==> editor::mouse_moved(s, MouseKind::DragLeft, p, tolerance, orig) == s,
        editor::mouse_moved(s, MouseKind::ScrollUp, p, tolerance, orig) == s,
        editor::mouse_moved(s, MouseKind::ScrollDown, p, tolerance, orig) == s,
        editor::mouse_moved(s, MouseKind::Other, p, tolerance, orig) == s,
{
}

/// Corners beyond the image are taken at its border: what is drawn is a
/// rectangle of the image, and reaches its border where a corner lies beyond.
pub proof fn law_corners_are_held(a: (u32, u32), b: (u32, u32), orig: (u32, u32))
    requires
        orig.0 > 0,
        orig.1 > 0,
    ensures
        ({
            let r = editor::spanned(a, b, orig);
            &&& lies_in(r, orig)
            &&& a.0 >= orig.0 || b.0 >= orig.0 ==> r.x + r.w == orig.0
            &&& a.1 >= orig.1 || b.1 >= orig.1 ==> r.y + r.h == orig.1
            &&& a.0 < orig.0 && b.0 < orig.0 ==> r.x <= a.0 && r.x <= b.0 && (r.x == a.0 || r.x
                == b.0)
            &&& a.1 < orig.1 && b.1 < orig.1 ==> r.y <= a.1 && r.y <= b.1 && (r.y == a.1 || r.y
                == b.1)
        }),
{
}

// --------------------------------------------------------------------- layout

/// The image has the terminal but for one column on each side, two rows above
/// and two below.
pub proof fn law_editor_space(whole: Rect)
    requires
        whole.ok(),
        whole.width >= 2,
        whole.height >= 5,
    ensures
        ({
            let a = editor::area_of(whole);
            &&& a.x == whole.x + 1
            &&& a.x + a.width == whole.x + whole.width - 1
            &&& a.y == whole.y + 2
            &&& a.y + a.height == whole.y + whole.height - 2
        }),
{
}

} // verus!
