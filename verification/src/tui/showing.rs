//! What the screen shows, of which state.

use vstd::prelude::*;
use vstd::utf8::*;

use crate::check::{CheckItemView, ReportView, Status};
use crate::config::{PreviewOcr, PROGRAM};
use crate::notify;
use crate::notify::Urgency;
use crate::session::model::PageShown;
use crate::session::{Busy, PageId, PageStatus, Stage};
use crate::text;
use crate::tui::app::{Action, Pane};
use crate::tui::dialogs;
use crate::tui::draw;
use crate::tui::editor;
use crate::tui::editor::ImageRect;
use crate::tui::input::Rect;
use crate::tui::model;
use crate::tui::model::AppModel;
use crate::tui::overlays;
use crate::tui::overlays::{ConfirmKindView, ConfirmView, LangPickerView, OverlayView};
use crate::tui::preview;
use crate::tui::preview::{
    Band, Cells, EditorImage, EncodeJob, EncodedFacts, Outline, ThumbsModel,
};
use crate::tui::theme;
use crate::tui::theme::{Color, Paint};
use crate::tui::ui;
use crate::tui::ui::Share;

verus! {

// ------------------------------------------------------------------ page list

/// The page list has a line for each page, in the order of the pages: its
/// number, counted from one and bold for the selected page; its state; the
/// settings that it was captured with; and a mark where it was turned.
pub proof fn law_pages_are_listed(s: AppModel, now: u64, i: int)
    requires
        0 <= i < s.pages.len(),
    ensures
        ({
            let list = draw::sidebar(s, now);
            let line = list[i];
            let p = s.pages[i];
            &&& list.len() == s.pages.len()
            &&& line.len() == 5
            &&& line[0].text == (if i < 9 {
                " "@ + text::dec((i + 1) as nat)
            } else {
                text::dec((i + 1) as nat)
            }) + ". "@
            &&& line[0].paint == (if i == s.selected {
                Paint::Bold
            } else {
                Paint::Plain
            })
            &&& line[1] == draw::badge(p, now)
            &&& line[2].text == " "@
            &&& line[3].text == text::dec(p.dpi as nat) + "dpi "@ + p.mode
            &&& line[3].paint == Paint::Muted && line[4].paint == Paint::Rotated
            &&& line[4].text == (if p.rotated {
                " ↻"@
            } else {
                ""@
            })
        }),
{
    text::law_decimal((i + 1) as nat);
    text::law_decimal(((i + 1) / 10) as nat);
    reveal_strlit(" ");
    if i < 9 {
        assert(text::pad_left(text::dec((i + 1) as nat), 2, ' ') =~= " "@ + text::dec(
            (i + 1) as nat,
        ));
    } else {
        assert(text::pad_left(text::dec((i + 1) as nat), 2, ' ') =~= text::dec((i + 1) as nat));
    }
}

/// How the state of a page is shown: ready on green, failed on red, and a
/// page that is worked on with the name of its stage and the whole seconds
/// since the stage began.
pub proof fn law_states_are_shown(p: PageShown, now: u64, start: u64)
    ensures
        ({
            let b = draw::badge(p, now);
            let style = theme::style_of(b.paint);
            &&& p.status == PageStatus::Ready ==> b.text == " ready "@ && style.bg == Some(
                Color::Green,
            )
            &&& p.status == PageStatus::Failed ==> b.text == " FAILED "@ && style.bg == Some(
                Color::Red,
            )
            &&& p.status == PageStatus::DeletePending ==> b.text == " deleting "@
            &&& p.stage_started == Some(start) && start <= now && now - start < 1000 * 1000 ==> {
                let shown = text::pad_left(text::dec(((now - start) / 1000) as nat), 3, ' ');
                &&& p.status == PageStatus::Scanning ==> b.text == " "@ + "scanning"@ + " "@ + shown
                    + "s "@ && style.bg == Some(Color::Yellow)
                &&& p.status == PageStatus::Processing && p.stage == Some(Stage::Clean) ==> b.text
                    == " "@ + "cleaning"@ + " "@ + shown + "s "@
                &&& p.status == PageStatus::Processing && p.stage == Some(Stage::Ocr) ==> b.text
                    == " "@ + "ocr"@ + " "@ + shown + "s "@
            }
        }),
{
}

/// Without pages the list says how to capture the first one.
pub proof fn law_empty_list_helps(s: AppModel, now: u64)
    requires
        s.pages.len() == 0,
    ensures
        ({
            let list = draw::sidebar(s, now);
            &&& list.len() == 5
            &&& list[1][0].text == "No pages yet."@
            &&& list[3][0].text == "Press s to scan your first page."@
            &&& list[4][0].text == "Press ? for help, ! for diagnostics."@
        }),
{
}

// --------------------------------------------------------------------- header

/// The header begins with the program and the settings of the next capture,
/// and with a mark exactly where something is not saved; it ends with the
/// scanner. Where both fit, the scanner stands at the right end.
pub proof fn law_header_shows_settings(s: AppModel, width: u16)
    ensures
        ({
            let h = draw::header_line(s, width);
            let dirty = s.meta is Some && s.meta->0.dirty;
            &&& h.len() == 3
            &&& h[0].text == " "@ + PROGRAM@ + " "@ + text::dec(s.dpi as nat) + "dpi "@ + s.mode
                + " "@ + s.cfg.langs + (if dirty {
                " ●"@
            } else {
                ""@
            }) + " "@
            &&& h[2].text == s.device_label + " "@
            &&& draw::size16(h[0].text) + draw::size16(h[2].text) <= width ==> draw::size16(
                h[0].text,
            ) + h[1].text.len() + draw::size16(h[2].text) == width
            &&& forall|k: int| 0 <= k < h[1].text.len() ==> #[trigger] h[1].text[k] == ' '
        }),
{
}

/// The room that a text takes is counted in bytes; time that has not come yet
/// counts as none.
pub proof fn law_sizes_and_seconds(s: Seq<char>, start: u64, now: u64)
    requires
        encode_utf8(s).len() < 65536,
    ensures
        draw::size16(s) == encode_utf8(s).len(),
        start <= now ==> draw::seconds(Some(start), now) == (now - start) / 1000,
        start > now ==> draw::seconds(Some(start), now) == 0,
        draw::seconds(None, now) == 0,
{
}

// ----------------------------------------------------------------------- text

/// The text pane shows the text of the selected page, line by line.
pub proof fn law_text_is_shown(s: AppModel, t: Seq<char>, k: int)
    requires
        s.selected < s.pages.len(),
        s.pages[s.selected as int].text == Some(t),
        t.len() > 0,
        0 <= k < text::lines(t).len(),
    ensures
        draw::text_pane(s).len() == text::lines(t).len(),
        draw::text_pane(s)[k].text == text::lines(t)[k],
{
}

/// Where the selected page has no text, the pane says why: the capture
/// failed, with its error; the text is being read; reading is switched off;
/// reading failed for this image; or nothing was read yet.
pub proof fn law_missing_text_is_explained(s: AppModel)
    requires
        s.selected < s.pages.len(),
        s.pages[s.selected as int].text is None,
    ensures
        ({
            let p = s.pages[s.selected as int];
            let pane = draw::text_pane(s);
            let said = pane[0].text;
            let ready = p.status == PageStatus::Ready;
            &&& pane.len() == 1
            &&& p.status == PageStatus::Failed && p.error is Some ==> said == p.error->0
            &&& p.status != PageStatus::Failed && p.text_pending ==> said == "extracting text…"@
            &&& ready && !p.text_pending && s.cfg.preview_ocr == PreviewOcr::Off ==> said
                == "(preview OCR disabled)"@
            &&& ready && !p.text_pending && s.cfg.preview_ocr != PreviewOcr::Off && p.ocr_failed_gen
                == Some(p.image_gen) ==> said
                == "(preview OCR failed - rescan or rotate to retry)"@
            &&& ready && !p.text_pending && s.cfg.preview_ocr != PreviewOcr::Off && p.ocr_failed_gen
                != Some(p.image_gen) ==> said == "(no text extracted yet)"@
        }),
{
    reveal_strlit("");
}

/// The text is scrolled as far as wanted, but not past its end.
pub proof fn law_text_scrolls(wanted: nat, lines: nat, height: u16)
    requires
        lines < 65536,
    ensures
        ({
            let at = draw::scrolled(wanted, lines, height);
            &&& at <= wanted
            &&& lines <= height ==> at == 0
            &&& lines > height && wanted + height <= lines ==> at == wanted
            &&& lines > height && wanted + height > lines ==> at + height == lines
        }),
{
}

/// A text that does not fit is scrolled so that its last line is the last one
/// visible; one that fits is not scrolled.
pub proof fn law_end_is_visible(total: nat, height: nat)
    requires
        total < 65536,
    ensures
        total <= height ==> ui::end_offset(total, height) == 0,
        total > height ==> ui::end_offset(total, height) + height == total,
{
}

// --------------------------------------------------------------------- footer

/// While a capture is going on or the document is built, the footer begins by
/// saying so, with the whole seconds since it began; otherwise it does not.
pub proof fn law_work_is_announced(s: AppModel, now: u64, start: u64)
    requires
        s.meta is Some,
        s.meta->0.busy_since == Some(start),
        start <= now,
    ensures
        ({
            let f = draw::footer(s, now);
            let secs = text::dec(((now - start) / 1000) as nat);
            &&& s.meta->0.busy == Busy::Scanning ==> f[0].text == " SCANNING "@ + secs + "s "@
            &&& s.meta->0.busy == Busy::Finishing ==> f[0].text == " BUILDING PDF "@ + secs + "s "@
            &&& s.meta->0.busy == Busy::Idle && s.meta->0.jobs_running == 0 ==> f[0].text == " "@
                + "s"@
            &&& s.meta->0.busy == Busy::Idle && s.meta->0.jobs_running > 0 ==> f[0].text == " "@
                + text::dec(s.meta->0.jobs_running) + " processing "@
        }),
{
}

/// The piece of the footer with the `k`-th of its keys, where nothing is
/// going on.
pub open spec fn key_at(s: AppModel, now: u64, k: int) -> draw::SpanView {
    draw::footer(s, now)[2 * k]
}

/// The footer offers the keys for capturing, capturing again, turning,
/// deleting, moving, building and opening, in this order; a key is muted
/// exactly where it does nothing now. The settings follow.
pub proof fn law_keys_are_offered(s: AppModel, now: u64)
    requires
        s.meta is None,
    ensures
        key_at(s, now, 0) == draw::piece(" "@ + "s"@, if model::allowed(s, Action::Scan) {
            Paint::Accent
        } else {
            Paint::Muted
        }),
        key_at(s, now, 1) == draw::piece(" "@ + "r"@, if model::allowed(s, Action::Rescan) {
            Paint::Accent
        } else {
            Paint::Muted
        }),
        key_at(s, now, 2) == draw::piece(" "@ + "R"@, if model::allowed(s, Action::Rotate) {
            Paint::Accent
        } else {
            Paint::Muted
        }),
        key_at(s, now, 3) == draw::piece(" "@ + "d"@, if s.pages.len() > 0 {
            Paint::Accent
        } else {
            Paint::Muted
        }),
        key_at(s, now, 4) == draw::piece(" "@ + "J/K"@, if s.pages.len() > 0 {
            Paint::Accent
        } else {
            Paint::Muted
        }),
        key_at(s, now, 5) == draw::piece(" "@ + "f"@, if model::allowed(s, Action::Finish) {
            Paint::Accent
        } else {
            Paint::Muted
        }),
        key_at(s, now, 6) == draw::piece(" "@ + "o"@, if s.last_result is Some {
            Paint::Accent
        } else {
            Paint::Muted
        }),
        draw::footer(s, now)[15].text == " "@ + text::dec(s.dpi as nat) + "dpi ·"@,
        draw::footer(s, now)[17].text == " "@ + s.mode + " ·"@,
{
}

/// Behind each key the footer says what it is for, and at its end it names the
/// keys that always work.
pub proof fn law_keys_are_explained(s: AppModel, now: u64)
    requires
        s.meta is None,
    ensures
        ({
            let f = draw::footer(s, now);
            &&& f.len() == 26
            &&& f[1].text == " "@ + "scan"@ + " ·"@
            &&& f[3].text == " "@ + "rescan"@ + " ·"@
            &&& f[5].text == " "@ + "rotate"@ + " ·"@
            &&& f[7].text == " "@ + "del"@ + " ·"@
            &&& f[9].text == " "@ + "move"@ + " ·"@
            &&& f[11].text == " "@ + "finish"@ + " ·"@
            &&& f[13].text == " "@ + "open"@ + " ·"@
            &&& f[14].text == " +/-"@ && f[14].paint == Paint::Accent
            &&& f[16].text == " m"@ && f[16].paint == Paint::Accent
            &&& f[18].text == " Tab"@ && f[19].text == " pane · "@
            &&& f[20].text == "?"@ && f[21].text == " help · "@
            &&& f[22].text == "!"@ && f[23].text == " diag · "@
            &&& f[24].text == "q"@ && f[25].text == " quit"@
        }),
{
}

/// Deleting and moving are possible where there are pages, opening where a
/// document was built, and the settings can be changed unless the document
/// is being built.
pub proof fn law_what_is_possible(s: AppModel)
    ensures
        model::allowed(s, Action::Delete) <==> s.pages.len() > 0,
        model::allowed(s, Action::Reorder) <==> s.pages.len() > 0,
        model::allowed(s, Action::Open) <==> s.last_result is Some,
        model::allowed(s, Action::Settings) <==> !(s.meta is Some && s.meta->0.busy
            == Busy::Finishing),
        model::allowed(s, Action::Cancel) <==> s.meta is Some && s.meta->0.busy == Busy::Scanning,
{
}

// -------------------------------------------------------------------- preview

/// What stands in a cell without a picture.
pub proof fn law_missing_picture_is_explained(p: PageShown)
    ensures
        p.status == PageStatus::Ready ==> draw::hint(p) == "no image"@,
        p.status == PageStatus::Scanning ==> draw::hint(p) == "scanning…"@,
        p.status == PageStatus::Failed ==> draw::hint(p) == "failed"@,
        p.status == PageStatus::DeletePending ==> draw::hint(p) == "deleting…"@,
        p.status == PageStatus::Processing && p.stage == Some(Stage::Clean) ==> draw::hint(p)
            == "cleaning"@ + "…"@,
        p.status == PageStatus::Processing && p.stage == Some(Stage::Ocr) ==> draw::hint(p)
            == "ocr"@ + "…"@,
{
}

/// A cell of more than four columns says why it has no picture, by the page
/// that it belongs to; a smaller one says nothing.
pub proof fn law_cells_explain_their_page(s: AppModel, i: int, width: u16)
    requires
        0 <= i < s.pages.len(),
        model::place_of(s.pages, s.pages[i].id) == Some(i),
    ensures
        width > 4 ==> draw::cell_text(s, s.pages[i].id, width) == draw::hint(s.pages[i]),
        width <= 4 ==> draw::cell_text(s, s.pages[i].id, width) == ""@,
{
}

/// A cell is titled with the number of its page; the title stands out for the
/// selected page, as that of a pane does for the pane with the focus.
pub proof fn law_titles(id: PageId, title: Seq<char>, chosen: bool)
    ensures
        draw::cell_name(id, chosen).text == " "@ + text::dec(id as nat) + " "@,
        draw::pane_name(title, chosen).text == " "@ + title + " "@,
        draw::cell_name(id, true).paint == Paint::AccentBold,
        draw::cell_name(id, false).paint == Paint::Muted,
        draw::pane_name(title, true).paint == Paint::AccentBold,
        draw::pane_name(title, false).paint == Paint::Muted,
        Pane::Sidebar.name() == "Pages"@,
        Pane::Preview.name() == "Preview"@,
        Pane::Text.name() == "Extracted text"@,
{
}

/// A decoded image is the thumbnail of its page from then on, and its page is
/// not being decoded any more; one that could not be decoded is remembered as
/// such, and the thumbnail stays as it was. Nothing changes for other pages.
pub proof fn law_decodes_end(m: ThumbsModel, id: PageId, path: Seq<u8>, gen: u32, other: PageId)
    requires
        other != id,
    ensures
        ({
            let good = preview::decoded(m, id, path, gen);
            let bad = preview::undecodable(m, id, path, gen);
            &&& good.thumbs.dom().contains(id) && good.thumbs[id] == (path, gen)
            &&& !good.decoding.contains(id) && !bad.decoding.contains(id)
            &&& good.failed == m.failed
            &&& bad.thumbs == m.thumbs
            &&& bad.failed == m.failed.insert((path, gen))
            &&& good.thumbs.dom().contains(other) == m.thumbs.dom().contains(other)
            &&& m.thumbs.dom().contains(other) ==> good.thumbs[other] == m.thumbs[other]
            &&& good.decoding.contains(other) == m.decoding.contains(other)
            &&& bad.decoding.contains(other) == m.decoding.contains(other)
        }),
{
}

proof fn lemma_started_order(m: ThumbsModel, pages: Seq<PageShown>, k: int)
    requires
        0 <= k < preview::started(m, pages).1.len(),
    ensures
        exists|i: int|
            0 <= i < pages.len() && (#[trigger] pages[i]).id == preview::started(m, pages).1[k].0
                && pages[i].image == Some(preview::started(m, pages).1[k].1) && pages[i].image_gen
                == preview::started(m, pages).1[k].2,
    decreases pages.len(),
{
    let init = pages.drop_last();
    let (decoding, list) = preview::started(m, init);
    if k < list.len() {
        lemma_started_order(m, init, k);
        let i = choose|i: int|
            0 <= i < init.len() && (#[trigger] init[i]).id == list[k].0 && init[i].image == Some(
                list[k].1,
            ) && init[i].image_gen == list[k].2;
        assert(pages[i] == init[i]);
    } else {
        assert(pages[pages.len() - 1] == pages.last());
    }
}

/// What is decoded is the current image of a page that is shown.
pub proof fn law_current_images_are_decoded(m: ThumbsModel, pages: Seq<PageShown>, k: int)
    requires
        0 <= k < preview::reconciled(m, pages).1.len(),
    ensures
        ({
            let d = preview::reconciled(m, pages).1[k];
            exists|i: int|
                0 <= i < pages.len() && (#[trigger] pages[i]).id == d.0 && pages[i].image == Some(
                    d.1,
                ) && pages[i].image_gen == d.2
        }),
{
    lemma_started_order(m, pages, k);
}

/// A thumbnail whose page is still shown with an image is kept.
pub proof fn law_thumbnails_are_kept(m: ThumbsModel, pages: Seq<PageShown>, i: int)
    requires
        0 <= i < pages.len(),
        pages[i].image is Some,
        m.thumbs.dom().contains(pages[i].id),
    ensures
        preview::reconciled(m, pages).0.thumbs.dom().contains(pages[i].id),
        preview::reconciled(m, pages).0.thumbs[pages[i].id] == m.thumbs[pages[i].id],
{
    assert(preview::has_image(pages[i], pages[i].id));
}

/// Thumbnails are encoded only for cells that show one and need it.
pub proof fn law_needed_encodes(m: ThumbsModel, cells: Seq<(PageId, Rect)>, needs: Seq<bool>, k: int)
    requires
        cells.len() == needs.len(),
        0 <= k < preview::kicks(m, cells, needs).len(),
    ensures
        ({
            let i = preview::kicks(m, cells, needs)[k];
            0 <= i < cells.len() && needs[i] && m.thumbs.dom().contains(cells[i].0)
                && cells[i].1.width > 0 && cells[i].1.height > 0
        }),
    decreases cells.len(),
{
    lemma_needed_encodes(m, cells, needs, k);
}

proof fn lemma_needed_encodes(
    m: ThumbsModel,
    cells: Seq<(PageId, Rect)>,
    needs: Seq<bool>,
    k: int,
)
    requires
        cells.len() <= needs.len(),
        0 <= k < preview::kicks(m, cells, needs).len(),
    ensures
        ({
            let i = preview::kicks(m, cells, needs)[k];
            0 <= i < cells.len() && needs[i] && m.thumbs.dom().contains(cells[i].0)
                && cells[i].1.width > 0 && cells[i].1.height > 0
        }),
    decreases cells.len(),
{
    let init = cells.drop_last();
    if k < preview::kicks(m, init, needs).len() {
        lemma_needed_encodes(m, init, needs, k);
    }
}

// --------------------------------------------------------------- editor image

/// The image of the editor is decoded unless this very image is on display;
/// once decoded it is the one that is displayed, nothing of the image before
/// it is left, and encodes of that one no longer count.
pub proof fn law_editor_image_is_current(
    s: EditorImage,
    path: Seq<u8>,
    gen: u32,
    orig: (u32, u32),
)
    ensures
        preview::needs_decode(s, path, gen) <==> !(s.display && s.path == Some(path) && s.gen
            == gen),
        ({
            let t = preview::adopted(s, path, gen, orig);
            &&& !preview::needs_decode(t, path, gen)
            &&& t.orig_dims == orig
            &&& t.base && !t.in_flight && t.queued is None
            &&& t.encoded_size is None && t.shown_outline is None
            &&& t.epoch != s.epoch
        }),
{
}

/// An encode that is asked for begins at once where none is going on: of the
/// current image, in the size and with the outline that were asked for. One
/// that is already displayed, or has no size, does not begin.
pub proof fn law_encode_begins(s: EditorImage, cells: Cells, outline: Option<Outline>)
    ensures
        ({
            let (t, job) = preview::encode_asked(s, cells, outline);
            let shown = s.encoded_size == Some(cells) && s.shown_outline == outline;
            let sized = cells.width > 0 && cells.height > 0;
            &&& s.base && !s.in_flight && s.queued is None && sized && !shown ==> {
                &&& job == Some(EncodeJob { epoch: s.epoch, cells, outline })
                &&& t.in_flight
            }
            &&& !sized || shown ==> job is None && t == s
            &&& s.in_flight && sized && !shown ==> job is None && t.queued is Some
                && t.queued->0.cells == cells && t.queued->0.outline == outline
        }),
{
}

/// Once an encode has ended, the one that waits begins; an encode that failed
/// leaves the display as it was.
pub proof fn law_encodes_go_on(s: EditorImage, list: Seq<EncodedFacts>)
    ensures
        s.queued is Some && s.base && !s.in_flight ==> {
            let (t, job) = preview::flushed(s);
            &&& t.queued is None && t.in_flight
            &&& job == Some(
                EncodeJob {
                    epoch: s.epoch,
                    cells: s.queued->0.cells,
                    outline: s.queued->0.outline,
                },
            )
        },
        list.len() > 0 && list.last().epoch == s.epoch ==> {
            let (t, used) = preview::encodes_ended(s, list);
            &&& !t.in_flight
            &&& list.last().ok ==> used == Some(list.len() - 1) && t.display && t.encoded_size
                == Some(list.last().cells) && t.shown_outline == list.last().outline
            &&& !list.last().ok ==> used is None && t.display == s.display && t.encoded_size
                == s.encoded_size && t.shown_outline == s.shown_outline
        },
{
}

/// The outline of a rectangle inside an image is drawn on the rectangle's own
/// pixels: on those that are fewer than its thickness away from an edge, and
/// on no others.
pub proof fn law_outline_is_on_rectangle(
    size: (u32, u32),
    r: Outline,
    t: u32,
    px: int,
    py: int,
)
    requires
        r.2 > 0,
        r.3 > 0,
        r.0 + r.2 <= size.0,
        r.1 + r.3 <= size.1,
        t > 0,
    ensures
        preview::on_outline(size, r, t, px, py) <==> {
            &&& r.0 <= px < r.0 + r.2
            &&& r.1 <= py < r.1 + r.3
            &&& px - r.0 < t || r.0 + r.2 - 1 - px < t || py - r.1 < t || r.1 + r.3 - 1 - py < t
        },
{
}

/// An outline stays in the image: a rectangle that reaches beyond it is drawn
/// up to its last column and its last row.
pub proof fn law_outline_stays_in_image(
    size: (u32, u32),
    r: Outline,
    t: u32,
    px: int,
    py: int,
)
    requires
        r.2 > 0,
        r.3 > 0,
        r.0 < size.0,
        r.1 < size.1,
        r.0 + r.2 <= u32::MAX,
        r.1 + r.3 <= u32::MAX,
    ensures
        preview::on_outline(size, r, t, px, py) ==> 0 <= px < size.0 && 0 <= py < size.1,
        r.0 + r.2 >= size.0 && r.1 + r.3 >= size.1 ==> preview::on_outline(
            size,
            r,
            t,
            size.0 - 1,
            size.1 - 1,
        ),
{
}

/// A rectangle without pixels has no outline; a block of pixels holds its
/// corners and what lies between them.
pub proof fn law_blocks_and_empty_outlines(
    size: (u32, u32),
    r: Outline,
    t: u32,
    b: Band,
    px: int,
    py: int,
)
    ensures
        r.2 == 0 || r.3 == 0 ==> !preview::on_outline(size, r, t, px, py),
        b.covers(px, py) <==> b.x0 <= px && px <= b.x1 && b.y0 <= py && py <= b.y1,
{
}

/// The header of the editor names the page, and the width and height of the
/// rectangle, in this order.
pub proof fn law_editor_header(label: Seq<char>, r: ImageRect, percent: Seq<char>)
    ensures
        editor::header_of(false, label, Some(r), percent) == " decoding image… "@,
        editor::header_of(true, label, None, percent) == " editing page "@ + label + " "@,
        editor::header_of(true, label, Some(r), percent) == " editing page "@ + label + " "@ + (
        "· crop "@ + text::dec(r.w as nat) + "x"@ + text::dec(r.h as nat) + " px ("@ + percent
            + "% of page)"@),
{
    reveal_strlit("");
    assert(" editing page "@ + label + " "@ + ""@ =~= " editing page "@ + label + " "@);
}

// --------------------------------------------------------------------- layout

/// The footer is the last row of the screen. Above it, the pages are on the
/// left, with about three tenths of the columns, over the status, and with
/// about seven tenths of the rows; the preview is on the right, over the
/// text, with a bit more than half of the rows.
pub proof fn law_screen_is_divided(area: Rect)
    requires
        area.ok(),
        area.height >= 4,
    ensures
        ({
            let r = ui::layout_of(area);
            let body = area.height - 1;
            &&& r.whole == area
            &&& r.footer.x == area.x && r.footer.width == area.width
            &&& r.footer.y == area.y + area.height - 1 && r.footer.height == 1
            &&& r.sidebar.x == area.x && r.sidebar.y == area.y
            &&& r.status.x == area.x && r.status.width == r.sidebar.width
            &&& r.status.y == r.sidebar.y + r.sidebar.height
            &&& r.sidebar.height + r.status.height == body
            &&& r.preview.x == area.x + r.sidebar.width && r.preview.y == area.y
            &&& r.text.x == r.preview.x && r.text.width == r.preview.width
            &&& r.text.y == r.preview.y + r.preview.height
            &&& r.preview.height + r.text.height == body
            &&& r.sidebar.width + r.preview.width == area.width
            &&& -50 <= 100 * r.sidebar.width - 30 * area.width <= 50
            &&& -50 <= 100 * r.sidebar.height - 70 * body <= 50
            &&& -50 <= 100 * r.preview.height - 55 * body <= 50
        }),
{
}

/// How a space is shared: what is fixed is left to the second part as long as
/// the first one has its least size; percentages are rounded to the nearest
/// cell.
pub proof fn law_shares(total: u16, least: u16, n: u16, p: u16, q: u16)
    requires
        least <= 1000,
        p + q == 100,
    ensures
        total >= least + n ==> ui::first_part(total, Share::Min(least), Share::Length(n)) == Some(
            total - n,
        ),
        least <= total < least + n ==> ui::first_part(total, Share::Min(least), Share::Length(n))
            == Some(least as int),
        total < least ==> ui::first_part(total, Share::Min(least), Share::Length(n)) == Some(
            total as int,
        ),
        ui::first_part(total, Share::Percentage(p), Share::Percentage(q)) == Some(
            (total * p + 50) / 100,
        ),
        ui::first_part(total, Share::Percentage(p), Share::Fill(n)) == Some(
            (total * p + 50) / 100,
        ),
{
}

/// The inside of a border leaves out a cell on each side.
pub proof fn law_border_takes_a_cell(r: Rect)
    requires
        r.ok(),
        r.width >= 2,
        r.height >= 2,
    ensures
        ({
            let q = ui::inner_of(r);
            &&& q.x == r.x + 1 && q.y == r.y + 1
            &&& q.x + q.width == r.x + r.width - 1
            &&& q.y + q.height == r.y + r.height - 1
        }),
{
}

/// A dialog has the size that it wants, as far as the screen leaves a cell on
/// each side, and stands in the middle: what is left over on one side differs
/// by at most one cell from what is left over on the other.
pub proof fn law_dialogs_are_centered(width: u16, height: u16, area: Rect)
    requires
        area.ok(),
        area.width >= 2,
        area.height >= 2,
    ensures
        ({
            let r = ui::centered(width, height, area);
            let left = r.x - area.x;
            let right = area.x + area.width - (r.x + r.width);
            let above = r.y - area.y;
            let below = area.y + area.height - (r.y + r.height);
            &&& r.width == (if width + 2 <= area.width {
                width as int
            } else {
                area.width - 2
            })
            &&& r.height == (if height + 2 <= area.height {
                height as int
            } else {
                area.height - 2
            })
            &&& left <= right <= left + 1
            &&& above <= below <= above + 1
        }),
{
}

/// The cells of the preview run like text: the first is at the top left, the
/// next stands right of it, and the first of a row stands right below the
/// first of the row above.
pub proof fn law_grid_reads_like_text(area: Rect, cols: int, rows: int, k: int)
    requires
        area.ok(),
        1 <= cols <= area.width,
        1 <= rows <= area.height,
        0 <= k,
    ensures
        ({
            let first = ui::grid_cell(area, cols, rows, 0);
            first.x == area.x && first.y == area.y
        }),
        0 <= k < cols - 1 ==> {
            let a = ui::grid_cell(area, cols, rows, k);
            let b = ui::grid_cell(area, cols, rows, k + 1);
            b.x == a.x + a.width && b.y == a.y
        },
        0 <= k < rows - 1 ==> {
            let a = ui::grid_cell(area, cols, rows, k * cols);
            let b = ui::grid_cell(area, cols, rows, (k + 1) * cols);
            b.y == a.y + a.height && b.x == a.x
        },
{
    let cw = area.width as int / cols;
    let ch = area.height as int / rows;
    assert(0 * cw == 0 && 0 * ch == 0) by (nonlinear_arith);
    assert(0int % cols == 0 && 0int / cols == 0) by (nonlinear_arith)
        requires
            cols >= 1,
    ;
    if k < cols - 1 {
        assert(k % cols == k && (k + 1) % cols == k + 1 && k / cols == 0 && (k + 1) / cols == 0)
            by (nonlinear_arith)
            requires
                0 <= k < cols - 1,
        ;
        assert((k + 1) * cw == k * cw + cw) by (nonlinear_arith);
        assert(cw >= 0 && (k + 1) * cw <= area.width && 0 <= k * cw) by (nonlinear_arith)
            requires
                0 <= k < cols - 1,
                cw == area.width as int / cols,
        ;
    }
    if k < rows - 1 {
        assert((k * cols) % cols == 0 && ((k + 1) * cols) % cols == 0 && (k * cols) / cols == k && ((
        k + 1) * cols) / cols == k + 1) by {
            vstd::arithmetic::div_mod::lemma_mod_multiples_basic(k, cols);
            vstd::arithmetic::div_mod::lemma_mod_multiples_basic(k + 1, cols);
            vstd::arithmetic::div_mod::lemma_div_multiples_vanish(k, cols);
            vstd::arithmetic::div_mod::lemma_div_multiples_vanish(k + 1, cols);
            assert(k * cols == cols * k) by (nonlinear_arith);
            assert((k + 1) * cols == cols * (k + 1)) by (nonlinear_arith);
        }
        assert((k + 1) * ch == k * ch + ch) by (nonlinear_arith);
        assert(ch >= 0 && (k + 1) * ch <= area.height && 0 <= k * ch) by (nonlinear_arith)
            requires
                0 <= k < rows - 1,
                ch == area.height as int / rows,
        ;
    }
}

// -------------------------------------------------------------------- dialogs

/// The help has a line for each key, its name in a column of twenty characters
/// and behind it what the key does; a line without the latter is a heading.
pub proof fn law_help_lines(i: int)
    requires
        0 <= i < 23,
    ensures
        ({
            let (key, what) = dialogs::HELP@[i];
            let line = dialogs::help()[i];
            &&& dialogs::help().len() == 23
            &&& what@.len() == 0 ==> line.len() == 1 && line[0].text == key@
            &&& what@.len() > 0 ==> {
                &&& line.len() == 2
                &&& line[0].text == "  "@ + text::pad_right(key@, 20)
                &&& line[1].text == what@
            }
        }),
{
}

/// The help says of each key what it does.
pub proof fn law_help_is_right()
    ensures
        dialogs::HELP@[1] == ("s / Enter (pages)", "scan next page"),
        dialogs::HELP@[2] == ("Esc / c", "cancel running scan"),
        dialogs::HELP@[4].1@ == "select page"@,
        dialogs::HELP@[5].1@ == "move page down / up"@,
        dialogs::HELP@[6] == ("r", "rescan page (keeps old until success)"),
        dialogs::HELP@[7].0@ == "R"@,
        dialogs::HELP@[8].0@ == "<"@,
        dialogs::HELP@[9] == ("d", "delete page"),
        dialogs::HELP@[10] == ("1-9", "jump to page N"),
        dialogs::HELP@[12] == ("f", "build searchable PDF (confirm dialog)"),
        dialogs::HELP@[13] == ("o", "open PDF with xdg-open"),
        dialogs::HELP@[14] == ("n", "new session"),
        dialogs::HELP@[16].0@ == "m"@,
        dialogs::HELP@[17] == ("+ = / -", "DPI presets 150 / 200 / 300 / 600"),
        dialogs::HELP@[18] == ("L", "OCR languages picker"),
        dialogs::HELP@[20] == ("Tab / BackTab", "cycle pane focus (also: click)"),
        dialogs::HELP@[21] == ("? / !", "this help / diagnostics"),
        dialogs::HELP@[22] == ("q / Ctrl-C", "quit (confirm if unsaved pages)"),
{
}

/// How large the dialogs want to be: the choice of languages has a row for
/// each, up to twenty-four rows in all; a question has its lines and four rows
/// more, up to twelve in all, and is as wide as its longest part needs.
pub proof fn law_dialog_sizes(s: AppModel, p: LangPickerView, c: ConfirmView, area: Rect)
    requires
        p.available.len() < 65536,
        c.lines.len() < 65536,
        s.report is None,
    ensures
        dialogs::place(s, OverlayView::Help, area) == ui::centered(62, 25, area),
        dialogs::place(s, OverlayView::Diagnostics, area) == ui::centered(60, 8, area),
        p.available.len() <= 18 ==> dialogs::place(s, OverlayView::LangPicker(p), area)
            == ui::centered(40, (p.available.len() + 6) as u16, area),
        p.available.len() > 18 ==> dialogs::place(s, OverlayView::LangPicker(p), area)
            == ui::centered(40, 24, area),
        ({
            let w = dialogs::question_width(c);
            let rows = if c.lines.len() + 4 <= 12 {
                c.lines.len() + 4
            } else {
                12
            };
            let most = if area.width >= 4 {
                area.width - 4
            } else {
                0
            };
            dialogs::place(s, OverlayView::Confirm(c), area) == ui::centered(
                (if w <= most {
                    w as int
                } else {
                    most
                }) as u16,
                rows as u16,
                area,
            )
        }),
{
}

/// The diagnostics have a row for each line, as far as the screen goes.
pub proof fn law_diagnostics_size(s: AppModel, r: ReportView, area: Rect)
    requires
        s.report == Some(r),
        dialogs::items_lines(r.items).len() < 65536,
        area.height >= 2,
    ensures
        ({
            let n = dialogs::items_lines(r.items).len() + 2;
            dialogs::place(s, OverlayView::Diagnostics, area) == ui::centered(
                90,
                (if n <= area.height - 2 {
                    n as int
                } else {
                    area.height - 2
                }) as u16,
                area,
            )
        }),
{
}

/// A question is wide enough for each of its lines, its title and its answers.
pub proof fn law_questions_fit(c: ConfirmView, k: int)
    requires
        0 <= k < c.lines.len(),
    ensures
        dialogs::question_width(c) >= draw::size16(c.lines[k]) + 4,
        dialogs::question_width(c) >= draw::size16(c.title) + 4,
        dialogs::question_width(c) >= draw::size16(c.accept_label) + 20,
{
    lemma_longest(c.lines, k);
}

proof fn lemma_longest(lines: Seq<Seq<char>>, k: int)
    requires
        0 <= k < lines.len(),
    ensures
        dialogs::longest(lines) >= draw::size16(lines[k]),
    decreases lines.len(),
{
    if k < lines.len() - 1 {
        lemma_longest(lines.drop_last(), k);
        assert(lines.drop_last()[k] == lines[k]);
    }
}

/// What stands above the dialogs.
pub proof fn law_dialog_titles(p: LangPickerView)
    ensures
        dialogs::heading(OverlayView::Help) == "Help - Esc to close"@,
        dialogs::heading(OverlayView::Diagnostics) == "Diagnostics"@,
        dialogs::heading(OverlayView::LangPicker(p)) == "OCR languages"@,
        p.loading ==> dialogs::picker(p)[0][0].text == "loading installed languages…"@,
        !p.loading && p.available.len() == 0 ==> dialogs::picker(p)[0][0].text
            == "no tesseract languages found"@,
{
}

/// How the outcome of a check is marked.
pub proof fn law_marks()
    ensures
        dialogs::mark(Status::Pass).text == " [ OK ] "@,
        dialogs::mark(Status::Warn).text == " [WARN] "@,
        dialogs::mark(Status::Fail).text == " [FAIL] "@,
        dialogs::mark(Status::Skip).text == " [SKIP] "@,
        dialogs::mark(Status::Pending).text == " [ ...] "@,
        theme::style_of(dialogs::mark(Status::Pass).paint).bg == Some(Color::Green),
        theme::style_of(dialogs::mark(Status::Fail).paint).bg == Some(Color::Red),
        theme::style_of(dialogs::mark(Status::Warn).paint).bg == Some(Color::Yellow),
{
}

/// The diagnostics show each check with its mark and its name, below it what
/// was found out, or what is waited for while it is pending, and below that
/// how to install what is missing, line by line.
pub proof fn law_checks_are_shown(i: CheckItemView, h: Seq<char>, k: int)
    ensures
        ({
            let lines = dialogs::item_lines(i);
            let said = if i.status == Status::Pending && i.pending_detail is Some {
                i.pending_detail->0
            } else {
                i.detail
            };
            let n: int = if said.len() == 0 {
                1
            } else {
                2
            };
            &&& lines[0].len() == 2
            &&& lines[0][0] == dialogs::mark(i.status)
            &&& lines[0][1].text == i.what
            &&& said.len() > 0 ==> lines[1][0].text == "        "@ + said
            &&& i.hint is None ==> lines.len() == n
            &&& i.hint == Some(h) ==> lines.len() == n + text::lines(h).len()
            &&& i.hint == Some(h) && 0 <= k < text::lines(h).len() ==> lines[n + k][0].text
                == "        install: "@ + text::lines(h)[k]
        }),
{
}

/// The diagnostics begin with the keys, and show the checks in their order:
/// one more check adds its lines at the end.
pub proof fn law_checks_in_order(items: Seq<CheckItemView>, i: CheckItemView)
    ensures
        dialogs::items_lines(Seq::empty()).len() == 1,
        dialogs::items_lines(Seq::empty())[0][0].text
            == "press r to re-run checks · Esc to close"@,
        dialogs::items_lines(items.push(i)) == dialogs::items_lines(items) + dialogs::item_lines(i),
{
    assert(items.push(i).drop_last() =~= items);
}

/// The choice of languages lists them in their order, each with a mark exactly
/// where it is chosen, and with the cursor on one of them; below stands what
/// is chosen.
pub proof fn law_languages_are_shown(p: LangPickerView, k: int)
    requires
        !p.loading,
        0 <= k < p.available.len(),
    ensures
        ({
            let lines = dialogs::picker(p);
            &&& lines.len() == p.available.len() + 2
            &&& lines[k][0].text == " "@ + (if p.selected.contains(p.available[k]) {
                "[x]"@
            } else {
                "[ ]"@
            }) + " "@ + p.available[k]
            &&& lines[k][0].paint == (if k == p.cursor {
                Paint::Highlight
            } else {
                Paint::Plain
            })
            &&& p.selected.len() > 0 ==> lines.last()[0].text == "space toggle · enter confirm ("@
                + text::join(p.selected, "+"@) + ") · esc cancel"@
            &&& p.selected.len() == 0 ==> lines.last()[0].text == "space toggle · enter confirm ("@
                + "none selected"@ + ") · esc cancel"@
        }),
{
}

/// A question shows its lines, then how to say yes and how to say no. Its
/// title is what stands above it.
pub proof fn law_questions_are_shown(s: AppModel, c: ConfirmView, k: int)
    requires
        0 <= k < c.lines.len(),
    ensures
        ({
            let lines = dialogs::contents(s, OverlayView::Confirm(c));
            &&& lines.len() == c.lines.len() + 2
            &&& lines[k].len() == 1 && lines[k][0].text == c.lines[k]
            &&& lines.last()[0].text == " ["@ + c.accept_label + "] "@
            &&& lines.last()[1].text == "  "@
            &&& lines.last()[2].text == "[Esc] cancel"@
            &&& dialogs::heading(OverlayView::Confirm(c)) == c.title
        }),
{
}

/// Each question says what it is about: leaving, the place of the document,
/// the session that is dropped, the page that goes, and the size that is
/// kept.
pub proof fn law_questions_name_their_subject(out: Seq<u8>, id: PageId, r: ImageRect)
    ensures
        overlays::quit_question().title == "Quit?"@,
        overlays::quit_question().lines == seq![
            "Pages exist that are not part of a built PDF."@,
            "They will be lost."@,
        ],
        overlays::finish_question(out).title == "Build searchable PDF?"@,
        overlays::finish_question(out).lines[0] == "Output: "@ + crate::path::lossy(out),
        overlays::new_session_question().title == "Start a new session?"@,
        overlays::delete_question(id).title == "Delete page "@ + text::dec(id as nat) + "?"@,
        overlays::crop_question(id, r).title == "Crop page "@ + text::dec(id as nat) + "?"@,
        overlays::crop_question(id, r).lines[0] == "Keep "@ + text::dec(r.w as nat) + "x"@
            + text::dec(r.h as nat) + " px of the page; removed pixels are"@,
        overlays::crop_question(id, r).lines[1] == "discarded (rescan restores them)."@,
        overlays::finish_question(out).lines[1]
            == "OCR runs over all pages; this can take a while."@,
        overlays::new_session_question().lines == seq![
            "All scanned pages of this session will be dropped."@,
        ],
        overlays::delete_question(id).lines == seq!["The scanned image will be removed."@],
        overlays::delete_busy_question().title == "Delete page while it is processing?"@,
        overlays::delete_busy_question().lines == seq!["The running job will be cancelled."@],
        overlays::quit_question().accept_label == "y quit anyway"@,
        overlays::finish_question(out).accept_label == "Enter build"@,
        overlays::new_session_question().accept_label == "y new session"@,
        overlays::delete_question(id).accept_label == "y delete"@,
        overlays::delete_busy_question().accept_label == "y delete"@,
        overlays::crop_question(id, r).accept_label == "Enter crop"@,
{
}

/// A question is about what its answer does.
pub proof fn law_questions_ask_what_they_do(out: Seq<u8>, id: PageId, r: ImageRect)
    ensures
        overlays::quit_question().kind is Quit,
        overlays::finish_question(out).kind == (ConfirmKindView::Finish { out, overwrite: false }),
        overlays::new_session_question().kind is NewSession,
        overlays::delete_question(id).kind == ConfirmKindView::DeletePage(id),
        overlays::delete_busy_question().kind is DeleteBusy,
        overlays::crop_question(id, r).kind == (ConfirmKindView::Crop { id, rect: r }),
{
}

// --------------------------------------------------------------------- colors

/// What stands out, stands out: only the marked styles are bold, only badges,
/// the header and the selection have a background, and what belongs together
/// has one color.
pub proof fn law_colors(p: Paint)
    ensures
        theme::style_of(p).bold <==> p == Paint::Bold || p == Paint::AccentBold || p
            == Paint::BadgeBusy || p == Paint::Header,
        theme::style_of(p).bg is None <==> p == Paint::Plain || p == Paint::Bold || p
            == Paint::Accent || p == Paint::AccentBold || p == Paint::Muted || p == Paint::Key || p
            == Paint::BorderFocused || p == Paint::BorderUnfocused || p == Paint::Rotated,
        theme::style_of(p).fg is None <==> p == Paint::Plain || p == Paint::Bold,
        p == Paint::Accent || p == Paint::AccentBold || p == Paint::BorderFocused || p
            == Paint::Rotated ==> theme::style_of(p).fg == Some(Color::Cyan),
        p == Paint::Header || p == Paint::HeaderFiller ==> theme::style_of(p).bg == Some(
            Color::LightBlue,
        ) && theme::style_of(p).fg == Some(Color::Black),
        p == Paint::BadgeBusy || p == Paint::BadgeWarn ==> theme::style_of(p).bg == Some(
            Color::Yellow,
        ) && theme::style_of(p).fg == Some(Color::Black),
        p == Paint::BadgeOk ==> theme::style_of(p).bg == Some(Color::Green) && theme::style_of(p).fg
            == Some(Color::Black),
        p == Paint::BadgeFail ==> theme::style_of(p).bg == Some(Color::Red) && theme::style_of(p).fg
            == Some(Color::White),
        p == Paint::BadgeInfo ==> theme::style_of(p).bg == Some(Color::Cyan) && theme::style_of(
            p,
        ).fg == Some(Color::Black),
        p == Paint::BadgeMuted ==> theme::style_of(p).bg == Some(Color::Gray) && theme::style_of(
            p,
        ).fg == Some(Color::Black),
        p == Paint::Muted ==> theme::style_of(p).fg == Some(Color::DarkGray),
        p == Paint::Key ==> theme::style_of(p).fg == Some(Color::Yellow),
        p == Paint::Highlight ==> theme::style_of(p).fg == Some(Color::Rgb(255, 255, 255))
            && theme::style_of(p).bg == Some(Color::Rgb(40, 60, 80)),
        p == Paint::BorderUnfocused ==> theme::style_of(p).fg == Some(Color::Rgb(110, 110, 110)),
{
}

// --------------------------------------------------------------- notifications

/// A notification is shown by `notify-send` in the program's name: the
/// urgency follows its option, and the summary stands before the body.
pub proof fn law_notifications(summary: Seq<char>, body: Seq<char>, urgency: Urgency)
    ensures
        ({
            let words = notify::notification(summary, body, urgency);
            let n = words.len() as int;
            &&& n == 7
            &&& words[0] == "notify-send"@
            &&& words[1] == "-a"@ && words[2] == PROGRAM@
            &&& words[3] == "-u"@
            &&& urgency == Urgency::Low ==> words[4] == "low"@
            &&& urgency == Urgency::Normal ==> words[4] == "normal"@
            &&& urgency == Urgency::Critical ==> words[4] == "critical"@
            &&& words[n - 2] == summary
            &&& words[n - 1] == body
        }),
{
}

} // verus!
