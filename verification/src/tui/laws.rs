//! What holds of the interface, whatever is typed and whatever it is told.

use vstd::prelude::*;

use crate::check;
use crate::check::{ReportSource, ReportView};
use crate::session::laws;
use crate::session::model as session_model;
use crate::session::model::{CmdModel, MetaModel, PageModel, PageShown, SessionModel};
use crate::session::{Busy, PageId};
use crate::tui::app::Action;
use crate::tui::input::{Key, Mouse};
use crate::tui::model;
use crate::tui::model::{AppEffectModel, AppModel, EditorFacts, STATUS_DROP, STATUS_MAX};
use crate::tui::overlays;
use crate::tui::overlays::{ConfirmKindView, OverlayReplyView, OverlayView};

verus! {

// --------------------------------------------------------------------- status

/// The status keeps at most its newest five hundred lines, and the last line
/// is the newest.
pub proof fn law_status_is_bounded(s: AppModel, msg: Seq<char>)
    requires
        s.status_lines.len() <= STATUS_MAX,
    ensures
        model::say(s, msg).status_lines.len() <= STATUS_MAX,
        model::say(s, msg).status_lines.last() == msg,
{
    let all = s.status_lines.push(msg);
    if all.len() > STATUS_MAX {
        assert(all.skip(STATUS_DROP as int).last() == msg);
    }
}

// ------------------------------------------------------------------ selection

proof fn lemma_place(pages: Seq<PageShown>, id: PageId)
    ensures
        match model::place_of(pages, id) {
            Some(i) => 0 <= i < pages.len() && pages[i].id == id,
            None => forall|j: int| 0 <= j < pages.len() ==> (#[trigger] pages[j]).id != id,
        },
    decreases pages.len(),
{
    if pages.len() > 0 {
        let init = pages.drop_last();
        lemma_place(init, id);
        assert forall|j: int| 0 <= j < pages.len() - 1 implies pages[j] == init[j] by {}
    }
}

/// The selection stays with its page: whatever happens to the list, as long
/// as the page is in it, the page stays selected.
pub proof fn law_selection_follows_page(s: AppModel, pages: Seq<PageShown>, meta: MetaModel)
    requires
        model::chosen(s) is Some,
        exists|i: int|
            0 <= i < pages.len() && (#[trigger] pages[i]).id == model::chosen(s)->0.id,
    ensures
        model::chosen(model::pages_changed(s, pages, meta)) is Some,
        model::chosen(model::pages_changed(s, pages, meta))->0.id == model::chosen(s)->0.id,
{
    lemma_place(pages, model::chosen(s)->0.id);
}

/// While there are pages, one of them is selected.
pub proof fn law_something_is_selected(s: AppModel, pages: Seq<PageShown>, meta: MetaModel)
    requires
        pages.len() > 0,
    ensures
        model::chosen(model::pages_changed(s, pages, meta)) is Some,
{
    if model::chosen(s) is Some {
        lemma_place(pages, model::chosen(s)->0.id);
    }
}

// -------------------------------------------------------------------- reports

/// The verdict on the start is given once: no report changes it afterwards.
pub proof fn law_verdict_is_given_once(s: AppModel, r: ReportView)
    requires
        s.startup_report_ok is Some,
    ensures
        model::report_arrived(s, r).0.startup_report_ok == s.startup_report_ok,
{
}

/// A report that the user asked for never gives the verdict on the start.
pub proof fn law_rerun_gives_no_verdict(s: AppModel, r: ReportView)
    requires
        r.source == ReportSource::ReRun,
    ensures
        model::report_arrived(s, r).0.startup_report_ok == s.startup_report_ok,
{
}

/// A report from the start that arrives after one that the user asked for
/// changes nothing, except that the newer one may give the verdict that is
/// still open; and nothing is done on its account.
pub proof fn law_outdated_report_is_dropped(s: AppModel, r: ReportView)
    requires
        r.source != ReportSource::ReRun,
        s.rerun_seen,
    ensures
        model::report_arrived(s, r).0 == (AppModel {
            startup_report_ok: model::report_arrived(s, r).0.startup_report_ok,
            ..s
        }),
        model::report_arrived(s, r).1.len() == 0,
        s.startup_report_ok is None && check::report_settled(r.items) && s.report is Some
            ==> model::report_arrived(s, r).0.startup_report_ok == Some(
            model::verdict(s.report->0),
        ),
{
}

/// No report takes away what lies over the view.
pub proof fn law_reports_keep_overlay(s: AppModel, r: ReportView)
    requires
        s.overlay is Some,
    ensures
        model::report_arrived(s, r).0.overlay == s.overlay,
{
}

/// A report from the start does not end the checks that the user asked for,
/// so they are never made twice at once.
pub proof fn law_checks_run_once(s: AppModel, r: ReportView)
    requires
        s.checks_in_flight,
    ensures
        model::checks_asked(s) == (s, Seq::<AppEffectModel>::empty()),
        r.source != ReportSource::ReRun ==> model::report_arrived(s, r).0.checks_in_flight,
{
}

// ------------------------------------------------------------------- captures

pub open spec fn begins_capture(e: AppEffectModel) -> bool {
    e matches AppEffectModel::Send(cmd) && cmd is ScanNext
}

/// Some effect begins a capture of a new page.
pub open spec fn captures(effects: Seq<AppEffectModel>) -> bool {
    exists|i: int| 0 <= i < effects.len() && begins_capture(#[trigger] effects[i])
}

/// No capture begins while no scanner is known: neither a key nor the clock
/// starts one.
pub proof fn law_no_capture_without_scanner(s: AppModel, key: Key, f: EditorFacts)
    requires
        !s.device_known,
    ensures
        !captures(model::key_routed(s, key, f).1),
        !captures(model::ticked(s).1),
{
}

/// A capture that was asked for while the scanner was being looked for begins
/// once the scanner is found and free, with the settings of that moment, and
/// it begins once.
pub proof fn law_buffered_capture(s: AppModel, r: ReportView)
    requires
        s.pending_scan,
        !model::outdated(s, r),
        check::report_settled(r.items),
        r.device is Some,
    ensures
        ({
            let found = model::report_arrived(s, r).0;
            let fired = model::pending_scan_fired(found);
            let again = model::pending_scan_fired(fired.0);
            &&& found.pending_scan
            &&& model::busy_of(s) == Busy::Idle && !model::finished(s) && !model::any_pending(
                s.pages,
            ) ==> {
                &&& fired.1 == seq![
                    AppEffectModel::Send(CmdModel::ScanNext { dpi: s.dpi, mode: s.mode }),
                ]
                &&& again == (fired.0, Seq::<AppEffectModel>::empty())
            }
        }),
{
}

/// A capture that was asked for is dropped when no scanner is found.
pub proof fn law_buffered_capture_dropped(s: AppModel, r: ReportView)
    requires
        !model::outdated(s, r),
        check::report_settled(r.items),
        r.device is None,
    ensures
        !model::report_arrived(s, r).0.pending_scan,
{
}

// ------------------------------------------------------------------ languages

/// Languages that are picked reach the session: the interface shows them, and
/// sends the command that makes the session use them, so that what is shown
/// is what is used.
pub proof fn law_picked_langs_reach_session(
    a: AppModel,
    s: SessionModel,
    o: OverlayView,
    key: Key,
    f: EditorFacts,
    langs: Seq<char>,
    now: u64,
)
    requires
        a.overlay == Some(o),
        overlays::overlay_key(o, key.code).1 == OverlayReplyView::SetLangs(langs),
    ensures
        ({
            let step = model::key_routed(a, key, f);
            &&& step.1 == seq![AppEffectModel::Send(CmdModel::SetLangs(langs))]
            &&& step.0.cfg.langs == langs
            &&& session_model::command(s, CmdModel::SetLangs(langs), now).0.cfg.langs == langs
        }),
{
}

// -------------------------------------------------------------------- leaving

/// Unsaved pages are never left behind without a question: while there are
/// some, no key ends the program, in the main view, in the editor or in an
/// overlay, but the one that answers the question itself with yes.
pub proof fn law_pages_are_not_lost(s: AppModel, key: Key, f: EditorFacts)
    requires
        model::must_ask(s),
        !s.quit_requested,
        s.overlay matches Some(o) ==> overlays::overlay_key(o, key.code).1
            != OverlayReplyView::Accept(ConfirmKindView::Quit),
    ensures
        !model::key_routed(s, key, f).0.quit_requested,
{
}

/// Where unsaved pages would be lost, the keys that end the program ask, in
/// the main view and in the editor alike.
pub proof fn law_leaving_asks(s: AppModel, key: Key, f: EditorFacts)
    requires
        model::must_ask(s),
        s.overlay is None,
        key.quits(),
    ensures
        model::key_routed(s, key, f).0.overlay == Some(
            OverlayView::Confirm(overlays::quit_question()),
        ),
{
}

/// The question before leaving goes away by itself once nothing would be
/// lost, and stays as long as something would.
pub proof fn law_quit_question_is_current(
    s: AppModel,
    pages: Seq<PageShown>,
    meta: MetaModel,
)
    requires
        s.overlay matches Some(OverlayView::Confirm(c)) && c.kind == ConfirmKindView::Quit,
    ensures
        ({
            let t = model::pages_changed(s, pages, meta);
            t.overlay == (if model::must_ask(t) {
                s.overlay
            } else {
                None
            })
        }),
{
    let t = AppModel {
        selected: model::reselected(s, pages),
        pages,
        meta: Some(meta),
        ..s
    };
    let u = model::pages_changed(s, pages, meta);
    assert(u.pages == t.pages && u.meta == t.meta);
    assert(model::must_ask(u) == model::must_ask(t));
}

// -------------------------------------------------------------------- session

/// The interface shows a session as it is.
pub open spec fn showing(a: AppModel, s: SessionModel) -> bool {
    &&& a.pages == s.pages.map_values(|p: PageModel| session_model::shown(p))
    &&& a.meta == Some(session_model::meta_of(s))
}

proof fn lemma_found_at(s: SessionModel, i: int)
    requires
        laws::session_ok(s),
        0 <= i < s.pages.len(),
    ensures
        session_model::find(s.pages, s.pages[i].id) == Some(i),
{
    laws::lemma_find(s.pages, s.pages[i].id);
}

/// The keys for a capture and for cancelling it are offered exactly when the
/// session would do what they stand for.
pub proof fn law_scan_keys_match_session(a: AppModel, s: SessionModel)
    requires
        showing(a, s),
    ensures
        model::allowed(a, Action::Scan) <==> a.device_known && session_model::refusal(
            s,
            CmdModel::ScanNext { dpi: a.dpi, mode: a.mode },
        ) is None,
        model::allowed(a, Action::Cancel) <==> session_model::refusal(s, CmdModel::CancelScan)
            is None,
{
    if session_model::any_delete_pending(s.pages) {
        let i = choose|i: int|
            0 <= i < s.pages.len() && session_model::delete_pending(#[trigger] s.pages[i]);
        assert(model::shown_delete_pending(a.pages[i]));
    }
    if model::any_pending(a.pages) {
        let i = choose|i: int|
            0 <= i < a.pages.len() && model::shown_delete_pending(#[trigger] a.pages[i]);
        assert(session_model::delete_pending(s.pages[i]));
    }
}

/// The keys that work on the selected page are offered only when the session
/// would do what they stand for.
pub proof fn law_page_keys_match_session(a: AppModel, s: SessionModel, cw: bool)
    requires
        showing(a, s),
        laws::session_ok(s),
        model::chosen(a) is Some,
    ensures
        model::allowed(a, Action::Rescan) <==> a.device_known && session_model::refusal(
            s,
            CmdModel::Rescan { id: model::chosen(a)->0.id, dpi: a.dpi, mode: a.mode },
        ) is None,
        model::allowed(a, Action::Rotate) <==> session_model::refusal(
            s,
            CmdModel::Rotate(model::chosen(a)->0.id, cw),
        ) is None,
{
    let i = a.selected as int;
    assert(a.pages[i] == session_model::shown(s.pages[i]));
    lemma_found_at(s, i);
    assert(laws::page_ok(s, s.pages[i]));
}

/// The key for building the document is offered exactly when the session
/// would build it, and no save dialog is open.
pub proof fn law_finish_key_matches_session(a: AppModel, s: SessionModel)
    requires
        showing(a, s),
        laws::session_ok(s),
    ensures
        model::allowed(a, Action::Finish) <==> !a.dialog_in_flight && session_model::finish_refusal(
            s,
        ) is None,
{
    let failed = |p: PageModel| session_model::failed(p);
    let unsettled = |p: PageModel| session_model::image_unsettled(p);
    laws::lemma_first_where(s.pages, failed);
    laws::lemma_first_where(s.pages, unsettled);
    assert forall|i: int| 0 <= i < s.pages.len() implies #[trigger] a.pages[i]
        == session_model::shown(s.pages[i]) by {}
    if session_model::finish_refusal(s) is None {
        assert forall|i: int| 0 <= i < a.pages.len() implies model::buildable(
            #[trigger] a.pages[i],
        ) by {
            let p = s.pages[i];
            assert(laws::page_ok(s, p));
            assert(!failed(p) && !unsettled(p));
            assert(!session_model::delete_pending(p));
        }
    }
    if model::allowed(a, Action::Finish) {
        assert forall|i: int| 0 <= i < s.pages.len() implies !session_model::delete_pending(
            #[trigger] s.pages[i],
        ) && !failed(s.pages[i]) && !unsettled(s.pages[i]) by {
            assert(model::buildable(a.pages[i]));
        }
    }
}

// ----------------------------------------------------------------- save dialog

/// One save dialog at a time: while one is open, the key for building the
/// document does nothing.
pub proof fn law_one_save_dialog(s: AppModel)
    requires
        s.dialog_in_flight,
    ensures
        model::finish_key(s) == (s, Seq::<AppEffectModel>::empty()),
{
}

// -------------------------------------------------------------------- routing

/// What lies over the view gets every key: nothing under it changes but
/// through the answer it gives.
pub proof fn law_overlay_comes_first(s: AppModel, key: Key, f: EditorFacts)
    requires
        s.overlay is Some,
    ensures
        model::key_routed(s, key, f) == model::key_in_overlay(s, s.overlay->0, key),
        model::key_routed(s, key, f).0.selected == s.selected,
        model::key_routed(s, key, f).0.focus == s.focus,
        model::key_routed(s, key, f).0.dpi == s.dpi,
        model::key_routed(s, key, f).0.mode == s.mode,
{
}

/// The mouse never asks anything of the session, and never ends the program.
pub proof fn law_mouse_is_harmless(s: AppModel, m: Mouse, f: EditorFacts)
    ensures
        model::mouse_routed(s, m, f).quit_requested == s.quit_requested,
        model::mouse_routed(s, m, f).pages == s.pages,
        model::mouse_routed(s, m, f).dpi == s.dpi,
        model::mouse_routed(s, m, f).mode == s.mode,
{
}

} // verus!
