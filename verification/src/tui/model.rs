//! What the interface is and how it changes, stated over mathematical values.

use vstd::prelude::*;

use crate::backend::filedialog::SaveChoiceView;
use crate::backend::pdf::BuildOutcome;
use crate::check;
use crate::check::{ReportSource, ReportView};
use crate::config::{ConfigView, PreviewOcr};
use crate::notify::Urgency;
use crate::path;
use crate::session::model::{CmdModel, MetaModel, PageShown};
use crate::session::{Busy, PageId, PageStatus, Stage};
use crate::text;
use crate::tui::app::{Action, CommandAction, Pane};
use crate::tui::editor;
use crate::tui::editor::{EditorRects, EditorReply, EditorState};
use crate::tui::input::{Key, KeyCode, Mouse, MouseKind, Rect};
use crate::tui::overlays;
use crate::tui::overlays::{ConfirmKindView, OverlayReplyView, OverlayView};
use crate::tui::ui::PaneRects;

verus! {

/// The interface.
#[verifier::ext_equal]
pub struct AppModel {
    pub cfg: ConfigView,
    pub dpi: u16,
    pub mode: Seq<char>,
    pub pages: Seq<PageShown>,
    pub selected: nat,
    pub focus: Pane,
    pub status_lines: Seq<Seq<char>>,
    pub status_scroll: nat,
    pub text_scroll: nat,
    pub meta: Option<MetaModel>,
    pub device_label: Seq<char>,
    pub overlay: Option<OverlayView>,
    pub quit_requested: bool,
    pub last_result: Option<(Seq<u8>, u64, bool)>,
    pub report: Option<ReportView>,
    pub startup_report_ok: Option<bool>,
    pub device_known: bool,
    pub pending_scan: bool,
    pub checks_in_flight: bool,
    pub rerun_seen: bool,
    pub langs_cache: Seq<Seq<char>>,
    pub picker_available: bool,
    pub pane_rects: Option<PaneRects>,
    pub preview_cells: Seq<(PageId, Rect)>,
    pub tick: u64,
    pub dialog_in_flight: bool,
    pub editor: Option<EditorState>,
    pub editor_rects: Option<EditorRects>,
    pub overlay_rect: Option<Rect>,
}

/// Something that the program around the interface has to do.
#[verifier::ext_equal]
pub enum AppEffectModel {
    /// Hand a command to the session.
    Send(CmdModel),
    /// Make all checks again, and report.
    RunChecks,
    /// Open the desktop's save dialog, and report.
    SaveDialog { dir: Seq<u8>, filename: Seq<char>, title: Seq<char> },
    /// Open a document with the desktop's viewer.
    OpenResult(Seq<u8>),
    /// Show a notification.
    Notify { summary: Seq<char>, body: Seq<char>, urgency: Urgency },
}

/// The interface after a step, and what is to be done.
pub type AppStep = (AppModel, Seq<AppEffectModel>);

pub open spec fn quiet(s: AppModel) -> AppStep {
    (s, Seq::empty())
}

// --------------------------------------------------------------------- status

/// How many status lines are kept at most.
pub const STATUS_MAX: usize = 500;

/// How many of the oldest status lines go when there are too many.
pub const STATUS_DROP: usize = 100;

/// The status lines with another one.
pub open spec fn lines_with(lines: Seq<Seq<char>>, msg: Seq<char>) -> Seq<Seq<char>> {
    let all = lines.push(msg);
    if all.len() > STATUS_MAX {
        all.skip(STATUS_DROP as int)
    } else {
        all
    }
}

/// A line is added to the status.
pub open spec fn say(s: AppModel, msg: Seq<char>) -> AppModel {
    AppModel { status_lines: lines_with(s.status_lines, msg), status_scroll: 0, ..s }
}

/// How many of some languages are languages, not script models.
pub open spec fn language_count(parts: Seq<Seq<char>>) -> nat
    decreases parts.len(),
{
    if parts.len() == 0 {
        0
    } else {
        language_count(parts.drop_last()) + (if parts.last().len() > 0
            && !crate::config::script_lang(parts.last()) {
            1nat
        } else {
            0nat
        })
    }
}

/// The status lines at the start.
pub open spec fn first_lines(langs: Seq<char>) -> Seq<Seq<char>> {
    let hello = seq!["detecting scanner - press ? for help"@];
    if language_count(text::split(langs, '+')) > 1 {
        hello.push(
            "hint: mixed OCR languages can garble umlauts (für→fiir) - press L to pick a single language"@,
        )
    } else {
        hello
    }
}

/// The interface at the start.
pub open spec fn started(cfg: ConfigView) -> AppModel {
    AppModel {
        cfg,
        dpi: cfg.dpi,
        mode: cfg.mode,
        pages: Seq::empty(),
        selected: 0,
        focus: Pane::Sidebar,
        status_lines: first_lines(cfg.langs),
        status_scroll: 0,
        text_scroll: 0,
        meta: None,
        device_label: "detecting..."@,
        overlay: None,
        quit_requested: false,
        last_result: None,
        report: None,
        startup_report_ok: None,
        device_known: false,
        pending_scan: false,
        checks_in_flight: false,
        rerun_seen: false,
        langs_cache: Seq::empty(),
        picker_available: false,
        pane_rects: None,
        preview_cells: Seq::empty(),
        tick: 0,
        dialog_in_flight: false,
        editor: None,
        editor_rects: None,
        overlay_rect: None,
    }
}

// ---------------------------------------------------------------------- facts

/// Which exclusive resource is in use, as far as is known.
pub open spec fn busy_of(s: AppModel) -> Busy {
    match s.meta {
        Some(m) => m.busy,
        None => Busy::Idle,
    }
}

/// Whether the document has been built, as far as is known.
pub open spec fn finished(s: AppModel) -> bool {
    s.meta is Some && s.meta->0.finished
}

pub open spec fn shown_delete_pending(p: PageShown) -> bool {
    p.status == PageStatus::DeletePending
}

pub open spec fn any_pending(pages: Seq<PageShown>) -> bool {
    exists|i: int| 0 <= i < pages.len() && shown_delete_pending(#[trigger] pages[i])
}

/// Whether a capture can begin: the scanner must be known and free.
pub open spec fn can_scan(s: AppModel) -> bool {
    &&& s.device_known
    &&& busy_of(s) == Busy::Idle
    &&& !finished(s)
    &&& !any_pending(s.pages)
}

/// The page that is selected.
pub open spec fn chosen(s: AppModel) -> Option<PageShown> {
    if s.selected < s.pages.len() {
        Some(s.pages[s.selected as int])
    } else {
        None
    }
}

/// A page whose content would be lost.
pub open spec fn holds_content(p: PageShown) -> bool {
    p.status != PageStatus::Failed
}

/// Whether leaving needs a question: pages would be lost that are in no
/// document. Captures that failed do not count.
pub open spec fn must_ask(s: AppModel) -> bool {
    !finished(s) && exists|i: int| 0 <= i < s.pages.len() && holds_content(#[trigger] s.pages[i])
}

/// A page that does not keep the document from being built: text for the text
/// pane does not count.
pub open spec fn buildable(p: PageShown) -> bool {
    p.status == PageStatus::Ready || (p.status == PageStatus::Processing && p.stage == Some(
        Stage::Ocr,
    ))
}

pub open spec fn all_buildable(pages: Seq<PageShown>) -> bool {
    forall|i: int| 0 <= i < pages.len() ==> buildable(#[trigger] pages[i])
}

/// Whether what a key stands for is possible now.
pub open spec fn allowed(s: AppModel, a: Action) -> bool {
    match a {
        Action::Scan => can_scan(s),
        Action::Rescan => s.device_known && busy_of(s) == Busy::Idle && !finished(s) && match chosen(
            s,
        ) {
            Some(p) => (p.status == PageStatus::Ready || p.status == PageStatus::Failed)
                && !p.text_pending,
            None => false,
        },
        Action::Rotate => busy_of(s) != Busy::Finishing && !finished(s) && match chosen(s) {
            Some(p) => p.status == PageStatus::Ready && !p.text_pending,
            None => false,
        },
        Action::Delete => s.pages.len() > 0,
        Action::Reorder => s.pages.len() > 0,
        Action::Finish => !s.dialog_in_flight && s.pages.len() > 0 && busy_of(s) == Busy::Idle
            && !finished(s) && all_buildable(s.pages),
        Action::Open => s.last_result is Some,
        Action::Cancel => busy_of(s) == Busy::Scanning,
        Action::Settings => busy_of(s) != Busy::Finishing,
    }
}

/// The command behind an action.
pub open spec fn command_of(s: AppModel, a: CommandAction) -> CmdModel {
    match a {
        CommandAction::ScanNext => CmdModel::ScanNext { dpi: s.dpi, mode: s.mode },
        CommandAction::Rescan(id) => CmdModel::Rescan { id: id as u32, dpi: s.dpi, mode: s.mode },
        CommandAction::Rotate(id, cw) => CmdModel::Rotate(id as u32, cw),
        CommandAction::Delete(id) => CmdModel::Delete(id as u32),
        CommandAction::Move(from, to) => CmdModel::Move { from: from as int, to: to as int },
        CommandAction::CancelScan => CmdModel::CancelScan,
        CommandAction::ListLangs => CmdModel::ListLangs,
        CommandAction::NewSession => CmdModel::NewSession,
    }
}

/// A command is handed to the session.
pub open spec fn sending(s: AppModel, cmd: CmdModel) -> AppStep {
    (s, seq![AppEffectModel::Send(cmd)])
}

// ------------------------------------------------------------- session events

/// Where a page stands in the list that is shown.
pub open spec fn place_of(pages: Seq<PageShown>, id: PageId) -> Option<int>
    decreases pages.len(),
{
    if pages.len() == 0 {
        None
    } else {
        match place_of(pages.drop_last(), id) {
            Some(i) => Some(i),
            None => if pages.last().id == id {
                Some(pages.len() - 1)
            } else {
                None
            },
        }
    }
}

/// A selection held inside the list.
pub open spec fn held_in(selected: nat, len: nat) -> nat {
    if len == 0 {
        0
    } else if selected >= len {
        (len - 1) as nat
    } else {
        selected
    }
}

/// The selection after the list has changed: it stays with its page where
/// that is still there.
pub open spec fn reselected(s: AppModel, pages: Seq<PageShown>) -> nat {
    let kept = match chosen(s) {
        Some(p) => match place_of(pages, p.id) {
            Some(i) => i as nat,
            None => s.selected,
        },
        None => s.selected,
    };
    held_in(kept, pages.len())
}

/// Whether the question before leaving lies over the view, but there is
/// nothing to ask any more.
pub open spec fn stale_quit(s: AppModel) -> bool {
    &&& s.overlay matches Some(OverlayView::Confirm(c)) && c.kind == ConfirmKindView::Quit
    &&& !must_ask(s)
}

/// The pages and the session facts have changed.
pub open spec fn pages_changed(s: AppModel, pages: Seq<PageShown>, meta: MetaModel) -> AppModel {
    let t = AppModel { selected: reselected(s, pages), pages, meta: Some(meta), ..s };
    if stale_quit(t) {
        AppModel { overlay: None, ..t }
    } else {
        t
    }
}

/// A build has ended.
pub open spec fn build_ended(
    s: AppModel,
    outcome: Option<BuildOutcome>,
    out: Seq<u8>,
    size_kb: u64,
) -> AppStep {
    match outcome {
        Some(BuildOutcome::Searchable) => (
            say(
                AppModel { last_result: Some((out, size_kb, true)), ..s },
                "done: "@ + path::lossy(out) + " ("@ + text::dec(size_kb as nat) + " KB)"@,
            ),
            seq![
                AppEffectModel::Notify {
                    summary: "Scan complete"@,
                    body: path::lossy(out),
                    urgency: Urgency::Normal,
                },
            ],
        ),
        Some(BuildOutcome::WithoutTextLayer) => (
            say(
                AppModel { last_result: Some((out, size_kb, false)), ..s },
                "done (no text layer - ocrmypdf failed): "@ + path::lossy(out),
            ),
            seq![
                AppEffectModel::Notify {
                    summary: "Scan complete (no text layer)"@,
                    body: path::lossy(out),
                    urgency: Urgency::Critical,
                },
            ],
        ),
        None => (
            s,
            seq![
                AppEffectModel::Notify {
                    summary: "PDF build failed"@,
                    body: "See the log for details"@,
                    urgency: Urgency::Critical,
                },
            ],
        ),
    }
}

/// The installed languages are known.
pub open spec fn langs_arrived(s: AppModel, langs: Seq<Seq<char>>, t: AppModel) -> bool {
    match s.overlay {
        Some(OverlayView::LangPicker(p)) => {
            &&& t.overlay matches Some(OverlayView::LangPicker(q)) && overlays::langs_known(
                p,
                langs,
                q,
            )
            &&& t == (AppModel { langs_cache: langs, overlay: t.overlay, ..s })
        },
        _ => t == (AppModel { langs_cache: langs, ..s }),
    }
}

// -------------------------------------------------------------------- reports

/// A report that comes too late: it was made at the start, and a newer one
/// that the user asked for is there already.
pub open spec fn outdated(s: AppModel, r: ReportView) -> bool {
    r.source != ReportSource::ReRun && s.rerun_seen
}

/// Whether a report speaks for a working environment.
pub open spec fn verdict(r: ReportView) -> bool {
    r.device is Some && check::report_ok(r.items)
}

/// An outdated report arrives: it is dropped. If the verdict on the start is
/// still open, the newer report decides it.
pub open spec fn outdated_report(s: AppModel, r: ReportView) -> AppModel {
    if s.startup_report_ok is None && check::report_settled(r.items) {
        AppModel {
            startup_report_ok: match s.report {
                Some(newer) => Some(verdict(newer)),
                None => None,
            },
            ..s
        }
    } else {
        s
    }
}

/// The diagnostics come up by themselves where a check has failed and nothing
/// else lies over the view.
pub open spec fn pops_up(s: AppModel, r: ReportView) -> bool {
    !check::report_ok(r.items) && s.overlay is None
}

/// A report arrives while the scanner is still being looked for.
pub open spec fn unsettled_report(s: AppModel, r: ReportView) -> AppModel {
    if pops_up(s, r) {
        AppModel { overlay: Some(OverlayView::Diagnostics), ..s }
    } else {
        s
    }
}

/// The question of the scanner is answered.
pub open spec fn device_answered(s: AppModel, r: ReportView) -> AppModel {
    AppModel {
        device_label: check::label_or_name(r.device),
        device_known: r.device is Some,
        startup_report_ok: if s.startup_report_ok is None && r.source
            == ReportSource::StartupFinal {
            Some(verdict(r))
        } else {
            s.startup_report_ok
        },
        ..s
    }
}

/// The diagnostics come up where a check has failed.
pub open spec fn failures_shown(s: AppModel, r: ReportView) -> AppModel {
    if pops_up(s, r) {
        let t = AppModel { overlay: Some(OverlayView::Diagnostics), ..s };
        if r.device is None {
            say(t, "no scanner found - see diagnostics (press ! to reopen)"@)
        } else {
            t
        }
    } else {
        s
    }
}

/// What becomes of a capture that was asked for before the scanner was known.
pub open spec fn buffered_scan(s: AppModel, r: ReportView) -> AppModel {
    if !s.pending_scan {
        s
    } else if r.device is Some {
        say(s, "scanner ready - starting buffered scan"@)
    } else {
        say(
            AppModel { pending_scan: false, ..s },
            "no scanner found - buffered scan dropped"@,
        )
    }
}

/// A report arrives that is not outdated and leaves nothing pending.
pub open spec fn settled_report(s: AppModel, r: ReportView) -> AppStep {
    (
        buffered_scan(failures_shown(device_answered(s, r), r), r),
        match r.device {
            Some(d) => seq![AppEffectModel::Send(CmdModel::SetDevice(d.name))],
            None => Seq::empty(),
        },
    )
}

/// A report arrives.
pub open spec fn report_arrived(s: AppModel, r: ReportView) -> AppStep {
    if outdated(s, r) {
        quiet(outdated_report(s, r))
    } else {
        let t = AppModel {
            checks_in_flight: s.checks_in_flight && r.source != ReportSource::ReRun,
            rerun_seen: s.rerun_seen || r.source == ReportSource::ReRun,
            report: Some(r),
            ..s
        };
        if check::report_settled(r.items) {
            settled_report(t, r)
        } else {
            quiet(unsettled_report(t, r))
        }
    }
}

/// The checks are to be made again, unless that is going on already.
pub open spec fn checks_asked(s: AppModel) -> AppStep {
    if s.checks_in_flight {
        quiet(s)
    } else {
        (
            say(AppModel { checks_in_flight: true, ..s }, "re-running checks..."@),
            seq![AppEffectModel::RunChecks],
        )
    }
}

// ----------------------------------------------------------------------- tick

/// A capture that was asked for before the scanner was known begins, once it
/// can.
pub open spec fn pending_scan_fired(s: AppModel) -> AppStep {
    if s.pending_scan && can_scan(s) {
        sending(
            AppModel { pending_scan: false, ..s },
            CmdModel::ScanNext { dpi: s.dpi, mode: s.mode },
        )
    } else {
        quiet(s)
    }
}

/// Whether text is wanted of a page that is shown.
pub open spec fn lacks_text(s: AppModel, p: PageShown) -> bool {
    p.status == PageStatus::Ready && p.text is None && !p.text_pending && p.ocr_failed_gen != Some(
        p.image_gen,
    )
}

/// The request for the text of the selected page, where it is wanted.
pub open spec fn text_request(s: AppModel) -> Seq<AppEffectModel> {
    match chosen(s) {
        Some(p) => if s.cfg.preview_ocr == PreviewOcr::Lazy && busy_of(s) != Busy::Finishing
            && !finished(s) && lacks_text(s, p) {
            seq![AppEffectModel::Send(CmdModel::RequestText(p.id))]
        } else {
            Seq::empty()
        },
        None => Seq::empty(),
    }
}

/// The number after `n`; the counter starts over at its end.
pub open spec fn next_tick(n: u64) -> u64 {
    if n == u64::MAX {
        0
    } else {
        (n + 1) as u64
    }
}

/// A moment has passed.
pub open spec fn ticked(s: AppModel) -> AppStep {
    let step = pending_scan_fired(AppModel { tick: next_tick(s.tick), ..s });
    (step.0, step.1 + text_request(step.0))
}

// ----------------------------------------------------------------------- keys

/// The resolution after a step through the presets.
pub open spec fn dpi_stepped(current: u16, dir: int) -> u16 {
    if current == 150 || current == 200 || current == 300 || current == 600 {
        let idx = if current == 150 {
            0int
        } else if current == 200 {
            1int
        } else if current == 300 {
            2int
        } else {
            3int
        };
        let k = idx + dir;
        if k <= 0 {
            150
        } else if k == 1 {
            200
        } else if k == 2 {
            300
        } else {
            600
        }
    } else if dir >= 0 {
        if current < 150 {
            150
        } else if current < 200 {
            200
        } else if current < 300 {
            300
        } else {
            600
        }
    } else {
        if current > 600 {
            600
        } else if current > 300 {
            300
        } else if current > 200 {
            200
        } else {
            150
        }
    }
}

/// The mode after a step: gray, color, lineart, and again.
pub open spec fn mode_stepped(mode: Seq<char>) -> Seq<char> {
    if mode == "gray"@ {
        "color"@
    } else if mode == "color"@ {
        "lineart"@
    } else {
        "gray"@
    }
}

/// The program is to end: at once, or after a question.
pub open spec fn quit_asked(s: AppModel) -> AppModel {
    if must_ask(s) {
        AppModel { overlay: Some(OverlayView::Confirm(overlays::quit_question())), ..s }
    } else {
        AppModel { quit_requested: true, ..s }
    }
}

/// A capture is asked for.
pub open spec fn scan_key(s: AppModel) -> AppStep {
    if can_scan(s) {
        sending(s, CmdModel::ScanNext { dpi: s.dpi, mode: s.mode })
    } else if !s.device_known {
        quiet(
            if s.pending_scan {
                s
            } else {
                say(
                    AppModel { pending_scan: true, ..s },
                    "waiting for scanner - scan will start when detected"@,
                )
            },
        )
    } else if busy_of(s) == Busy::Finishing {
        quiet(say(s, "blocked: building PDF - scan once it finishes"@))
    } else if finished(s) {
        quiet(say(s, "blocked: PDF already built - press n for a new session"@))
    } else if busy_of(s) == Busy::Scanning {
        quiet(say(s, "blocked: scanner busy - press Esc to cancel"@))
    } else {
        quiet(say(s, "blocked: waiting for deferred delete"@))
    }
}

/// The selected page is to be deleted: pages with content only after a
/// question.
pub open spec fn delete_key(s: AppModel) -> AppStep {
    match chosen(s) {
        Some(p) => if p.status == PageStatus::Ready || p.status == PageStatus::Processing {
            quiet(
                AppModel {
                    overlay: Some(OverlayView::Confirm(overlays::delete_question(p.id))),
                    ..s
                },
            )
        } else {
            sending(s, CmdModel::Delete(p.id))
        },
        None => quiet(s),
    }
}

/// A command about the selected page.
pub open spec fn page_key(s: AppModel, cmd: spec_fn(PageShown) -> CmdModel) -> AppStep {
    match chosen(s) {
        Some(p) => sending(s, cmd(p)),
        None => quiet(s),
    }
}

/// The selected page moves towards the end of the list.
pub open spec fn move_down(s: AppModel) -> AppStep {
    if s.selected + 1 < s.pages.len() {
        sending(
            AppModel { selected: s.selected + 1, ..s },
            CmdModel::Move { from: s.selected as int, to: s.selected as int + 1 },
        )
    } else {
        quiet(s)
    }
}

/// The selected page moves towards the beginning of the list.
pub open spec fn move_up(s: AppModel) -> AppStep {
    if s.selected > 0 {
        sending(
            AppModel { selected: (s.selected - 1) as nat, ..s },
            CmdModel::Move { from: s.selected as int, to: s.selected - 1 },
        )
    } else {
        quiet(s)
    }
}

pub open spec fn select_next(s: AppModel) -> AppModel {
    if s.selected + 1 < s.pages.len() {
        AppModel { selected: s.selected + 1, text_scroll: 0, ..s }
    } else {
        s
    }
}

pub open spec fn select_prev(s: AppModel) -> AppModel {
    if s.selected > 0 {
        AppModel { selected: (s.selected - 1) as nat, text_scroll: 0, ..s }
    } else {
        s
    }
}

pub open spec fn scroll_down(s: AppModel) -> AppModel {
    AppModel {
        text_scroll: if s.text_scroll < usize::MAX {
            s.text_scroll + 1
        } else {
            s.text_scroll
        },
        ..s
    }
}

pub open spec fn scroll_up(s: AppModel) -> AppModel {
    AppModel {
        text_scroll: if s.text_scroll > 0 {
            (s.text_scroll - 1) as nat
        } else {
            0
        },
        ..s
    }
}

/// Where the document goes, as far as is known.
pub open spec fn output_of(s: AppModel) -> Seq<u8> {
    match s.meta {
        Some(m) => m.output_path,
        None => Seq::empty(),
    }
}

/// The directory in which the save dialog opens.
pub open spec fn dialog_dir(s: AppModel) -> Seq<u8> {
    match path::parent(output_of(s)) {
        Some(p) => if p.len() > 0 {
            p
        } else {
            s.cfg.output
        },
        None => s.cfg.output,
    }
}

/// The name that the save dialog offers.
pub open spec fn dialog_name(s: AppModel) -> Seq<char> {
    match path::file_name(output_of(s)) {
        Some(n) => path::lossy(n),
        None => ""@,
    }
}

/// The document is to be built: the desktop's save dialog asks where.
pub open spec fn finish_key(s: AppModel) -> AppStep {
    if allowed(s, Action::Finish) {
        (
            AppModel { dialog_in_flight: true, ..s },
            seq![
                AppEffectModel::SaveDialog {
                    dir: dialog_dir(s),
                    filename: dialog_name(s),
                    title: "Save PDF as"@,
                },
            ],
        )
    } else {
        quiet(s)
    }
}

/// A new session is asked for: without a question once the document is there.
pub open spec fn new_key(s: AppModel) -> AppStep {
    if finished(s) {
        sending(s, CmdModel::NewSession)
    } else {
        quiet(
            AppModel { overlay: Some(OverlayView::Confirm(overlays::new_session_question())), ..s },
        )
    }
}

pub open spec fn mode_key(s: AppModel) -> AppModel {
    if allowed(s, Action::Settings) {
        say(AppModel { mode: mode_stepped(s.mode), ..s }, "mode: "@ + mode_stepped(s.mode))
    } else {
        s
    }
}

pub open spec fn dpi_key(s: AppModel, dir: int) -> AppModel {
    if allowed(s, Action::Settings) {
        say(
            AppModel { dpi: dpi_stepped(s.dpi, dir), ..s },
            "dpi: "@ + text::dec(dpi_stepped(s.dpi, dir) as nat),
        )
    } else {
        s
    }
}

/// The languages are to be chosen.
pub open spec fn langs_key(s: AppModel) -> AppStep {
    sending(
        AppModel {
            overlay: Some(OverlayView::LangPicker(overlays::picker_opened(s.cfg.langs))),
            ..s
        },
        CmdModel::ListLangs,
    )
}

/// A page is chosen by its place.
pub open spec fn digit_key(s: AppModel, n: nat) -> AppModel {
    if 1 <= n <= s.pages.len() {
        AppModel { selected: (n - 1) as nat, text_scroll: 0, ..s }
    } else {
        s
    }
}

/// A key that moves in a pane.
pub open spec fn pane_key(s: AppModel, code: KeyCode) -> AppStep {
    let down = code == KeyCode::Char('j') || code == KeyCode::Down;
    let up = code == KeyCode::Char('k') || code == KeyCode::Up;
    let right = code == KeyCode::Char('J') || code == KeyCode::Right;
    let left = code == KeyCode::Char('K') || code == KeyCode::Left;
    match s.focus {
        Pane::Sidebar => if right {
            move_down(s)
        } else if left {
            move_up(s)
        } else if down {
            quiet(select_next(s))
        } else if up {
            quiet(select_prev(s))
        } else if code == KeyCode::Enter {
            scan_key(s)
        } else {
            quiet(s)
        },
        Pane::Text => if down {
            quiet(scroll_down(s))
        } else if up {
            quiet(scroll_up(s))
        } else {
            quiet(s)
        },
        Pane::Preview => quiet(s),
    }
}

/// A letter, digit or sign.
pub open spec fn char_key(s: AppModel, c: char) -> AppStep {
    if c == '?' {
        quiet(AppModel { overlay: Some(OverlayView::Help), ..s })
    } else if c == '!' {
        quiet(AppModel { overlay: Some(OverlayView::Diagnostics), ..s })
    } else if c == 'q' {
        quiet(quit_asked(s))
    } else if c == 's' {
        scan_key(s)
    } else if c == 'c' {
        cancel_key(s)
    } else if c == 'r' {
        page_key(s, |p: PageShown| CmdModel::Rescan { id: p.id, dpi: s.dpi, mode: s.mode })
    } else if c == 'R' {
        page_key(s, |p: PageShown| CmdModel::Rotate(p.id, true))
    } else if c == '<' {
        page_key(s, |p: PageShown| CmdModel::Rotate(p.id, false))
    } else if c == 'd' {
        delete_key(s)
    } else if c == 'f' {
        finish_key(s)
    } else if c == 'o' {
        match s.last_result {
            Some(r) => (s, seq![AppEffectModel::OpenResult(r.0)]),
            None => quiet(s),
        }
    } else if c == 'n' {
        new_key(s)
    } else if c == 'm' {
        quiet(mode_key(s))
    } else if c == '+' || c == '=' {
        quiet(dpi_key(s, 1))
    } else if c == '-' || c == '_' {
        quiet(dpi_key(s, -1))
    } else if c == 'L' {
        langs_key(s)
    } else if '1' <= c <= '9' {
        quiet(digit_key(s, (c as nat - '0' as nat) as nat))
    } else {
        pane_key(s, KeyCode::Char(c))
    }
}

/// A running capture is cancelled.
pub open spec fn cancel_key(s: AppModel) -> AppStep {
    if allowed(s, Action::Cancel) {
        sending(s, CmdModel::CancelScan)
    } else {
        quiet(s)
    }
}

/// A key in the main view.
pub open spec fn main_key(s: AppModel, key: Key) -> AppStep {
    if key.quits() {
        quiet(quit_asked(s))
    } else {
        match key.code {
            KeyCode::Char(c) => char_key(s, c),
            KeyCode::Tab => quiet(AppModel { focus: s.focus.after(), text_scroll: 0, ..s }),
            KeyCode::BackTab => quiet(AppModel { focus: s.focus.before(), text_scroll: 0, ..s }),
            KeyCode::Esc => cancel_key(s),
            _ => pane_key(s, key.code),
        }
    }
}

// ------------------------------------------------------------------- overlays

/// A question was answered with yes.
pub open spec fn answered_yes(s: AppModel, kind: ConfirmKindView) -> AppStep {
    match kind {
        ConfirmKindView::Quit => quiet(AppModel { quit_requested: true, ..s }),
        ConfirmKindView::Finish { out, overwrite } => sending(
            s,
            CmdModel::FinishTo { out, overwrite },
        ),
        ConfirmKindView::NewSession => sending(s, CmdModel::NewSession),
        ConfirmKindView::DeletePage(id) => sending(s, CmdModel::Delete(id)),
        ConfirmKindView::DeleteBusy => quiet(s),
        ConfirmKindView::Crop { id, rect } => sending(
            AppModel {
                editor: match s.editor {
                    Some(e) => Some(editor::tool_off(e)),
                    None => None,
                },
                ..s
            },
            CmdModel::Crop { id, x: rect.x, y: rect.y, w: rect.w, h: rect.h },
        ),
    }
}

/// A key in an overlay.
pub open spec fn key_in_overlay(s: AppModel, o: OverlayView, key: Key) -> AppStep {
    let (p, reply) = overlays::overlay_key(o, key.code);
    let kept = AppModel { overlay: Some(p), ..s };
    let closed = AppModel { overlay: None, ..s };
    match reply {
        OverlayReplyView::Keep => quiet(kept),
        OverlayReplyView::Close => quiet(closed),
        OverlayReplyView::RunChecks => checks_asked(kept),
        OverlayReplyView::SetLangs(langs) => sending(
            say(
                AppModel { cfg: ConfigView { langs, ..s.cfg }, ..closed },
                "langs: "@ + langs,
            ),
            CmdModel::SetLangs(langs),
        ),
        OverlayReplyView::Accept(kind) => answered_yes(closed, kind),
    }
}

/// The mouse in an overlay.
pub open spec fn mouse_in_overlay(s: AppModel, o: OverlayView, m: Mouse) -> AppModel {
    if overlays::mouse_keeps(o, s.overlay_rect, m) {
        s
    } else {
        AppModel { overlay: None, ..s }
    }
}

// --------------------------------------------------------------------- editor

/// What is known of the image in the editor, and of the place of the mouse.
#[derive(Debug, Clone, Copy)]
pub struct EditorFacts {
    /// The size of the image.
    pub orig: (u32, u32),
    /// The image is there.
    pub ready: bool,
    /// The pixel at the place of the mouse.
    pub pixel: Option<(u32, u32)>,
    /// How many pixels from an edge still count as the edge.
    pub tolerance: u32,
}

/// The editor goes.
pub open spec fn editor_closed(s: AppModel) -> AppModel {
    AppModel { editor: None, editor_rects: None, ..s }
}

/// A key in the editor.
pub open spec fn key_in_editor(s: AppModel, e: EditorState, key: Key, f: EditorFacts) -> AppModel {
    let (e2, reply) = editor::key_pressed(e, key, f.orig, f.ready);
    let t = AppModel { editor: Some(e2), ..s };
    match reply {
        EditorReply::Nothing => t,
        EditorReply::Quit => quit_asked(t),
        EditorReply::Close => editor_closed(t),
        EditorReply::Help => AppModel { overlay: Some(OverlayView::Help), ..t },
        EditorReply::Diagnostics => AppModel { overlay: Some(OverlayView::Diagnostics), ..t },
        EditorReply::Confirm(id, rect) => AppModel {
            overlay: Some(OverlayView::Confirm(overlays::crop_question(id, rect))),
            ..t
        },
        _ => say(t, editor::reply_text(reply)->0),
    }
}

/// The mouse in the editor, once the editor has been drawn.
pub open spec fn mouse_in_editor(s: AppModel, e: EditorState, m: Mouse, f: EditorFacts) -> AppModel {
    if s.editor_rects is None {
        s
    } else {
        AppModel {
            editor: Some(editor::mouse_moved(e, m.kind, f.pixel, f.tolerance, f.orig)),
            ..s
        }
    }
}

// ---------------------------------------------------------------------- mouse

/// The pane at a place of the terminal.
pub open spec fn pane_at(rects: Option<PaneRects>, column: u16, row: u16) -> Option<Pane> {
    match rects {
        Some(r) => if r.sidebar.has(column, row) {
            Some(Pane::Sidebar)
        } else if r.preview.has(column, row) {
            Some(Pane::Preview)
        } else if r.text.has(column, row) {
            Some(Pane::Text)
        } else {
            None
        },
        None => None,
    }
}

/// The row of the page list at a place of the terminal, inside its border.
pub open spec fn row_at(rects: Option<PaneRects>, column: u16, row: u16) -> Option<nat> {
    match rects {
        Some(r) => if r.sidebar.x <= column < r.sidebar.x + r.sidebar.width && r.sidebar.y + 1
            <= row < r.sidebar.y + r.sidebar.height - 1 {
            Some((row - r.sidebar.y - 1) as nat)
        } else {
            None
        },
        None => None,
    }
}

/// The page whose cell is at a place of the terminal.
pub open spec fn cell_at(cells: Seq<(PageId, Rect)>, column: u16, row: u16) -> Option<PageId>
    decreases cells.len(),
{
    if cells.len() == 0 {
        None
    } else {
        match cell_at(cells.drop_last(), column, row) {
            Some(id) => Some(id),
            None => if cells.last().1.has(column, row) {
                Some(cells.last().0)
            } else {
                None
            },
        }
    }
}

/// A left click in the main view: it focuses a pane, and may select a page.
pub open spec fn clicked(s: AppModel, column: u16, row: u16) -> AppModel {
    match pane_at(s.pane_rects, column, row) {
        Some(pane) => {
            let t = AppModel { focus: pane, ..s };
            match pane {
                Pane::Sidebar => match row_at(s.pane_rects, column, row) {
                    Some(i) => AppModel { selected: i, text_scroll: 0, ..t },
                    None => t,
                },
                Pane::Preview => match cell_at(s.preview_cells, column, row) {
                    Some(id) => match place_of(s.pages, id) {
                        Some(i) => AppModel { selected: i as nat, text_scroll: 0, ..t },
                        None => t,
                    },
                    None => t,
                },
                Pane::Text => t,
            }
        },
        None => s,
    }
}

/// The wheel was turned upward.
pub open spec fn wheel_up(s: AppModel, pane: Option<Pane>) -> AppModel {
    match pane {
        Some(Pane::Text) => scroll_up(s),
        Some(_) => if s.selected > 0 {
            AppModel { selected: (s.selected - 1) as nat, ..s }
        } else {
            s
        },
        None => s,
    }
}

/// The wheel was turned downward.
pub open spec fn wheel_down(s: AppModel, pane: Option<Pane>) -> AppModel {
    match pane {
        Some(Pane::Text) => scroll_down(s),
        Some(_) => if s.selected + 1 < s.pages.len() {
            AppModel { selected: s.selected + 1, ..s }
        } else {
            s
        },
        None => s,
    }
}

/// The mouse in the main view.
pub open spec fn main_mouse(s: AppModel, m: Mouse) -> AppModel {
    match m.kind {
        MouseKind::DownLeft => clicked(s, m.column, m.row),
        MouseKind::ScrollUp => wheel_up(s, pane_at(s.pane_rects, m.column, m.row)),
        MouseKind::ScrollDown => wheel_down(s, pane_at(s.pane_rects, m.column, m.row)),
        _ => s,
    }
}

/// A key, wherever it goes: to the overlay, else to the editor, else to the
/// main view.
pub open spec fn key_routed(s: AppModel, key: Key, f: EditorFacts) -> AppStep {
    match (s.overlay, s.editor) {
        (Some(o), _) => key_in_overlay(s, o, key),
        (None, Some(e)) => quiet(key_in_editor(s, e, key, f)),
        (None, None) => main_key(s, key),
    }
}

/// The mouse, wherever it goes.
pub open spec fn mouse_routed(s: AppModel, m: Mouse, f: EditorFacts) -> AppModel {
    match (s.overlay, s.editor) {
        (Some(o), _) => mouse_in_overlay(s, o, m),
        (None, Some(e)) => mouse_in_editor(s, e, m, f),
        (None, None) => main_mouse(s, m),
    }
}

// --------------------------------------------------------------------- dialog

/// What came of the save dialog.
pub open spec fn dialog_ended(t: AppModel, choice: SaveChoiceView) -> AppStep {
    let s = AppModel { dialog_in_flight: false, ..t };
    match choice {
        SaveChoiceView::Chosen(out) => sending(
            say(s, "saving to "@ + path::lossy(out)),
            CmdModel::FinishTo { out, overwrite: true },
        ),
        SaveChoiceView::Cancelled => quiet(
            say(s, "save dialog cancelled - press f to try again"@),
        ),
        SaveChoiceView::Unavailable => quiet(
            if s.overlay is None {
                AppModel {
                    overlay: Some(OverlayView::Confirm(overlays::finish_question(output_of(s)))),
                    ..s
                }
            } else {
                say(s, "save dialog unavailable - press f to retry"@)
            },
        ),
    }
}

/// The exit status of the program: one only where the start was found to have
/// failed.
pub open spec fn exit_ok(s: AppModel) -> bool {
    s.startup_report_ok != Some(false)
}

} // verus!
