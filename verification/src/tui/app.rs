//! The state of the interface, and its answers to keys, the mouse, the
//! session, the checks and the clock.
//!
//! Nothing here waits. Every answer is a change of the state and a list of
//! [`AppEffect`]s for the program around it to carry out.

use vstd::prelude::*;

use crate::backend::filedialog::SaveChoice;
use crate::backend::pdf::BuildOutcome;
use crate::check;
use crate::check::{device_label, Report, ReportSource};
use crate::config;
use crate::config::{is_script_lang, Config, ConfigView, PreviewOcr};
use crate::notify::Urgency;
use crate::path;
use crate::path::FilePath;
use crate::session;
use crate::session::model::{CmdModel, MetaModel};
use crate::session::{Busy, Cmd, Event, PageId, PageStatus, PageView, SessionMeta, Stage};
use crate::text;
use crate::text::{cat, cat5, copy_texts, same, split_text, u64_text};
use crate::tui::editor;
use crate::tui::editor::{EditorRects, EditorReply, EditorState, ImageRect};
use crate::tui::input::{Key, KeyCode, Mouse, MouseKind, Rect};
use crate::tui::model;
use crate::tui::model::{AppEffectModel, AppModel, EditorFacts, STATUS_DROP, STATUS_MAX};
use crate::tui::overlays;
use crate::tui::overlays::{Confirm, ConfirmKind, LangPicker, Overlay, OverlayReply, OverlayView};
use crate::tui::ui::{hit_test, preview_cell_at, sidebar_index_at, PaneRects};

verus! {

/// A pane of the main view.
#[derive(Debug, Clone, Copy, PartialEq, Eq, Structural)]
pub enum Pane {
    Sidebar,
    Preview,
    Text,
}

impl Pane {
    /// All panes, in the order in which the focus goes through them.
    pub const ALL: [Pane; 3] = [Pane::Sidebar, Pane::Preview, Pane::Text];

    /// The pane after this one.
    pub open spec fn after(self) -> Pane {
        match self {
            Pane::Sidebar => Pane::Preview,
            Pane::Preview => Pane::Text,
            Pane::Text => Pane::Sidebar,
        }
    }

    /// The pane before this one.
    pub open spec fn before(self) -> Pane {
        match self {
            Pane::Sidebar => Pane::Text,
            Pane::Preview => Pane::Sidebar,
            Pane::Text => Pane::Preview,
        }
    }

    pub fn next(self) -> (r: Self)
        ensures
            r == self.after(),
    {
        match self {
            Pane::Sidebar => Pane::Preview,
            Pane::Preview => Pane::Text,
            Pane::Text => Pane::Sidebar,
        }
    }

    pub fn prev(self) -> (r: Self)
        ensures
            r == self.before(),
    {
        match self {
            Pane::Sidebar => Pane::Text,
            Pane::Preview => Pane::Sidebar,
            Pane::Text => Pane::Preview,
        }
    }

    /// What a pane is called.
    pub open spec fn name(self) -> Seq<char> {
        match self {
            Pane::Sidebar => "Pages"@,
            Pane::Preview => "Preview"@,
            Pane::Text => "Extracted text"@,
        }
    }

    pub fn title(self) -> (r: &'static str)
        ensures
            r@ == self.name(),
    {
        match self {
            Pane::Sidebar => "Pages",
            Pane::Preview => "Preview",
            Pane::Text => "Extracted text",
        }
    }
}

/// The focus goes round: forward and back again leads to the same pane, and
/// three steps lead round once.
pub proof fn law_panes_cycle(p: Pane)
    ensures
        p.after().before() == p,
        p.before().after() == p,
        p.after().after().after() == p,
{
}

/// The settings of the next capture.
#[derive(Debug)]
pub struct Settings {
    pub dpi: u16,
    pub mode: String,
}

/// What a key of the footer stands for.
#[derive(Debug, Clone, Copy, PartialEq, Eq, Structural)]
pub enum Action {
    Scan,
    Rescan,
    Rotate,
    Delete,
    Reorder,
    Finish,
    Open,
    Cancel,
    Settings,
}

/// What the interface asks of the session.
#[derive(Debug, Clone, Copy, PartialEq, Eq, Structural)]
pub enum CommandAction {
    ScanNext,
    Rescan(usize),
    Rotate(usize, bool),
    Delete(usize),
    Move(usize, usize),
    CancelScan,
    ListLangs,
    NewSession,
}

/// Something that the program around the interface has to do.
#[derive(Debug)]
pub enum AppEffect {
    /// Hand a command to the session.
    Send(Cmd),
    /// Make all checks again, then call [`App::apply_report`].
    RunChecks,
    /// Open the desktop's save dialog, then call [`App::handle_dialog_result`].
    SaveDialog { dir: FilePath, filename: String, title: String },
    /// Open a document with the desktop's viewer.
    OpenResult(FilePath),
    /// Show a notification.
    Notify { summary: String, body: String, urgency: Urgency },
}

impl View for AppEffect {
    type V = AppEffectModel;

    open spec fn view(&self) -> AppEffectModel {
        match *self {
            AppEffect::Send(cmd) => AppEffectModel::Send(cmd@),
            AppEffect::RunChecks => AppEffectModel::RunChecks,
            AppEffect::SaveDialog { dir, filename, title } => AppEffectModel::SaveDialog {
                dir: dir@,
                filename: filename@,
                title: title@,
            },
            AppEffect::OpenResult(p) => AppEffectModel::OpenResult(p@),
            AppEffect::Notify { summary, body, urgency } => AppEffectModel::Notify {
                summary: summary@,
                body: body@,
                urgency,
            },
        }
    }
}

/// What a list of effects asks for.
pub open spec fn effects(v: Seq<AppEffect>) -> Seq<AppEffectModel> {
    v.map_values(|e: AppEffect| e@)
}

fn nothing() -> (r: Vec<AppEffect>)
    ensures
        effects(r@) == Seq::<AppEffectModel>::empty(),
{
    let r: Vec<AppEffect> = Vec::new();
    assert(effects(r@) =~= Seq::<AppEffectModel>::empty());
    r
}

fn just(e: AppEffect) -> (r: Vec<AppEffect>)
    ensures
        effects(r@) == seq![e@],
{
    let r = vec![e];
    assert(effects(r@) =~= seq![e@]);
    r
}

/// The state of the interface.
#[derive(Debug)]
pub struct App {
    pub cfg: Config,
    pub settings: Settings,
    pub pages: Vec<PageView>,
    pub selected: usize,
    pub focus: Pane,
    /// The newest line is the last.
    pub status_lines: Vec<String>,
    pub status_scroll: usize,
    pub text_scroll: usize,
    pub meta: Option<SessionMeta>,
    /// What the header says about the scanner.
    pub device_label: String,
    pub overlay: Option<Overlay>,
    pub quit_requested: bool,
    /// The last document: its path, its size in KB, whether it has text.
    pub last_result: Option<(FilePath, u64, bool)>,
    pub report: Option<Report>,
    /// The verdict on the start; none while the scanner is still looked for.
    pub startup_report_ok: Option<bool>,
    /// The scanner is known.
    pub device_known: bool,
    /// A capture was asked for before the scanner was known.
    pub pending_scan: bool,
    /// Checks are being made.
    pub checks_in_flight: bool,
    /// A report that the user asked for has arrived.
    pub rerun_seen: bool,
    pub langs_cache: Vec<String>,
    /// The terminal shows images itself.
    pub picker_available: bool,
    /// Where the panes were drawn last.
    pub pane_rects: Option<PaneRects>,
    /// Where the cells of the preview were drawn last.
    pub preview_cells: Vec<(PageId, Rect)>,
    /// Counts the moments that have passed.
    pub tick: u64,
    /// The desktop's save dialog is open.
    pub dialog_in_flight: bool,
    /// The page editor, while it is open.
    pub editor: Option<EditorState>,
    /// Where the editor's image was drawn last.
    pub editor_rects: Option<EditorRects>,
    /// Where the overlay was drawn last.
    pub overlay_rect: Option<Rect>,
}

/// The session facts, if there are any.
pub open spec fn opt_meta(m: Option<SessionMeta>) -> Option<MetaModel> {
    match m {
        Some(m) => Some(m@),
        None => None,
    }
}

/// The overlay, if there is one.
pub open spec fn opt_overlay(o: Option<Overlay>) -> Option<OverlayView> {
    match o {
        Some(o) => Some(o@),
        None => None,
    }
}

/// The last document, if there is one.
pub open spec fn opt_result(r: Option<(FilePath, u64, bool)>) -> Option<(Seq<u8>, u64, bool)> {
    match r {
        Some(r) => Some((r.0@, r.1, r.2)),
        None => None,
    }
}

/// The report, if there is one.
pub open spec fn opt_report(r: Option<Report>) -> Option<check::ReportView> {
    match r {
        Some(r) => Some(r@),
        None => None,
    }
}

impl View for App {
    type V = AppModel;

    open spec fn view(&self) -> AppModel {
        AppModel {
            cfg: self.cfg@,
            dpi: self.settings.dpi,
            mode: self.settings.mode@,
            pages: session::shown_pages(self.pages@),
            selected: self.selected as nat,
            focus: self.focus,
            status_lines: text::texts(self.status_lines@),
            status_scroll: self.status_scroll as nat,
            text_scroll: self.text_scroll as nat,
            meta: opt_meta(self.meta),
            device_label: self.device_label@,
            overlay: opt_overlay(self.overlay),
            quit_requested: self.quit_requested,
            last_result: opt_result(self.last_result),
            report: opt_report(self.report),
            startup_report_ok: self.startup_report_ok,
            device_known: self.device_known,
            pending_scan: self.pending_scan,
            checks_in_flight: self.checks_in_flight,
            rerun_seen: self.rerun_seen,
            langs_cache: text::texts(self.langs_cache@),
            picker_available: self.picker_available,
            pane_rects: self.pane_rects,
            preview_cells: self.preview_cells@,
            tick: self.tick,
            dialog_in_flight: self.dialog_in_flight,
            editor: self.editor,
            editor_rects: self.editor_rects,
            overlay_rect: self.overlay_rect,
        }
    }
}

/// How many of the languages are languages, not script models.
fn count_languages(langs: &str) -> (r: usize)
    ensures
        r == model::language_count(text::split(langs@, '+')),
{
    let parts = split_text(langs, '+');
    let ghost ps = text::split(langs@, '+');
    let mut n: usize = 0;
    let mut i: usize = 0;
    assert(ps.take(0) =~= Seq::empty());
    while i < parts.len()
        invariant
            i <= parts@.len(),
            n <= i,
            ps == text::texts(parts@),
            n == model::language_count(ps.take(i as int)),
        decreases parts@.len() - i,
    {
        assert(ps.take(i + 1).drop_last() =~= ps.take(i as int));
        assert(ps.take(i + 1).last() == parts@[i as int]@);
        let part = parts[i].as_str();
        if !part.is_empty() && !is_script_lang(part) {
            n = n + 1;
        }
        i = i + 1;
    }
    assert(ps.take(ps.len() as int) =~= ps);
    n
}

impl App {
    /// The interface at the start.
    pub fn new(cfg: Config) -> (r: Self)
        ensures
            r@ == model::started(cfg@),
    {
        let settings = Settings { dpi: cfg.dpi, mode: cfg.mode.clone() };
        let mut status_lines: Vec<String> = vec![
            "detecting scanner - press ? for help".to_owned(),
        ];
        if count_languages(cfg.langs.as_str()) > 1 {
            status_lines.push(
                "hint: mixed OCR languages can garble umlauts (für→fiir) - press L to pick a single language".to_owned(),
            );
        }
        assert(text::texts(status_lines@) =~= model::first_lines(cfg@.langs));
        let r = App {
            cfg,
            settings,
            pages: Vec::new(),
            selected: 0,
            focus: Pane::Sidebar,
            status_lines,
            status_scroll: 0,
            text_scroll: 0,
            meta: None,
            device_label: "detecting...".to_owned(),
            overlay: None,
            quit_requested: false,
            last_result: None,
            report: None,
            startup_report_ok: None,
            device_known: false,
            pending_scan: false,
            checks_in_flight: false,
            rerun_seen: false,
            langs_cache: Vec::new(),
            picker_available: false,
            pane_rects: None,
            preview_cells: Vec::new(),
            tick: 0,
            dialog_in_flight: false,
            editor: None,
            editor_rects: None,
            overlay_rect: None,
        };
        assert(r@.pages =~= Seq::empty());
        assert(r@.langs_cache =~= Seq::empty());
        r
    }

    // ------------------------------------------------------------- facts

    /// Which exclusive resource is in use, as far as is known.
    pub fn busy(&self) -> (r: Busy)
        ensures
            r == model::busy_of(self@),
    {
        match &self.meta {
            Some(m) => m.busy,
            None => Busy::Idle,
        }
    }

    fn finished(&self) -> (r: bool)
        ensures
            r == model::finished(self@),
    {
        match &self.meta {
            Some(m) => m.finished,
            None => false,
        }
    }

    fn any_pending(&self) -> (r: bool)
        ensures
            r == model::any_pending(self@.pages),
    {
        let mut i: usize = 0;
        while i < self.pages.len()
            invariant
                i <= self.pages@.len(),
                self@.pages == session::shown_pages(self.pages@),
                forall|j: int|
                    0 <= j < i ==> !model::shown_delete_pending(#[trigger] self@.pages[j]),
            decreases self.pages@.len() - i,
        {
            assert(self@.pages[i as int] == self.pages@[i as int]@);
            if self.pages[i].status == PageStatus::DeletePending {
                return true;
            }
            i = i + 1;
        }
        false
    }

    /// Whether a capture can begin.
    pub fn scan_allowed(&self) -> (r: bool)
        ensures
            r == model::can_scan(self@),
    {
        self.device_known && self.busy() == Busy::Idle && !self.finished() && !self.any_pending()
    }

    /// The page that is selected.
    pub fn selected_page(&self) -> (r: Option<&PageView>)
        ensures
            match r {
                Some(p) => model::chosen(self@) == Some(p@),
                None => model::chosen(self@) is None,
            },
    {
        if self.selected < self.pages.len() {
            assert(self@.pages[self.selected as int] == self.pages@[self.selected as int]@);
            Some(&self.pages[self.selected])
        } else {
            None
        }
    }

    /// Adds a line to the status.
    pub fn set_status(&mut self, msg: String)
        ensures
            final(self)@ == model::say(old(self)@, msg@),
    {
        let ghost before = self.status_lines@;
        self.status_lines.push(msg);
        assert(text::texts(self.status_lines@) =~= text::texts(before).push(msg@));
        let n: usize = self.status_lines.len();
        if n > STATUS_MAX {
            let ghost all = self.status_lines@;
            let rest = self.status_lines.split_off(STATUS_DROP);
            assert(text::texts(rest@) =~= text::texts(all).skip(STATUS_DROP as int));
            self.status_lines = rest;
        }
        self.status_scroll = 0;
    }

    fn tell(&mut self, msg: &str)
        ensures
            final(self)@ == model::say(old(self)@, msg@),
    {
        self.set_status(msg.to_owned());
    }

    /// Holds the selection inside the list.
    pub fn sync_selection(&mut self)
        ensures
            final(self)@ == (AppModel {
                selected: model::held_in(old(self)@.selected, old(self)@.pages.len()),
                ..old(self)@
            }),
    {
        let n: usize = self.pages.len();
        if n == 0 {
            self.selected = 0;
        } else if self.selected >= n {
            self.selected = n - 1;
        }
    }

    /// Whether leaving needs a question.
    pub fn needs_quit_confirm(&self) -> (r: bool)
        ensures
            r == model::must_ask(self@),
    {
        if self.finished() {
            return false;
        }
        let mut i: usize = 0;
        while i < self.pages.len()
            invariant
                i <= self.pages@.len(),
                !model::finished(self@),
                self@.pages == session::shown_pages(self.pages@),
                forall|j: int| 0 <= j < i ==> !model::holds_content(#[trigger] self@.pages[j]),
            decreases self.pages@.len() - i,
        {
            assert(self@.pages[i as int] == self.pages@[i as int]@);
            if self.pages[i].status != PageStatus::Failed {
                return true;
            }
            i = i + 1;
        }
        false
    }

    fn all_buildable(&self) -> (r: bool)
        ensures
            r == model::all_buildable(self@.pages),
    {
        let mut i: usize = 0;
        while i < self.pages.len()
            invariant
                i <= self.pages@.len(),
                self@.pages == session::shown_pages(self.pages@),
                forall|j: int| 0 <= j < i ==> model::buildable(#[trigger] self@.pages[j]),
            decreases self.pages@.len() - i,
        {
            assert(self@.pages[i as int] == self.pages@[i as int]@);
            let p = &self.pages[i];
            let ocr = match p.stage {
                Some(s) => s == Stage::Ocr,
                None => false,
            };
            if !(p.status == PageStatus::Ready || (p.status == PageStatus::Processing && ocr)) {
                return false;
            }
            i = i + 1;
        }
        true
    }

    /// Whether what a key stands for is possible now.
    pub fn action_allowed(&self, action: Action) -> (r: bool)
        ensures
            r == model::allowed(self@, action),
    {
        let busy = self.busy();
        match action {
            Action::Scan => self.scan_allowed(),
            Action::Rescan => self.device_known && busy == Busy::Idle && !self.finished()
                && match self.selected_page() {
                Some(p) => (p.status == PageStatus::Ready || p.status == PageStatus::Failed)
                    && !p.text_pending,
                None => false,
            },
            Action::Rotate => busy != Busy::Finishing && !self.finished()
                && match self.selected_page() {
                Some(p) => p.status == PageStatus::Ready && !p.text_pending,
                None => false,
            },
            Action::Delete => self.pages.len() > 0,
            Action::Reorder => self.pages.len() > 0,
            Action::Finish => !self.dialog_in_flight && self.pages.len() > 0 && busy == Busy::Idle
                && !self.finished() && self.all_buildable(),
            Action::Open => self.last_result.is_some(),
            Action::Cancel => busy == Busy::Scanning,
            Action::Settings => busy != Busy::Finishing,
        }
    }

    // ----------------------------------------------------------- session

    /// Where a page stands in the list.
    pub fn place(&self, id: PageId) -> (r: Option<usize>)
        ensures
            match r {
                Some(i) => i < self.pages@.len() && model::place_of(self@.pages, id) == Some(
                    i as int,
                ),
                None => model::place_of(self@.pages, id) is None,
            },
    {
        let mut i: usize = 0;
        while i < self.pages.len()
            invariant
                i <= self.pages@.len(),
                self@.pages == session::shown_pages(self.pages@),
                forall|j: int| 0 <= j < i ==> (#[trigger] self@.pages[j]).id != id,
            decreases self.pages@.len() - i,
        {
            assert(self@.pages[i as int] == self.pages@[i as int]@);
            if self.pages[i].id == id {
                proof {
                    lemma_place_at(self@.pages, id, i as int);
                }
                return Some(i);
            }
            i = i + 1;
        }
        proof {
            lemma_no_place(self@.pages, id);
        }
        None
    }

    /// There is a new list of pages.
    fn take_pages(&mut self, pages: Vec<PageView>)
        ensures
            final(self)@ == (AppModel {
                selected: model::reselected(old(self)@, session::shown_pages(pages@)),
                pages: session::shown_pages(pages@),
                ..old(self)@
            }),
    {
        let old_id = match self.selected_page() {
            Some(p) => Some(p.id),
            None => None,
        };
        self.pages = pages;
        if let Some(id) = old_id {
            if let Some(i) = self.place(id) {
                self.selected = i;
            }
        }
        self.sync_selection();
    }

    /// The pages and the session facts have changed.
    fn on_pages(&mut self, pages: Vec<PageView>, meta: SessionMeta)
        ensures
            final(self)@ == model::pages_changed(
                old(self)@,
                session::shown_pages(pages@),
                meta@,
            ),
    {
        self.take_pages(pages);
        self.meta = Some(meta);
        let quitting = match &self.overlay {
            Some(Overlay::Confirm(c)) => match &c.kind {
                ConfirmKind::Quit => true,
                _ => false,
            },
            _ => false,
        };
        if quitting && !self.needs_quit_confirm() {
            self.overlay = None;
        }
    }

    /// A build has ended.
    fn on_finished(&mut self, outcome: Option<BuildOutcome>, out: FilePath, size_kb: u64) -> (r:
        Vec<AppEffect>)
        ensures
            final(self)@ == model::build_ended(old(self)@, outcome, out@, size_kb).0,
            effects(r@) == model::build_ended(old(self)@, outcome, out@, size_kb).1,
    {
        let name = out.display();
        match outcome {
            Some(BuildOutcome::Searchable) => {
                self.last_result = Some((out, size_kb, true));
                let line = cat5(
                    "done: ",
                    name.as_str(),
                    " (",
                    u64_text(size_kb).as_str(),
                    " KB)",
                );
                self.set_status(line);
                just(
                    AppEffect::Notify {
                        summary: "Scan complete".to_owned(),
                        body: name,
                        urgency: Urgency::Normal,
                    },
                )
            },
            Some(BuildOutcome::WithoutTextLayer) => {
                self.last_result = Some((out, size_kb, false));
                self.set_status(
                    cat("done (no text layer - ocrmypdf failed): ", name.as_str()),
                );
                just(
                    AppEffect::Notify {
                        summary: "Scan complete (no text layer)".to_owned(),
                        body: name,
                        urgency: Urgency::Critical,
                    },
                )
            },
            None => just(
                AppEffect::Notify {
                    summary: "PDF build failed".to_owned(),
                    body: "See the log for details".to_owned(),
                    urgency: Urgency::Critical,
                },
            ),
        }
    }

    /// The installed languages are known.
    fn on_langs(&mut self, langs: Vec<String>)
        ensures
            model::langs_arrived(old(self)@, text::texts(langs@), final(self)@),
    {
        let copy = copy_texts(langs.as_slice());
        self.langs_cache = langs;
        match self.overlay.take() {
            Some(Overlay::LangPicker(p)) => {
                let mut picker = p;
                picker.set_available(copy);
                self.overlay = Some(Overlay::LangPicker(picker));
            },
            other => {
                self.overlay = other;
            },
        }
    }

    /// The session has told something.
    pub fn handle_session_event(&mut self, ev: Event) -> (r: Vec<AppEffect>)
        ensures
            match ev {
                Event::Pages { pages, meta } => final(self)@ == model::pages_changed(
                    old(self)@,
                    session::shown_pages(pages@),
                    meta@,
                ) && r@.len() == 0,
                Event::Status(msg) => final(self)@ == model::say(old(self)@, msg@) && r@.len() == 0,
                Event::Finished { outcome, path, size_kb } => final(self)@ == model::build_ended(
                    old(self)@,
                    outcome,
                    path@,
                    size_kb,
                ).0 && effects(r@) == model::build_ended(
                    old(self)@,
                    outcome,
                    path@,
                    size_kb,
                ).1,
                Event::Langs(langs) => model::langs_arrived(
                    old(self)@,
                    text::texts(langs@),
                    final(self)@,
                ) && r@.len() == 0,
            },
    {
        match ev {
            Event::Pages { pages, meta } => {
                self.on_pages(pages, meta);
                Vec::new()
            },
            Event::Status(msg) => {
                self.set_status(msg);
                Vec::new()
            },
            Event::Finished { outcome, path, size_kb } => self.on_finished(outcome, path, size_kb),
            Event::Langs(langs) => {
                self.on_langs(langs);
                Vec::new()
            },
        }
    }

    // ----------------------------------------------------------- reports

    /// The question of the scanner is answered.
    fn answer_device(&mut self, report: &Report) -> (r: Vec<AppEffect>)
        ensures
            final(self)@ == model::device_answered(old(self)@, report@),
            effects(r@) == (match report@.device {
                Some(d) => seq![AppEffectModel::Send(CmdModel::SetDevice(d.name))],
                None => Seq::empty(),
            }),
    {
        let found = report.device.is_some();
        self.device_known = found;
        if self.startup_report_ok.is_none() && report.source == ReportSource::StartupFinal {
            self.startup_report_ok = Some(found && report.ok());
        }
        match &report.device {
            Some(d) => {
                self.device_label = device_label(Some(d));
                just(AppEffect::Send(Cmd::SetDevice(d.name.clone())))
            },
            None => {
                self.device_label = device_label(None);
                nothing()
            },
        }
    }

    /// The diagnostics come up where a check has failed.
    fn show_failures(&mut self, report: &Report)
        ensures
            final(self)@ == model::failures_shown(old(self)@, report@),
    {
        if !report.ok() && self.overlay.is_none() {
            self.overlay = Some(Overlay::Diagnostics);
            if report.device.is_none() {
                self.tell("no scanner found - see diagnostics (press ! to reopen)");
            }
        }
    }

    /// What becomes of a capture that was asked for before the scanner was
    /// known.
    fn settle_buffered_scan(&mut self, report: &Report)
        ensures
            final(self)@ == model::buffered_scan(old(self)@, report@),
    {
        if self.pending_scan {
            if report.device.is_some() {
                self.tell("scanner ready - starting buffered scan");
            } else {
                self.pending_scan = false;
                self.tell("no scanner found - buffered scan dropped");
            }
        }
    }

    /// A report has arrived that comes too late.
    fn drop_report(&mut self, report: &Report)
        ensures
            final(self)@ == model::outdated_report(old(self)@, report@),
    {
        if self.startup_report_ok.is_none() && report.settled() {
            self.startup_report_ok = match &self.report {
                Some(newer) => Some(newer.device.is_some() && newer.ok()),
                None => None,
            };
        }
    }

    /// A report has arrived.
    pub fn apply_report(&mut self, report: Report) -> (r: Vec<AppEffect>)
        ensures
            final(self)@ == model::report_arrived(old(self)@, report@).0,
            effects(r@) == model::report_arrived(old(self)@, report@).1,
    {
        if report.source == ReportSource::ReRun {
            self.checks_in_flight = false;
            self.rerun_seen = true;
        } else if self.rerun_seen {
            self.drop_report(&report);
            return nothing();
        }
        self.report = Some(report.clone());
        if report.settled() {
            let r = self.answer_device(&report);
            self.show_failures(&report);
            self.settle_buffered_scan(&report);
            r
        } else {
            if !report.ok() && self.overlay.is_none() {
                self.overlay = Some(Overlay::Diagnostics);
            }
            nothing()
        }
    }

    /// The checks are to be made again.
    pub fn request_checks(&mut self) -> (r: Vec<AppEffect>)
        ensures
            final(self)@ == model::checks_asked(old(self)@).0,
            effects(r@) == model::checks_asked(old(self)@).1,
    {
        if self.checks_in_flight {
            return nothing();
        }
        self.checks_in_flight = true;
        self.tell("re-running checks...");
        just(AppEffect::RunChecks)
    }

    // -------------------------------------------------------------- tick

    /// The command for the next capture.
    fn scan_cmd(&self) -> (r: Cmd)
        ensures
            r@ == (CmdModel::ScanNext { dpi: self@.dpi, mode: self@.mode }),
    {
        Cmd::ScanNext { dpi: self.settings.dpi, mode: self.settings.mode.clone() }
    }

    /// A capture that was asked for before the scanner was known begins, once
    /// it can.
    pub fn fire_pending_scan(&mut self) -> (r: Vec<AppEffect>)
        ensures
            final(self)@ == model::pending_scan_fired(old(self)@).0,
            effects(r@) == model::pending_scan_fired(old(self)@).1,
    {
        if !self.pending_scan || !self.scan_allowed() {
            return nothing();
        }
        self.pending_scan = false;
        just(AppEffect::Send(self.scan_cmd()))
    }

    /// The request for the text of the selected page, where it is wanted.
    pub fn request_text_if_needed(&self) -> (r: Vec<AppEffect>)
        ensures
            effects(r@) == model::text_request(self@),
    {
        if self.cfg.preview_ocr != PreviewOcr::Lazy || self.busy() == Busy::Finishing
            || self.finished() {
            return nothing();
        }
        if let Some(p) = self.selected_page() {
            let tried = match p.ocr_failed_gen {
                Some(g) => g == p.image_gen,
                None => false,
            };
            if p.status == PageStatus::Ready && p.text.is_none() && !p.text_pending && !tried {
                return just(AppEffect::Send(Cmd::RequestText(p.id)));
            }
        }
        nothing()
    }

    /// A moment has passed.
    pub fn on_tick(&mut self) -> (r: Vec<AppEffect>)
        ensures
            final(self)@ == model::ticked(old(self)@).0,
            effects(r@) == model::ticked(old(self)@).1,
    {
        self.tick = if self.tick == u64::MAX {
            0
        } else {
            self.tick + 1
        };
        let mut r = self.fire_pending_scan();
        let mut more = self.request_text_if_needed();
        let ghost a = r@;
        let ghost b = more@;
        r.append(&mut more);
        assert(effects(r@) =~= effects(a) + effects(b));
        r
    }
}

proof fn lemma_no_place(pages: Seq<session::model::PageShown>, id: PageId)
    requires
        forall|j: int| 0 <= j < pages.len() ==> (#[trigger] pages[j]).id != id,
    ensures
        model::place_of(pages, id) is None,
    decreases pages.len(),
{
    if pages.len() > 0 {
        let init = pages.drop_last();
        assert forall|j: int| 0 <= j < init.len() implies (#[trigger] init[j]).id != id by {
            assert(init[j] == pages[j]);
        }
        lemma_no_place(init, id);
    }
}

proof fn lemma_place_at(pages: Seq<session::model::PageShown>, id: PageId, i: int)
    requires
        0 <= i < pages.len(),
        pages[i].id == id,
        forall|j: int| 0 <= j < i ==> (#[trigger] pages[j]).id != id,
    ensures
        model::place_of(pages, id) == Some(i),
    decreases pages.len(),
{
    let init = pages.drop_last();
    assert forall|j: int| 0 <= j < i && j < init.len() implies (#[trigger] init[j]).id != id by {
        assert(init[j] == pages[j]);
    }
    if i < init.len() {
        lemma_place_at(init, id, i);
    } else {
        lemma_no_place(init, id);
    }
}

/// The command behind an action.
pub fn to_cmd(app: &App, action: CommandAction) -> (r: Cmd)
    ensures
        r@ == model::command_of(app@, action),
{
    match action {
        CommandAction::ScanNext => app.scan_cmd(),
        CommandAction::Rescan(id) => Cmd::Rescan {
            id: id as u32,
            dpi: app.settings.dpi,
            mode: app.settings.mode.clone(),
        },
        CommandAction::Rotate(id, cw) => Cmd::Rotate(id as u32, cw),
        CommandAction::Delete(id) => Cmd::Delete(id as u32),
        CommandAction::Move(from, to) => Cmd::Move { from, to },
        CommandAction::CancelScan => Cmd::CancelScan,
        CommandAction::ListLangs => Cmd::ListLangs,
        CommandAction::NewSession => Cmd::NewSession,
    }
}

/// The resolution after a step through the presets: from one preset to the
/// next, from anything else to the nearest in that direction.
pub fn next_dpi(current: u16, dir: i32) -> (r: u16)
    ensures
        r == model::dpi_stepped(current, dir as int),
{
    let presets = config::DPI_PRESETS;
    assert(presets@ =~= seq![150u16, 200, 300, 600]);
    let mut i: usize = 0;
    while i < 4
        invariant
            i <= 4,
            presets@ == seq![150u16, 200, 300, 600],
            forall|j: int| 0 <= j < i ==> presets@[j] != current,
        decreases 4 - i,
    {
        if presets[i] == current {
            let k: i64 = i as i64 + dir as i64;
            let new: usize = if k < 0 {
                0
            } else if k > 3 {
                3
            } else {
                k as usize
            };
            return presets[new];
        }
        i = i + 1;
    }
    assert(presets@[0] != current && presets@[1] != current && presets@[2] != current && presets@[3]
        != current);
    if dir >= 0 {
        if current < 150 {
            150
        } else if current < 200 {
            200
        } else if current < 300 {
            300
        } else {
            600
        }
    } else {
        if current > 600 {
            600
        } else if current > 300 {
            300
        } else if current > 200 {
            200
        } else {
            150
        }
    }
}

/// A step always leads to a preset, upward to one that is not lower and
/// downward to one that is not higher, where the presets reach that far.
pub proof fn law_dpi_steps(current: u16, dir: int)
    ensures
        dpi_preset(model::dpi_stepped(current, dir)),
        dir >= 0 && current <= 600 ==> model::dpi_stepped(current, dir) >= current,
        dir < 0 && current >= 150 ==> model::dpi_stepped(current, dir) <= current,
{
}

/// One of the resolutions that `+` and `-` step through.
pub open spec fn dpi_preset(d: u16) -> bool {
    d == 150 || d == 200 || d == 300 || d == 600
}

impl App {
    // -------------------------------------------------------------- keys

    /// The program is to end.
    fn ask_quit(&mut self)
        ensures
            final(self)@ == model::quit_asked(old(self)@),
    {
        if self.needs_quit_confirm() {
            self.overlay = Some(Overlay::Confirm(Confirm::quit()));
        } else {
            self.quit_requested = true;
        }
    }

    /// A capture is asked for.
    fn key_scan(&mut self) -> (r: Vec<AppEffect>)
        ensures
            final(self)@ == model::scan_key(old(self)@).0,
            effects(r@) == model::scan_key(old(self)@).1,
    {
        if self.scan_allowed() {
            return just(AppEffect::Send(self.scan_cmd()));
        }
        if !self.device_known {
            if !self.pending_scan {
                self.pending_scan = true;
                self.tell("waiting for scanner - scan will start when detected");
            }
        } else if self.busy() == Busy::Finishing {
            self.tell("blocked: building PDF - scan once it finishes");
        } else if self.finished() {
            self.tell("blocked: PDF already built - press n for a new session");
        } else if self.busy() == Busy::Scanning {
            self.tell("blocked: scanner busy - press Esc to cancel");
        } else {
            self.tell("blocked: waiting for deferred delete");
        }
        nothing()
    }

    fn key_cancel(&mut self) -> (r: Vec<AppEffect>)
        ensures
            final(self)@ == model::cancel_key(old(self)@).0,
            effects(r@) == model::cancel_key(old(self)@).1,
    {
        if self.action_allowed(Action::Cancel) {
            just(AppEffect::Send(Cmd::CancelScan))
        } else {
            nothing()
        }
    }

    fn key_delete(&mut self) -> (r: Vec<AppEffect>)
        ensures
            final(self)@ == model::delete_key(old(self)@).0,
            effects(r@) == model::delete_key(old(self)@).1,
    {
        let (id, ask) = match self.selected_page() {
            Some(p) => (
                p.id,
                p.status == PageStatus::Ready || p.status == PageStatus::Processing,
            ),
            None => {
                return nothing();
            },
        };
        if ask {
            self.overlay = Some(Overlay::Confirm(Confirm::delete_page(id)));
            nothing()
        } else {
            just(AppEffect::Send(Cmd::Delete(id)))
        }
    }

    fn key_move_down(&mut self) -> (r: Vec<AppEffect>)
        ensures
            final(self)@ == model::move_down(old(self)@).0,
            effects(r@) == model::move_down(old(self)@).1,
    {
        let sel: usize = self.selected;
        let n: usize = self.pages.len();
        if sel < n && sel + 1 < n {
            self.selected = sel + 1;
            just(AppEffect::Send(Cmd::Move { from: sel, to: sel + 1 }))
        } else {
            nothing()
        }
    }

    fn key_move_up(&mut self) -> (r: Vec<AppEffect>)
        ensures
            final(self)@ == model::move_up(old(self)@).0,
            effects(r@) == model::move_up(old(self)@).1,
    {
        let sel: usize = self.selected;
        if sel > 0 {
            self.selected = sel - 1;
            just(AppEffect::Send(Cmd::Move { from: sel, to: sel - 1 }))
        } else {
            nothing()
        }
    }

    fn select_next(&mut self)
        ensures
            final(self)@ == model::select_next(old(self)@),
    {
        let n: usize = self.pages.len();
        if self.selected < n && self.selected + 1 < n {
            self.selected = self.selected + 1;
            self.text_scroll = 0;
        }
    }

    fn select_prev(&mut self)
        ensures
            final(self)@ == model::select_prev(old(self)@),
    {
        if self.selected > 0 {
            self.selected = self.selected - 1;
            self.text_scroll = 0;
        }
    }

    fn scroll_down(&mut self)
        ensures
            final(self)@ == model::scroll_down(old(self)@),
    {
        if self.text_scroll < usize::MAX {
            self.text_scroll = self.text_scroll + 1;
        }
    }

    fn scroll_up(&mut self)
        ensures
            final(self)@ == model::scroll_up(old(self)@),
    {
        if self.text_scroll > 0 {
            self.text_scroll = self.text_scroll - 1;
        }
    }

    /// Where the document goes, as far as is known.
    fn output(&self) -> (r: FilePath)
        ensures
            r@ == model::output_of(self@),
    {
        match &self.meta {
            Some(m) => m.output_path.clone(),
            None => FilePath::empty(),
        }
    }

    /// The document is to be built.
    fn key_finish(&mut self) -> (r: Vec<AppEffect>)
        ensures
            final(self)@ == model::finish_key(old(self)@).0,
            effects(r@) == model::finish_key(old(self)@).1,
    {
        if !self.action_allowed(Action::Finish) {
            return nothing();
        }
        let out = self.output();
        let dir = match out.parent() {
            Some(p) => if !p.is_empty() {
                p
            } else {
                self.cfg.output.clone()
            },
            None => self.cfg.output.clone(),
        };
        let filename = match out.file_name() {
            Some(n) => n.display(),
            None => "".to_owned(),
        };
        self.dialog_in_flight = true;
        just(AppEffect::SaveDialog { dir, filename, title: "Save PDF as".to_owned() })
    }

    fn key_new(&mut self) -> (r: Vec<AppEffect>)
        ensures
            final(self)@ == model::new_key(old(self)@).0,
            effects(r@) == model::new_key(old(self)@).1,
    {
        if self.finished() {
            return just(AppEffect::Send(Cmd::NewSession));
        }
        self.overlay = Some(Overlay::Confirm(Confirm::new_session()));
        nothing()
    }

    fn key_mode(&mut self)
        ensures
            final(self)@ == model::mode_key(old(self)@),
    {
        if self.action_allowed(Action::Settings) {
            let mode = if same(self.settings.mode.as_str(), "gray") {
                "color"
            } else if same(self.settings.mode.as_str(), "color") {
                "lineart"
            } else {
                "gray"
            };
            self.settings.mode = mode.to_owned();
            self.set_status(cat("mode: ", mode));
        }
    }

    fn key_dpi(&mut self, dir: i32)
        requires
            -1 <= dir <= 1,
        ensures
            final(self)@ == model::dpi_key(old(self)@, dir as int),
    {
        if self.action_allowed(Action::Settings) {
            let dpi: u16 = next_dpi(self.settings.dpi, dir);
            self.settings.dpi = dpi;
            self.set_status(cat("dpi: ", u64_text(dpi as u64).as_str()));
        }
    }

    fn key_langs(&mut self) -> (r: Vec<AppEffect>)
        ensures
            final(self)@ == model::langs_key(old(self)@).0,
            effects(r@) == model::langs_key(old(self)@).1,
    {
        let picker = LangPicker::new(self.cfg.langs.as_str());
        self.overlay = Some(Overlay::LangPicker(picker));
        just(AppEffect::Send(Cmd::ListLangs))
    }

    fn key_digit(&mut self, c: char)
        requires
            '1' <= c <= '9',
        ensures
            final(self)@ == model::digit_key(old(self)@, (c as nat - '0' as nat) as nat),
    {
        let n: usize = (c as u32 - '0' as u32) as usize;
        if n <= self.pages.len() {
            self.selected = n - 1;
            self.text_scroll = 0;
        }
    }

    /// A key that moves in a pane.
    fn key_pane(&mut self, code: KeyCode) -> (r: Vec<AppEffect>)
        ensures
            final(self)@ == model::pane_key(old(self)@, code).0,
            effects(r@) == model::pane_key(old(self)@, code).1,
    {
        let down = code == KeyCode::Char('j') || code == KeyCode::Down;
        let up = code == KeyCode::Char('k') || code == KeyCode::Up;
        let right = code == KeyCode::Char('J') || code == KeyCode::Right;
        let left = code == KeyCode::Char('K') || code == KeyCode::Left;
        match self.focus {
            Pane::Sidebar => {
                if right {
                    return self.key_move_down();
                }
                if left {
                    return self.key_move_up();
                }
                if down {
                    self.select_next();
                } else if up {
                    self.select_prev();
                } else if code == KeyCode::Enter {
                    return self.key_scan();
                }
            },
            Pane::Text => {
                if down {
                    self.scroll_down();
                } else if up {
                    self.scroll_up();
                }
            },
            Pane::Preview => {},
        }
        nothing()
    }

    /// A command about the selected page.
    fn key_page(&mut self, c: char) -> (r: Vec<AppEffect>)
        requires
            c == 'r' || c == 'R' || c == '<',
        ensures
            final(self)@ == model::char_key(old(self)@, c).0,
            effects(r@) == model::char_key(old(self)@, c).1,
    {
        let id: PageId = match self.selected_page() {
            Some(p) => p.id,
            None => {
                return nothing();
            },
        };
        let action = if c == 'r' {
            CommandAction::Rescan(id as usize)
        } else {
            CommandAction::Rotate(id as usize, c == 'R')
        };
        just(AppEffect::Send(to_cmd(self, action)))
    }

    /// A letter, digit or sign.
    fn key_char(&mut self, c: char) -> (r: Vec<AppEffect>)
        ensures
            final(self)@ == model::char_key(old(self)@, c).0,
            effects(r@) == model::char_key(old(self)@, c).1,
    {
        if c == 's' {
            return self.key_scan();
        }
        if c == 'c' {
            return self.key_cancel();
        }
        if c == 'r' || c == 'R' || c == '<' {
            return self.key_page(c);
        }
        if c == 'd' {
            return self.key_delete();
        }
        if c == 'f' {
            return self.key_finish();
        }
        if c == 'o' {
            return match &self.last_result {
                Some((p, _, _)) => just(AppEffect::OpenResult(p.clone())),
                None => nothing(),
            };
        }
        if c == 'n' {
            return self.key_new();
        }
        if c == 'L' {
            return self.key_langs();
        }
        if c == '?' {
            self.overlay = Some(Overlay::Help);
        } else if c == '!' {
            self.overlay = Some(Overlay::Diagnostics);
        } else if c == 'q' {
            self.ask_quit();
        } else if c == 'm' {
            self.key_mode();
        } else if c == '+' || c == '=' {
            self.key_dpi(1);
        } else if c == '-' || c == '_' {
            self.key_dpi(-1);
        } else if '1' <= c && c <= '9' {
            self.key_digit(c);
        } else {
            return self.key_pane(KeyCode::Char(c));
        }
        nothing()
    }

    /// A key in the main view.
    fn main_key(&mut self, key: Key) -> (r: Vec<AppEffect>)
        ensures
            final(self)@ == model::main_key(old(self)@, key).0,
            effects(r@) == model::main_key(old(self)@, key).1,
    {
        if key.is_ctrl_c() {
            self.ask_quit();
            return nothing();
        }
        match key.code {
            KeyCode::Char(c) => self.key_char(c),
            KeyCode::Tab => {
                self.focus = self.focus.next();
                self.text_scroll = 0;
                nothing()
            },
            KeyCode::BackTab => {
                self.focus = self.focus.prev();
                self.text_scroll = 0;
                nothing()
            },
            KeyCode::Esc => self.key_cancel(),
            _ => self.key_pane(key.code),
        }
    }

    // ---------------------------------------------------------- overlays

    /// A question was answered with yes.
    pub fn accept_confirm(&mut self, kind: ConfirmKind) -> (r: Vec<AppEffect>)
        ensures
            final(self)@ == model::answered_yes(old(self)@, kind@).0,
            effects(r@) == model::answered_yes(old(self)@, kind@).1,
    {
        match kind {
            ConfirmKind::Quit => {
                self.quit_requested = true;
                nothing()
            },
            ConfirmKind::Finish { out, overwrite } => just(
                AppEffect::Send(Cmd::FinishTo { out, overwrite }),
            ),
            ConfirmKind::NewSession => just(AppEffect::Send(Cmd::NewSession)),
            ConfirmKind::DeletePage(id) => just(AppEffect::Send(Cmd::Delete(id))),
            ConfirmKind::DeleteBusy => nothing(),
            ConfirmKind::Crop { id, rect } => {
                if let Some(e) = self.editor {
                    self.editor = Some(
                        EditorState {
                            page_id: e.page_id,
                            crop: None,
                            drag: None,
                            esc_pending: false,
                        },
                    );
                }
                just(
                    AppEffect::Send(
                        Cmd::Crop { id, x: rect.x, y: rect.y, w: rect.w, h: rect.h },
                    ),
                )
            },
        }
    }

    /// Other languages have been picked.
    fn set_langs(&mut self, langs: String) -> (r: Vec<AppEffect>)
        ensures
            final(self)@ == model::say(
                (AppModel { cfg: ConfigView { langs: langs@, ..old(self)@.cfg }, ..old(self)@ }),
                "langs: "@ + langs@,
            ),
            effects(r@) == seq![AppEffectModel::Send(CmdModel::SetLangs(langs@))],
    {
        let line = cat("langs: ", langs.as_str());
        self.cfg.langs = langs.clone();
        self.set_status(line);
        just(AppEffect::Send(Cmd::SetLangs(langs)))
    }

    /// A key in an overlay, which has been taken out.
    fn overlay_key(&mut self, o: Overlay, key: Key) -> (r: Vec<AppEffect>)
        ensures
            final(self)@ == model::key_in_overlay(old(self)@, o@, key).0,
            effects(r@) == model::key_in_overlay(old(self)@, o@, key).1,
    {
        let mut o = o;
        let reply = overlays::handle_key(&mut o, key);
        match reply {
            OverlayReply::Keep => {
                self.overlay = Some(o);
                nothing()
            },
            OverlayReply::Close => {
                self.overlay = None;
                nothing()
            },
            OverlayReply::RunChecks => {
                self.overlay = Some(o);
                self.request_checks()
            },
            OverlayReply::SetLangs(langs) => {
                self.overlay = None;
                self.set_langs(langs)
            },
            OverlayReply::Accept(kind) => {
                self.overlay = None;
                self.accept_confirm(kind)
            },
        }
    }

    // ------------------------------------------------------------ editor

    /// Opens the editor of a page.
    pub fn open_editor(&mut self, page_id: PageId)
        ensures
            final(self)@ == (AppModel {
                editor: Some(editor::opened(page_id)),
                editor_rects: None,
                ..old(self)@
            }),
    {
        self.editor = Some(EditorState::open(page_id));
        self.editor_rects = None;
    }

    /// Leaves the editor.
    pub fn close_editor(&mut self)
        ensures
            final(self)@ == model::editor_closed(old(self)@),
    {
        self.editor = None;
        self.editor_rects = None;
    }

    /// The crop rectangle, while the tool is on.
    pub fn editor_crop_rect(&self) -> (r: Option<ImageRect>)
        ensures
            r == (match self@.editor {
                Some(e) => e.crop,
                None => None,
            }),
    {
        match self.editor {
            Some(e) => e.crop,
            None => None,
        }
    }

    /// A key in the editor.
    fn editor_key(&mut self, e: EditorState, key: Key, f: EditorFacts)
        requires
            editor::editor_ok(e, f.orig),
        ensures
            final(self)@ == model::key_in_editor(old(self)@, e, key, f),
    {
        let mut e = e;
        let reply = e.handle_key(key, f.orig, f.ready);
        self.editor = Some(e);
        match reply {
            EditorReply::Nothing => {},
            EditorReply::Quit => {
                self.ask_quit();
            },
            EditorReply::Close => {
                self.close_editor();
            },
            EditorReply::Help => {
                self.overlay = Some(Overlay::Help);
            },
            EditorReply::Diagnostics => {
                self.overlay = Some(Overlay::Diagnostics);
            },
            EditorReply::Confirm(id, rect) => {
                self.overlay = Some(Overlay::Confirm(Confirm::crop(id, rect)));
            },
            _ => {
                if let Some(m) = reply.message() {
                    self.tell(m);
                }
            },
        }
    }

    // ------------------------------------------------------------- mouse

    /// A left click in the main view.
    fn click(&mut self, column: u16, row: u16)
        ensures
            final(self)@ == model::clicked(old(self)@, column, row),
    {
        match hit_test(self, (column, row)) {
            Some(pane) => {
                self.focus = pane;
                match pane {
                    Pane::Sidebar => {
                        if let Some(i) = sidebar_index_at(self, (column, row)) {
                            self.selected = i;
                            self.text_scroll = 0;
                        }
                    },
                    Pane::Preview => {
                        if let Some(id) = preview_cell_at(self, (column, row)) {
                            if let Some(i) = self.place(id) {
                                self.selected = i;
                                self.text_scroll = 0;
                            }
                        }
                    },
                    Pane::Text => {},
                }
            },
            None => {},
        }
    }

    fn wheel_up(&mut self, pane: Option<Pane>)
        ensures
            final(self)@ == model::wheel_up(old(self)@, pane),
    {
        match pane {
            Some(Pane::Text) => self.scroll_up(),
            Some(_) => {
                if self.selected > 0 {
                    self.selected = self.selected - 1;
                }
            },
            None => {},
        }
    }

    fn wheel_down(&mut self, pane: Option<Pane>)
        ensures
            final(self)@ == model::wheel_down(old(self)@, pane),
    {
        match pane {
            Some(Pane::Text) => self.scroll_down(),
            Some(_) => {
                let n: usize = self.pages.len();
                if self.selected < n && self.selected + 1 < n {
                    self.selected = self.selected + 1;
                }
            },
            None => {},
        }
    }

    /// The mouse in the main view.
    fn main_mouse(&mut self, mouse: Mouse)
        ensures
            final(self)@ == model::main_mouse(old(self)@, mouse),
    {
        match mouse.kind {
            MouseKind::DownLeft => self.click(mouse.column, mouse.row),
            MouseKind::ScrollUp => {
                let pane = hit_test(self, (mouse.column, mouse.row));
                self.wheel_up(pane);
            },
            MouseKind::ScrollDown => {
                let pane = hit_test(self, (mouse.column, mouse.row));
                self.wheel_down(pane);
            },
            _ => {},
        }
    }

    // ----------------------------------------------------------- routing

    /// A key was pressed: it goes to the overlay, else to the editor, else to
    /// the main view.
    pub fn handle_key(&mut self, key: Key, f: EditorFacts) -> (r: Vec<AppEffect>)
        requires
            old(self)@.editor matches Some(e) ==> editor::editor_ok(e, f.orig),
        ensures
            final(self)@ == model::key_routed(old(self)@, key, f).0,
            effects(r@) == model::key_routed(old(self)@, key, f).1,
    {
        if self.overlay.is_some() {
            if let Some(o) = self.overlay.take() {
                let ghost taken = self@;
                let r = self.overlay_key(o, key);
                assert(model::key_in_overlay(taken, o@, key) == model::key_in_overlay(
                    old(self)@,
                    o@,
                    key,
                ));
                return r;
            }
        }
        match self.editor {
            Some(e) => {
                self.editor_key(e, key, f);
                nothing()
            },
            None => self.main_key(key),
        }
    }

    /// The mouse did something: that goes to the overlay, else to the editor,
    /// else to the main view.
    pub fn handle_mouse(&mut self, mouse: Mouse, f: EditorFacts)
        requires
            old(self)@.editor matches Some(e) ==> editor::editor_ok(e, f.orig),
        ensures
            final(self)@ == model::mouse_routed(old(self)@, mouse, f),
    {
        if let Some(o) = &self.overlay {
            if !overlays::handle_mouse(o, self.overlay_rect, mouse) {
                self.overlay = None;
            }
            return;
        }
        match self.editor {
            Some(e) => {
                if self.editor_rects.is_some() {
                    let mut e = e;
                    e.handle_mouse(mouse, f.pixel, f.tolerance, f.orig);
                    self.editor = Some(e);
                }
            },
            None => self.main_mouse(mouse),
        }
    }

    /// The save dialog has ended.
    pub fn handle_dialog_result(&mut self, choice: SaveChoice) -> (r: Vec<AppEffect>)
        ensures
            final(self)@ == model::dialog_ended(old(self)@, choice@).0,
            effects(r@) == model::dialog_ended(old(self)@, choice@).1,
    {
        self.dialog_in_flight = false;
        match choice {
            SaveChoice::Chosen(out) => {
                self.set_status(cat("saving to ", out.display().as_str()));
                just(AppEffect::Send(Cmd::FinishTo { out, overwrite: true }))
            },
            SaveChoice::Cancelled => {
                self.tell("save dialog cancelled - press f to try again");
                nothing()
            },
            SaveChoice::Unavailable => {
                if self.overlay.is_none() {
                    let out = self.output();
                    self.overlay = Some(Overlay::Confirm(Confirm::finish(out)));
                } else {
                    self.tell("save dialog unavailable - press f to retry");
                }
                nothing()
            },
        }
    }

    /// Whether the program ends with success: only a start that was found to
    /// have failed counts against it.
    pub fn exit_ok(&self) -> (r: bool)
        ensures
            r == model::exit_ok(self@),
    {
        match self.startup_report_ok {
            Some(ok) => ok,
            None => true,
        }
    }

    /// Whether the program is to end now.
    pub fn done(&self) -> (r: bool)
        ensures
            r == (self@.quit_requested && self@.overlay is None),
    {
        self.quit_requested && self.overlay.is_none()
    }
}

} // verus!
