//! The interface: reports, keys, the mouse, and what it shows.

use auto_scanner_ocr::backend::filedialog::SaveChoice;
use auto_scanner_ocr::backend::pdf::BuildOutcome;
use auto_scanner_ocr::backend::scan::Device;
use auto_scanner_ocr::check::{CheckItem, Report, ReportSource, Status};
use auto_scanner_ocr::config::{Config, PreviewOcr};
use auto_scanner_ocr::notify::Urgency;
use auto_scanner_ocr::path::FilePath;
use auto_scanner_ocr::session::{Busy, Cmd, Event, PageStatus, PageView, SessionMeta, Stage};
use auto_scanner_ocr::tui::app::{
    next_dpi, to_cmd, Action, App, AppEffect, CommandAction, Pane,
};
use auto_scanner_ocr::tui::dialogs::{
    confirm_lines, diagnostics_lines, help_lines, overlay_lines, picker_lines,
};
use auto_scanner_ocr::tui::draw::{
    cell_hint, cell_span, footer_spans, header_spans, page_badge, sidebar_lines, text_lines,
    text_offset, Span,
};
use auto_scanner_ocr::tui::input::{Key, KeyCode, Mouse, MouseKind, Rect};
use auto_scanner_ocr::tui::model::EditorFacts;
use auto_scanner_ocr::tui::overlays::{
    handle_key, Confirm, ConfirmKind, LangPicker, Overlay, OverlayReply,
};
use auto_scanner_ocr::tui::preview::{Cells, EditorWorker, EncodedFacts, PreviewWorker};
use auto_scanner_ocr::tui::theme::Paint;
use auto_scanner_ocr::tui::ui::layout;

fn p(s: &str) -> FilePath {
    FilePath::from_text(s)
}

fn test_app() -> App {
    App::new(Config::default())
}

fn ready_page(id: u32) -> PageView {
    PageView {
        id,
        status: PageStatus::Ready,
        stage: None,
        stage_started: None,
        image: Some(p(&format!("/tmp/page_{id}.png"))),
        image_gen: 1,
        text: None,
        text_pending: false,
        ocr_failed_gen: None,
        error: None,
        dpi: 300,
        mode: "gray".to_string(),
        rotated: false,
    }
}

fn meta(finished: bool) -> SessionMeta {
    SessionMeta {
        busy: Busy::Idle,
        busy_since: None,
        jobs_running: 0,
        output_path: p("/tmp/out.pdf"),
        dirty: !finished,
        finished,
    }
}

fn facts() -> EditorFacts {
    EditorFacts { orig: (0, 0), ready: false, pixel: None, tolerance: 0 }
}

fn press(app: &mut App, c: char) -> Vec<AppEffect> {
    app.handle_key(Key::plain(KeyCode::Char(c)), facts())
}

fn press_code(app: &mut App, code: KeyCode) -> Vec<AppEffect> {
    app.handle_key(Key::plain(code), facts())
}

// ------------------------------------------------------------------- settings

#[test]
fn dpi_preset_cycling() {
    assert_eq!(next_dpi(150, 1), 200);
    assert_eq!(next_dpi(200, 1), 300);
    assert_eq!(next_dpi(300, 1), 600);
    assert_eq!(next_dpi(600, 1), 600); // clamp at top
    assert_eq!(next_dpi(600, -1), 300);
    assert_eq!(next_dpi(600, i32::MAX), 600);
    assert_eq!(next_dpi(150, i32::MIN), 150);
    assert_eq!(next_dpi(250, i32::MAX), 300);
    assert_eq!(next_dpi(150, -1), 150); // clamp at bottom
    assert_eq!(next_dpi(250, 1), 300); // snap up to next preset
    assert_eq!(next_dpi(300, -1), 200);
}

#[test]
fn pane_cycling() {
    assert_eq!(Pane::Sidebar.next(), Pane::Preview);
    assert_eq!(Pane::Preview.next(), Pane::Text);
    assert_eq!(Pane::Text.next(), Pane::Sidebar);
    assert_eq!(Pane::Sidebar.prev(), Pane::Text);
    for pane in Pane::ALL {
        assert_eq!(pane.next().prev(), pane);
        assert!(!pane.title().is_empty());
    }
}

#[test]
fn settings_keys() {
    let mut app = test_app();
    press(&mut app, '+');
    assert_eq!(app.settings.dpi, 600);
    assert_eq!(app.status_lines.last().unwrap(), "dpi: 600");
    press(&mut app, '-');
    assert_eq!(app.settings.dpi, 300);
    for mode in ["color", "lineart", "gray"] {
        press(&mut app, 'm');
        assert_eq!(app.settings.mode, mode);
        assert_eq!(app.status_lines.last().unwrap(), &format!("mode: {mode}"));
    }
    app.meta = Some(SessionMeta { busy: Busy::Finishing, ..meta(false) });
    press(&mut app, '+');
    assert_eq!(app.settings.dpi, 300, "no change while the document is built");
}

// -------------------------------------------------------------------- leaving

#[test]
fn quit_confirm_rules() {
    let mut app = test_app();
    assert!(!app.needs_quit_confirm(), "empty app quits silently");

    app.pages = vec![ready_page(1)];
    app.meta = Some(meta(false));
    assert!(app.needs_quit_confirm(), "un-built pages need confirm");

    let mut failed = ready_page(1);
    failed.status = PageStatus::Failed;
    app.pages = vec![failed];
    assert!(!app.needs_quit_confirm(), "failed pages quit silently");

    app.pages = vec![ready_page(1)];
    app.meta = Some(meta(true));
    assert!(!app.needs_quit_confirm(), "finished session quits silently");

    app.meta = None;
    assert!(app.needs_quit_confirm(), "missing meta defers to pages");
}

#[test]
fn stale_quit_confirm_dismisses_after_finish() {
    let mut app = test_app();
    app.pages = vec![ready_page(1)];
    app.meta = Some(meta(false));
    app.overlay = Some(Overlay::Confirm(Confirm::quit()));
    assert!(app.needs_quit_confirm());

    app.handle_session_event(Event::Pages { pages: vec![ready_page(1)], meta: meta(true) });
    assert!(app.overlay.is_none(), "stale quit dialog dismissed");
}

#[test]
fn quit_confirm_survives_unrelated_page_events() {
    let mut app = test_app();
    app.pages = vec![ready_page(1)];
    app.meta = Some(meta(false));
    app.overlay = Some(Overlay::Confirm(Confirm::quit()));

    app.handle_session_event(Event::Pages { pages: vec![ready_page(1)], meta: meta(false) });
    assert!(matches!(app.overlay, Some(Overlay::Confirm(_))), "still-valid confirm survives");
}

#[test]
fn quit_keys() {
    let mut app = test_app();
    press(&mut app, 'q');
    assert!(app.quit_requested && app.done());
    let mut app = test_app();
    app.pages = vec![ready_page(1)];
    app.handle_key(Key { code: KeyCode::Char('c'), ctrl: true, alt: false }, facts());
    assert!(!app.quit_requested);
    press_code(&mut app, KeyCode::Esc);
    assert!(app.overlay.is_none());
    press(&mut app, 'q');
    press_code(&mut app, KeyCode::Enter);
    assert!(app.done());

    // The editor asks as well.
    let mut app = test_app();
    app.pages = vec![ready_page(1)];
    app.open_editor(1);
    app.handle_key(Key { code: KeyCode::Char('c'), ctrl: true, alt: false }, facts());
    assert!(!app.quit_requested);
    match &app.overlay {
        Some(Overlay::Confirm(c)) => assert!(matches!(c.kind, ConfirmKind::Quit)),
        other => panic!("{other:?}"),
    }
    press(&mut app, 'y');
    assert!(app.done());
}

// -------------------------------------------------------------------- reports

fn device(name: &str) -> Device {
    Device { name: name.to_string(), label: "Test Scanner".to_string() }
}

fn report_with(device: Option<Device>, status: Status) -> Report {
    report_with_source(device, status, ReportSource::StartupFinal)
}

fn report_with_source(device: Option<Device>, status: Status, source: ReportSource) -> Report {
    let mut r = Report::default();
    r.items.push(CheckItem {
        what: "scanner".to_string(),
        status,
        detail: String::new(),
        hint: None,
        pending_detail: None,
    });
    r.device = device;
    r.source = source;
    r
}

fn sets_device(effects: &[AppEffect]) -> Option<&str> {
    match effects {
        [AppEffect::Send(Cmd::SetDevice(name))] => Some(name),
        [] => None,
        other => panic!("unexpected {other:?}"),
    }
}

#[test]
fn report_arrival_sets_device_and_exit_flag() {
    let mut app = test_app();
    let e = app.apply_report(report_with(None, Status::Pending));
    assert!(!app.device_known);
    assert_eq!(app.device_label, "detecting...");
    assert!(app.startup_report_ok.is_none());
    assert!(e.is_empty(), "no SetDevice on fast report");

    let e = app.apply_report(report_with(Some(device("hpaio:/usb/x")), Status::Pass));
    assert_eq!(app.device_label, "Test Scanner");
    assert!(app.device_known);
    assert_eq!(app.startup_report_ok, Some(true));
    assert_eq!(sets_device(&e), Some("hpaio:/usb/x"));
}

#[test]
fn failed_startup_report_sets_failing_verdict() {
    let mut app = test_app();
    assert!(app.exit_ok());
    app.apply_report(report_with(None, Status::Fail));
    assert_eq!(app.startup_report_ok, Some(false));
    assert!(!app.exit_ok());

    app.apply_report(report_with(Some(device("hpaio:/usb/x")), Status::Pass));
    assert_eq!(app.startup_report_ok, Some(false));
}

#[test]
fn report_failure_opens_diagnostics_only_when_unobstructed() {
    let mut app = test_app();
    app.apply_report(report_with(None, Status::Fail));
    assert!(app.overlay.is_some(), "failure auto-opens diagnostics");
    assert_eq!(app.device_label, "no scanner");
    assert_eq!(app.startup_report_ok, Some(false));

    let mut app = test_app();
    app.overlay = Some(Overlay::Help);
    app.apply_report(report_with(None, Status::Fail));
    assert!(
        matches!(app.overlay, Some(Overlay::Help)),
        "auto-open must not clobber a user dialog"
    );
}

#[test]
fn buffered_scan_fires_on_tick_after_device_arrives() {
    let mut app = test_app();
    app.pending_scan = true;
    assert!(!app.scan_allowed(), "no device yet");

    let e = app.apply_report(report_with(Some(device("hpaio:/x")), Status::Pass));
    assert!(app.device_known);
    assert!(app.pending_scan, "still buffered until the tick fires");
    assert_eq!(sets_device(&e), Some("hpaio:/x"));

    let e = app.fire_pending_scan();
    assert!(!app.pending_scan);
    match &e[..] {
        [AppEffect::Send(Cmd::ScanNext { dpi, mode })] => {
            assert_eq!(*dpi, Config::default().dpi);
            assert_eq!(mode, "gray");
        }
        other => panic!("expected ScanNext, got {other:?}"),
    }
    assert!(app.fire_pending_scan().is_empty());
}

#[test]
fn buffered_scan_dropped_when_detection_fails() {
    let mut app = test_app();
    app.pending_scan = true;
    app.apply_report(report_with(None, Status::Fail));
    assert!(!app.pending_scan, "no device -> buffered intent dropped");
    assert!(!app.device_known);
}

#[test]
fn scan_not_allowed_while_device_unknown() {
    let app = test_app();
    assert!(!app.scan_allowed());
    assert!(!app.action_allowed(Action::Scan));
}

#[test]
fn rerun_report_keeps_device_known() {
    let mut app = test_app();
    app.apply_report(report_with(Some(device("hpaio:/usb/x")), Status::Pass));
    assert!(app.device_known);

    let e = app.apply_report(report_with_source(
        Some(device("hpaio:/usb/x")),
        Status::Pass,
        ReportSource::ReRun,
    ));
    assert!(app.device_known, "re-run must not wipe the known device");
    assert_eq!(app.device_label, "Test Scanner");
    assert!(app.scan_allowed());
    assert_eq!(app.startup_report_ok, Some(true), "verdict unchanged by re-run");
    assert_eq!(sets_device(&e), Some("hpaio:/usb/x"));
}

#[test]
fn rerun_report_does_not_set_startup_exit_flag() {
    let mut app = test_app();
    app.apply_report(report_with_source(
        Some(device("hpaio:/usb/x")),
        Status::Pass,
        ReportSource::ReRun,
    ));
    assert!(app.device_known);
    assert_eq!(app.startup_report_ok, None, "re-run must not set the startup flag");
}

#[test]
fn startup_report_does_not_clear_rerun_guard() {
    let mut app = test_app();
    app.checks_in_flight = true;
    app.apply_report(report_with(Some(device("hpaio:/x")), Status::Pass));
    assert!(app.checks_in_flight, "startup report must not unlock re-runs");

    app.apply_report(report_with_source(None, Status::Fail, ReportSource::ReRun));
    assert!(!app.checks_in_flight, "re-run arrival clears the guard");
}

#[test]
fn stale_startup_final_after_rerun_is_ignored() {
    let mut app = test_app();
    app.apply_report(report_with(None, Status::Pending));
    assert!(!app.device_known);
    app.apply_report(report_with_source(
        Some(device("hpaio:/usb/x")),
        Status::Pass,
        ReportSource::ReRun,
    ));
    assert!(app.device_known);

    let e = app.apply_report(report_with(None, Status::Fail));
    assert!(app.device_known, "stale startup final must not wipe the re-run device");
    assert_eq!(app.device_label, "Test Scanner");
    assert!(app.scan_allowed(), "scanning stays unlocked");
    assert_eq!(app.report.as_ref().map(|r| r.source), Some(ReportSource::ReRun));
    assert!(e.is_empty(), "stale report must not touch the session");
}

#[test]
fn stale_startup_fast_after_rerun_is_ignored() {
    let mut app = test_app();
    app.apply_report(report_with_source(
        Some(device("hpaio:/usb/x")),
        Status::Pass,
        ReportSource::ReRun,
    ));
    assert!(app.device_known);
    app.overlay = None;

    app.apply_report(report_with(None, Status::Pending));
    assert!(app.overlay.is_none(), "stale fast report must not auto-open diagnostics");
    assert!(app.device_known);
}

#[test]
fn stale_startup_final_lets_rerun_decide_verdict() {
    let mut app = test_app();
    app.apply_report(report_with_source(None, Status::Fail, ReportSource::ReRun));
    assert_eq!(app.startup_report_ok, None);
    app.apply_report(report_with(None, Status::Fail));
    assert_eq!(app.startup_report_ok, Some(false));
}

#[test]
fn stale_startup_final_does_not_override_decided_verdict() {
    let mut app = test_app();
    app.apply_report(report_with_source(
        Some(device("hpaio:/usb/x")),
        Status::Pass,
        ReportSource::ReRun,
    ));
    assert_eq!(app.startup_report_ok, None);
    app.apply_report(report_with(None, Status::Fail));
    assert_eq!(app.startup_report_ok, Some(true));
}

#[test]
fn checks_run_once_at_a_time() {
    let mut app = test_app();
    app.overlay = Some(Overlay::Diagnostics);
    assert!(matches!(press(&mut app, 'r')[..], [AppEffect::RunChecks]));
    assert!(press(&mut app, 'r').is_empty());
    assert!(app.request_checks().is_empty());
}

// --------------------------------------------------------------------- scans

#[test]
fn scan_blocked_while_delete_pending() {
    let mut app = test_app();
    app.device_known = true;
    app.meta = Some(meta(false));
    let mut page = ready_page(1);
    page.status = PageStatus::DeletePending;
    app.pages = vec![page];
    assert!(!app.scan_allowed());
    assert!(!app.action_allowed(Action::Scan));
    assert!(press(&mut app, 's').is_empty());
    assert_eq!(app.status_lines.last().unwrap(), "blocked: waiting for deferred delete");
}

#[test]
fn scan_keys() {
    let mut app = test_app();
    assert!(press(&mut app, 's').is_empty());
    assert!(app.pending_scan);
    app.device_known = true;
    app.pending_scan = false;
    assert!(matches!(press(&mut app, 's')[..], [AppEffect::Send(Cmd::ScanNext { .. })]));
    assert!(matches!(
        press_code(&mut app, KeyCode::Enter)[..],
        [AppEffect::Send(Cmd::ScanNext { .. })]
    ));
    app.meta = Some(SessionMeta { busy: Busy::Scanning, ..meta(false) });
    assert!(press(&mut app, 's').is_empty());
    assert_eq!(app.status_lines.last().unwrap(), "blocked: scanner busy - press Esc to cancel");
    assert!(matches!(press_code(&mut app, KeyCode::Esc)[..], [AppEffect::Send(Cmd::CancelScan)]));
    assert!(matches!(press(&mut app, 'c')[..], [AppEffect::Send(Cmd::CancelScan)]));
    app.meta = Some(SessionMeta { busy: Busy::Finishing, ..meta(false) });
    press(&mut app, 's');
    assert_eq!(app.status_lines.last().unwrap(), "blocked: building PDF - scan once it finishes");
    app.meta = Some(meta(true));
    press(&mut app, 's');
    assert_eq!(
        app.status_lines.last().unwrap(),
        "blocked: PDF already built - press n for a new session"
    );
}

#[test]
fn text_is_requested_for_the_selected_page() {
    let mut app = test_app();
    app.pages = vec![ready_page(4)];
    app.meta = Some(meta(false));
    assert!(matches!(app.on_tick()[..], [AppEffect::Send(Cmd::RequestText(4))]));
    assert_eq!(app.tick, 1);
    app.pages[0].ocr_failed_gen = Some(1);
    assert!(app.request_text_if_needed().is_empty(), "a failed image is not tried again");
    app.pages[0].ocr_failed_gen = Some(0);
    app.pages[0].text_pending = true;
    assert!(app.request_text_if_needed().is_empty());
    app.pages[0].text_pending = false;
    app.cfg.preview_ocr = PreviewOcr::Off;
    assert!(app.request_text_if_needed().is_empty());
}

// ---------------------------------------------------------------------- pages

#[test]
fn page_keys() {
    let mut app = test_app();
    app.pages = vec![ready_page(1), ready_page(2), ready_page(3)];
    press(&mut app, 'j');
    assert_eq!(app.selected, 1);
    assert!(matches!(press(&mut app, 'R')[..], [AppEffect::Send(Cmd::Rotate(2, true))]));
    assert!(matches!(press(&mut app, '<')[..], [AppEffect::Send(Cmd::Rotate(2, false))]));
    assert!(matches!(press(&mut app, 'r')[..], [AppEffect::Send(Cmd::Rescan { id: 2, .. })]));
    assert!(matches!(
        press(&mut app, 'J')[..],
        [AppEffect::Send(Cmd::Move { from: 1, to: 2 })]
    ));
    assert_eq!(app.selected, 2);
    assert!(press(&mut app, 'J').is_empty(), "the last page stays");
    assert!(matches!(
        press_code(&mut app, KeyCode::Left)[..],
        [AppEffect::Send(Cmd::Move { from: 2, to: 1 })]
    ));
    press(&mut app, '3');
    assert_eq!(app.selected, 2);
    press(&mut app, '9');
    assert_eq!(app.selected, 2, "there is no such page");
    press(&mut app, 'k');
    assert_eq!(app.selected, 1);
}

#[test]
fn deleting_asks_for_pages_with_content() {
    let mut app = test_app();
    app.pages = vec![ready_page(1)];
    assert!(press(&mut app, 'd').is_empty());
    assert!(matches!(
        &app.overlay,
        Some(Overlay::Confirm(Confirm { kind: ConfirmKind::DeletePage(1), .. }))
    ));
    assert!(matches!(
        press_code(&mut app, KeyCode::Enter)[..],
        [AppEffect::Send(Cmd::Delete(1))]
    ));
    app.pages[0].status = PageStatus::Failed;
    assert!(matches!(press(&mut app, 'd')[..], [AppEffect::Send(Cmd::Delete(1))]));
}

#[test]
fn the_selection_stays_with_its_page() {
    let mut app = test_app();
    app.pages = vec![ready_page(1), ready_page(2), ready_page(3)];
    app.selected = 1;
    app.handle_session_event(Event::Pages {
        pages: vec![ready_page(2), ready_page(1), ready_page(3)],
        meta: meta(false),
    });
    assert_eq!(app.selected, 0);
    app.handle_session_event(Event::Pages { pages: vec![ready_page(1)], meta: meta(false) });
    assert_eq!(app.selected, 0);
    app.handle_session_event(Event::Pages { pages: Vec::new(), meta: meta(false) });
    assert!(app.selected_page().is_none());
}

#[test]
fn actions_become_commands() {
    let app = test_app();
    assert!(matches!(to_cmd(&app, CommandAction::ScanNext), Cmd::ScanNext { dpi: 300, .. }));
    assert!(matches!(to_cmd(&app, CommandAction::Rotate(2, true)), Cmd::Rotate(2, true)));
    assert!(matches!(to_cmd(&app, CommandAction::Move(1, 0)), Cmd::Move { from: 1, to: 0 }));
    assert!(matches!(to_cmd(&app, CommandAction::Delete(5)), Cmd::Delete(5)));
    assert!(matches!(to_cmd(&app, CommandAction::NewSession), Cmd::NewSession));
}

#[test]
fn the_status_is_cut() {
    let mut app = test_app();
    for i in 0..600 {
        app.set_status(format!("line {i}"));
        assert!(app.status_lines.len() <= 500);
        assert_eq!(app.status_lines.last().unwrap(), &format!("line {i}"));
    }
}

// --------------------------------------------------------------------- finish

#[test]
fn finish_blocked_while_dialog_in_flight() {
    let mut app = test_app();
    app.pages = vec![ready_page(1)];
    app.meta = Some(meta(false));
    assert!(app.action_allowed(Action::Finish));

    app.dialog_in_flight = true;
    assert!(!app.action_allowed(Action::Finish));

    app.dialog_in_flight = false;
    assert!(app.action_allowed(Action::Finish));
}

#[test]
fn dialog_unavailable_preserves_open_overlay() {
    let mut app = test_app();
    app.pages = vec![ready_page(1)];
    app.meta = Some(meta(false));
    app.overlay = Some(Overlay::Confirm(Confirm::quit()));

    app.handle_dialog_result(SaveChoice::Unavailable);
    match &app.overlay {
        Some(Overlay::Confirm(c)) => assert!(matches!(c.kind, ConfirmKind::Quit)),
        other => panic!("{other:?}"),
    }
    assert!(!app.dialog_in_flight, "flag released");
    assert!(app.action_allowed(Action::Finish), "f available to retry");

    app.overlay = None;
    app.handle_dialog_result(SaveChoice::Unavailable);
    assert!(matches!(app.overlay, Some(Overlay::Confirm(_))));
}

#[test]
fn finishing_goes_through_the_dialog() {
    let mut app = test_app();
    app.pages = vec![ready_page(1)];
    app.meta = Some(meta(false));
    match &press(&mut app, 'f')[..] {
        [AppEffect::SaveDialog { dir, filename, title }] => {
            assert_eq!(*dir, p("/tmp"));
            assert_eq!(filename, "out.pdf");
            assert_eq!(title, "Save PDF as");
        }
        other => panic!("{other:?}"),
    }
    assert!(app.dialog_in_flight);
    assert!(press(&mut app, 'f').is_empty());
    match &app.handle_dialog_result(SaveChoice::Chosen(p("/x/y.pdf")))[..] {
        [AppEffect::Send(Cmd::FinishTo { out, overwrite })] => {
            assert_eq!(*out, p("/x/y.pdf"));
            assert!(*overwrite);
        }
        other => panic!("{other:?}"),
    }
    assert_eq!(app.status_lines.last().unwrap(), "saving to /x/y.pdf");
    assert!(app.handle_dialog_result(SaveChoice::Cancelled).is_empty());
    assert_eq!(
        app.status_lines.last().unwrap(),
        "save dialog cancelled - press f to try again"
    );
}

#[test]
fn finished_documents_are_announced() {
    let mut app = test_app();
    assert!(press(&mut app, 'o').is_empty());
    let e = app.handle_session_event(Event::Finished {
        outcome: Some(BuildOutcome::Searchable),
        path: p("/out/a.pdf"),
        size_kb: 12,
    });
    match &e[..] {
        [AppEffect::Notify { summary, body, urgency }] => {
            assert_eq!(summary, "Scan complete");
            assert_eq!(body, "/out/a.pdf");
            assert_eq!(*urgency, Urgency::Normal);
        }
        other => panic!("{other:?}"),
    }
    assert_eq!(app.status_lines.last().unwrap(), "done: /out/a.pdf (12 KB)");
    match &press(&mut app, 'o')[..] {
        [AppEffect::OpenResult(path)] => assert_eq!(*path, p("/out/a.pdf")),
        other => panic!("{other:?}"),
    }
    let e = app.handle_session_event(Event::Finished {
        outcome: None,
        path: p("/out/b.pdf"),
        size_kb: 0,
    });
    assert!(matches!(&e[..], [AppEffect::Notify { urgency: Urgency::Critical, .. }]));
    app.handle_session_event(Event::Finished {
        outcome: Some(BuildOutcome::WithoutTextLayer),
        path: p("/out/c.pdf"),
        size_kb: 1,
    });
    assert_eq!(
        app.status_lines.last().unwrap(),
        "done (no text layer - ocrmypdf failed): /out/c.pdf"
    );
}

#[test]
fn a_new_session_asks_unless_finished() {
    let mut app = test_app();
    app.meta = Some(meta(false));
    assert!(press(&mut app, 'n').is_empty());
    assert!(matches!(
        &app.overlay,
        Some(Overlay::Confirm(Confirm { kind: ConfirmKind::NewSession, .. }))
    ));
    app.overlay = None;
    app.meta = Some(meta(true));
    assert!(matches!(press(&mut app, 'n')[..], [AppEffect::Send(Cmd::NewSession)]));
}

// ------------------------------------------------------------------ languages

#[test]
fn languages_are_picked() {
    let mut app = test_app();
    assert!(matches!(press(&mut app, 'L')[..], [AppEffect::Send(Cmd::ListLangs)]));
    app.handle_session_event(Event::Langs(vec!["eng".to_string(), "deu".to_string()]));
    assert_eq!(app.langs_cache, ["eng", "deu"]);
    match &app.overlay {
        Some(Overlay::LangPicker(picker)) => assert!(!picker.loading),
        other => panic!("{other:?}"),
    }
    press_code(&mut app, KeyCode::Esc);
    assert_eq!(app.cfg.langs, "deu+Latin");

    let mut o = Overlay::LangPicker(LangPicker::new("deu"));
    if let Overlay::LangPicker(picker) = &mut o {
        picker.set_available(vec!["eng".to_string(), "deu".to_string()]);
        picker.toggle();
        picker.toggle();
        assert_eq!(picker.result(), "deu");
    }
    match handle_key(&mut o, Key::plain(KeyCode::Enter)) {
        OverlayReply::SetLangs(langs) => assert_eq!(langs, "deu"),
        other => panic!("{other:?}"),
    }

    // What is picked is shown, and the session is told.
    let mut picker = LangPicker::new("eng");
    picker.set_available(vec!["eng".to_string(), "deu".to_string()]);
    app.overlay = Some(Overlay::LangPicker(picker));
    match &press_code(&mut app, KeyCode::Enter)[..] {
        [AppEffect::Send(Cmd::SetLangs(langs))] => assert_eq!(langs, "eng"),
        other => panic!("{other:?}"),
    }
    assert_eq!(app.cfg.langs, "eng");
    assert!(app.overlay.is_none());
    assert_eq!(app.status_lines.last().unwrap(), "langs: eng");
}

// ---------------------------------------------------------------------- mouse

fn click(app: &mut App, kind: MouseKind, column: u16, row: u16) {
    app.handle_mouse(Mouse { kind, column, row }, facts());
}

#[test]
fn the_mouse_selects() {
    let mut app = test_app();
    app.pages = vec![ready_page(1), ready_page(2), ready_page(3)];
    let r = layout(Rect { x: 0, y: 0, width: 100, height: 40 });
    app.pane_rects = Some(r);
    click(&mut app, MouseKind::DownLeft, r.sidebar.x + 2, r.sidebar.y + 2);
    assert_eq!(app.selected, 1);
    assert_eq!(app.focus, Pane::Sidebar);
    click(&mut app, MouseKind::ScrollDown, r.sidebar.x + 2, r.sidebar.y + 2);
    assert_eq!(app.selected, 2);
    click(&mut app, MouseKind::ScrollUp, r.preview.x + 2, r.preview.y + 2);
    assert_eq!(app.selected, 1);
    app.preview_cells = vec![(3, Rect { x: r.preview.x + 1, y: r.preview.y + 1, width: 5, height: 5 })];
    click(&mut app, MouseKind::DownLeft, r.preview.x + 3, r.preview.y + 3);
    assert_eq!((app.focus, app.selected), (Pane::Preview, 2));
    click(&mut app, MouseKind::DownLeft, r.text.x + 1, r.text.y + 1);
    assert_eq!(app.focus, Pane::Text);
    click(&mut app, MouseKind::ScrollDown, r.text.x + 1, r.text.y + 1);
    assert_eq!(app.text_scroll, 1);
}

#[test]
fn overlays_get_the_keys_first() {
    let mut app = test_app();
    app.device_known = true;
    press(&mut app, '?');
    assert!(matches!(app.overlay, Some(Overlay::Help)));
    assert!(press(&mut app, 's').is_empty());
    press_code(&mut app, KeyCode::Esc);
    assert!(app.overlay.is_none());
    press(&mut app, '!');
    assert!(matches!(app.overlay, Some(Overlay::Diagnostics)));
}

#[test]
fn the_editor_comes_before_the_main_view() {
    let mut app = test_app();
    app.pages = vec![ready_page(7)];
    app.open_editor(7);
    let f = EditorFacts { orig: (1000, 2000), ready: true, pixel: None, tolerance: 0 };
    app.handle_key(Key::plain(KeyCode::Char('c')), f);
    assert!(app.editor_crop_rect().is_some());
    app.handle_key(Key::plain(KeyCode::Enter), f);
    assert!(matches!(
        &app.overlay,
        Some(Overlay::Confirm(Confirm { kind: ConfirmKind::Crop { id: 7, .. }, .. }))
    ));
    let e = app.handle_key(Key::plain(KeyCode::Enter), f);
    assert!(matches!(e[..], [AppEffect::Send(Cmd::Crop { id: 7, .. })]));
    assert!(app.editor_crop_rect().is_none());
    app.close_editor();
    assert!(app.editor.is_none());
}

// --------------------------------------------------------------------- screen

fn text(spans: &[Span]) -> String {
    spans.iter().map(|s| s.text.as_str()).collect()
}

#[test]
fn the_header_fills_its_row() {
    let mut app = test_app();
    app.device_label = "HP".to_string();
    let spans = header_spans(&app, 60);
    assert_eq!(spans[0].text, " auto-scanner-ocr 300dpi gray deu+Latin ");
    assert_eq!(spans[2].text, "HP ");
    assert_eq!(text(&spans).len(), 60);
    app.meta = Some(meta(false));
    assert!(header_spans(&app, 60)[0].text.ends_with(" ● "));
    assert_eq!(header_spans(&app, 5)[1].text, "");
}

#[test]
fn the_page_list_shows_states() {
    let mut app = test_app();
    assert_eq!(text(&sidebar_lines(&app, 0)[1]), "No pages yet.");
    let mut busy = ready_page(2);
    busy.status = PageStatus::Processing;
    busy.stage = Some(Stage::Ocr);
    busy.stage_started = Some(1000);
    busy.rotated = true;
    app.pages = vec![ready_page(1), busy];
    let lines = sidebar_lines(&app, 6500);
    assert_eq!(text(&lines[0]), " 1.  ready  300dpi gray");
    assert_eq!(text(&lines[1]), " 2.  ocr   5s  300dpi gray ↻");
    assert_eq!(lines[0][0].paint, Paint::Bold);
    assert_eq!(page_badge(&app.pages[1], 6500).paint, Paint::BadgeBusy);
    assert_eq!(cell_hint(&app.pages[1]), "ocr…");
    assert_eq!(cell_span(&app, 2, 3).text, "", "too narrow");
    assert_eq!(cell_span(&app, 99, 30).text, "…");
}

#[test]
fn the_text_pane_says_why_it_is_empty() {
    let mut app = test_app();
    assert_eq!(text_lines(&app)[0].text, "(no text extracted yet)");
    app.pages = vec![ready_page(1)];
    app.pages[0].ocr_failed_gen = Some(1);
    assert_eq!(
        text_lines(&app)[0].text,
        "(preview OCR failed - rescan or rotate to retry)"
    );
    app.cfg.preview_ocr = PreviewOcr::Off;
    assert_eq!(text_lines(&app)[0].text, "(preview OCR disabled)");
    app.pages[0].text_pending = true;
    assert_eq!(text_lines(&app)[0].text, "extracting text…");
    app.pages[0].status = PageStatus::Failed;
    assert_eq!(text_lines(&app)[0].text, "unknown error");
    app.pages[0].text = Some("one\ntwo".to_string());
    assert_eq!(text_lines(&app).len(), 2);
    assert_eq!(text_offset(5, 10, 4), 5);
    assert_eq!(text_offset(9, 10, 4), 6);
    assert_eq!(text_offset(9, 2, 4), 0);
}

#[test]
fn the_footer_shows_work_and_keys() {
    let mut app = test_app();
    app.meta = Some(SessionMeta {
        busy: Busy::Finishing,
        busy_since: Some(0),
        jobs_running: 3,
        ..meta(false)
    });
    let spans = footer_spans(&app, 42_000);
    assert_eq!(spans[0].text, " BUILDING PDF 42s ");
    assert_eq!(spans[1].text, " 3 processing ");
    assert!(text(&spans).ends_with(" m gray · Tab pane · ? help · ! diag · q quit"));
    assert!(spans.iter().filter(|s| s.text == " s").all(|s| s.paint == Paint::Muted));
    app.device_known = true;
    app.meta = Some(meta(false));
    let spans = footer_spans(&app, 0);
    assert_eq!(spans[0].text, " s");
    assert_eq!(spans[0].paint, Paint::Accent);
    assert_eq!(spans.len(), 26);
}

#[test]
fn dialogs_have_their_texts() {
    let help = help_lines();
    assert_eq!(help.len(), 23);
    assert_eq!(help[0][0].text, "Scanning");
    assert_eq!(help[2][0].text, "  Esc / c             ");
    assert_eq!(help[2][1].text, "cancel running scan");

    let mut r = report_with(None, Status::Pending);
    r.items[0].pending_detail = Some("detecting...".to_string());
    r.items.push(CheckItem {
        what: "unpaper".to_string(),
        status: Status::Fail,
        detail: String::new(),
        hint: Some("pacman -S unpaper\napt install unpaper".to_string()),
        pending_detail: None,
    });
    let lines = diagnostics_lines(&r);
    assert_eq!(text(&lines[0]), "press r to re-run checks · Esc to close");
    assert_eq!(text(&lines[1]), " [ ...] scanner");
    assert_eq!(text(&lines[2]), "        detecting...");
    assert_eq!(text(&lines[3]), " [FAIL] unpaper");
    assert_eq!(text(&lines[5]), "        install: apt install unpaper");

    let mut picker = LangPicker::new("eng");
    assert_eq!(text(&picker_lines(&picker)[0]), "loading installed languages…");
    picker.set_available(vec!["deu".to_string(), "eng".to_string()]);
    let lines = picker_lines(&picker);
    assert!(lines.iter().any(|l| text(l) == " [x] eng"));
    assert!(lines.iter().any(|l| text(l) == " [ ] deu"));
    assert_eq!(text(lines.last().unwrap()), "space toggle · enter confirm (eng) · esc cancel");

    let lines = confirm_lines(&Confirm::quit());
    assert!(text(lines.last().unwrap()).ends_with("  [Esc] cancel"));
    assert!(overlay_lines(&test_app(), &Overlay::Diagnostics).is_empty());
}

// -------------------------------------------------------------------- preview

fn pages(n: u32) -> Vec<PageView> {
    (0..n)
        .map(|i| PageView {
            image: Some(p(&format!("/tmp/fake_{i}.png"))),
            image_gen: 0,
            ..ready_page(i + 1)
        })
        .collect()
}

#[test]
fn reconcile_spawns_decodes_for_new_pages_only() {
    let mut w = PreviewWorker::new();
    let pages = pages(3);
    assert_eq!(w.on_pages_changed(&pages).len(), 3);
    assert_eq!(w.decoding.len(), 3);
    // The same pages again: nothing new.
    assert!(w.on_pages_changed(&pages).is_empty());
    assert_eq!(w.decoding.len(), 3);
}

#[test]
fn pending_thumb_skips_redecode() {
    let mut w = PreviewWorker::new();
    let mut pages = pages(1);
    w.on_pages_changed(&pages);
    assert_eq!(w.decoding.len(), 1);
    pages[0].image_gen += 1;
    assert!(w.on_pages_changed(&pages).is_empty());
    assert_eq!(w.decoding.len(), 1);
}

#[test]
fn vanished_pages_are_dropped() {
    let mut w = PreviewWorker::new();
    w.on_pages_changed(&pages(2));
    assert_eq!(w.decoding.len(), 2);
    w.on_pages_changed(&pages(0));
    assert!(w.decoding.is_empty());
    assert!(w.thumbs.is_empty());
}

#[test]
fn failed_decodes_are_cached_and_not_retried() {
    let mut w = PreviewWorker::new();
    let pages = pages(1);
    w.failed.push((p("/tmp/fake_0.png"), pages[0].image_gen));
    w.on_pages_changed(&pages);
    assert!(w.decoding.is_empty());
    w.on_failed(1, p("/tmp/other.png"), 3);
    assert_eq!(w.failed.len(), 2);
}

#[test]
fn regen_change_redecodes_after_completion() {
    let mut w = PreviewWorker::new();
    let mut pages = pages(1);
    w.on_pages_changed(&pages);
    assert_eq!(w.decoding.len(), 1);
    pages[0].image_gen += 1;
    w.on_pages_changed(&pages); // still decoding
    assert_eq!(w.decoding.len(), 1);
    w.decoding.clear();
    w.on_pages_changed(&pages);
    assert_eq!(w.decoding.len(), 1);
    assert_eq!(w.thumbs.len(), 0);
}

#[test]
fn decoded_images_become_thumbnails() {
    let mut w = PreviewWorker::new();
    let pages = pages(1);
    let d = w.on_pages_changed(&pages).remove(0);
    assert!(!w.has_image_for(1));
    assert!(!w.on_decoded(d.id, d.path, d.gen));
    assert!(w.has_image_for(1));
    assert!(w.on_pages_changed(&pages).is_empty());
    let cell = Rect { x: 0, y: 0, width: 5, height: 5 };
    let none = Rect { x: 0, y: 0, width: 0, height: 5 };
    assert_eq!(w.sync_cells(&[(1, none), (1, cell), (9, cell)], &[true; 3]), [1]);
    assert_eq!(w.sync_cells(&[(1, cell); 9], &[true; 9]), [0, 1, 2, 3]);
    assert!(w.on_decoded(1, p("/tmp/new.png"), 2), "the thumbnail is replaced");
}

const CELLS: Cells = Cells { width: 8, height: 4 };

#[test]
fn display_never_blanks_during_outline_changes() {
    let mut w = EditorWorker::new();
    assert!(w.request(&p("/tmp/page.png"), 0));
    assert!(w.request_encode(CELLS, None).is_none(), "nothing to encode yet");
    w.on_decoded(p("/tmp/page.png"), 0, (40, 30));
    assert!(w.ready());
    assert!(!w.request(&p("/tmp/page.png"), 0));
    assert_eq!(w.orig_dims(), (40, 30));

    let job = w.request_encode(CELLS, None).unwrap();
    let done = EncodedFacts { epoch: job.epoch, cells: job.cells, outline: job.outline, ok: true };
    assert_eq!(w.poll_encodes(&[done]), Some(0), "first encode adopted");
    assert!(w.shown_matches(CELLS, None));

    let outline = Some((2, 2, 20, 20));
    let job = w.request_encode(CELLS, outline).unwrap();
    assert!(
        w.shown_matches(CELLS, None),
        "display keeps the previous encode while the new one encodes"
    );
    let done = EncodedFacts { epoch: job.epoch, cells: job.cells, outline: job.outline, ok: true };
    assert_eq!(w.poll_encodes(&[done]), Some(0), "second encode adopted");
    assert!(w.shown_matches(CELLS, outline));
}

#[test]
fn stale_encode_dropped_after_redecode() {
    let mut w = EditorWorker::new();
    w.on_decoded(p("/tmp/page.png"), 0, (40, 30));
    let job = w.request_encode(CELLS, None).unwrap();
    // The image is decoded again before the encode ends.
    w.on_decoded(p("/tmp/page.png"), 1, (50, 40));
    assert_eq!(w.epoch, 2, "decode adoption bumped the epoch");
    assert!(w.flush_queue().is_none());
    let done = EncodedFacts { epoch: job.epoch, cells: job.cells, outline: job.outline, ok: true };
    assert!(w.poll_encodes(&[done]).is_none(), "stale-epoch encode must not adopt");
    assert!(w.encoded_size.is_none(), "fresh display has no encode yet");
}

#[test]
fn the_last_encode_request_wins() {
    let mut w = EditorWorker::new();
    w.on_decoded(p("/tmp/page.png"), 0, (40, 30));
    let first = w.request_encode(CELLS, None).unwrap();
    assert!(w.request_encode(CELLS, Some((0, 0, 5, 5))).is_none());
    assert!(w.request_encode(CELLS, Some((0, 0, 9, 9))).is_none());
    assert!(w.flush_queue().is_none(), "one at a time");
    let done = EncodedFacts { epoch: first.epoch, cells: CELLS, outline: None, ok: false };
    assert!(w.poll_encodes(&[done]).is_none());
    let next = w.flush_queue().unwrap();
    assert_eq!(next.outline, Some((0, 0, 9, 9)));
}
