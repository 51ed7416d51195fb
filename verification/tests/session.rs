//! The session: what it starts, what it refuses, and how it goes on when its
//! jobs end.

use auto_scanner_ocr::backend::pdf::BuildOutcome;
use auto_scanner_ocr::config::{Config, PreviewOcr};
use auto_scanner_ocr::path::FilePath;
use auto_scanner_ocr::session::jobs::{
    edit_report, edit_step, job_error, session_dir, text_report, Edit, EditStep,
};
use auto_scanner_ocr::session::{
    Busy, Cmd, Effect, Job, JobDone, JobError, PageStatus, Session, Stage,
};

fn p(s: &str) -> FilePath {
    FilePath::from_text(s)
}

fn session_with(ocr: PreviewOcr) -> Session {
    let cfg = Config { preview_ocr: ocr, output: p("/out"), ..Config::default() };
    Session::new(cfg, "escl:x".to_string(), p("/state/s"), p("/out/a.pdf"))
}

fn session() -> Session {
    session_with(PreviewOcr::Lazy)
}

fn scan(s: &mut Session) -> Vec<Effect> {
    s.handle(Cmd::ScanNext { dpi: 300, mode: "gray".to_string() }, 1000)
}

fn job(effects: Vec<Effect>) -> Job {
    let mut found = None;
    for e in effects {
        if let Effect::Spawn(j) = e {
            assert!(found.is_none(), "one job at a time");
            found = Some(j);
        }
    }
    found.expect("a job")
}

fn statuses(effects: &[Effect]) -> Vec<&str> {
    effects
        .iter()
        .filter_map(|e| match e {
            Effect::Status(s) => Some(s.as_str()),
            _ => None,
        })
        .collect()
}

fn removed(effects: &[Effect]) -> Vec<String> {
    effects
        .iter()
        .filter_map(|e| match e {
            Effect::RemoveFile(f) => Some(f.display()),
            _ => None,
        })
        .collect()
}

/// The end of a capture, as its job asked for it.
fn captured(j: Job, result: Result<bool, JobError>) -> JobDone {
    match j {
        Job::Scan { id, is_rescan, dpi, mode, path, .. } => {
            JobDone::Scan { id, is_rescan, dpi, mode, path, result }
        }
        other => panic!("expected a capture, got {other:?}"),
    }
}

/// The end of a cleaning that left the page as it was.
fn uncleaned(j: Job) -> JobDone {
    match j {
        Job::Clean { id, is_rescan, dpi, mode, path, used_fallback, .. } => JobDone::Clean {
            id,
            is_rescan,
            dpi,
            mode,
            image: path,
            unpaper_deskewed: false,
            used_fallback,
        },
        other => panic!("expected a cleaning, got {other:?}"),
    }
}

/// Adds a page.
fn add(s: &mut Session) -> Vec<Effect> {
    let j = job(scan(s));
    let j = job(s.handle_job_done(captured(j, Ok(false)), 2000));
    s.handle_job_done(uncleaned(j), 3000)
}

#[test]
fn a_capture_becomes_a_page() {
    let mut s = session();
    let effects = scan(&mut s);
    assert_eq!(s.meta().busy, Busy::Scanning);
    assert_eq!(s.views()[0].status, PageStatus::Scanning);
    let j = job(effects);
    match &j {
        Job::Scan { id, is_rescan, device, dpi, mode, path } => {
            assert_eq!((*id, *is_rescan, *dpi), (1, false, 300));
            assert_eq!((device.as_str(), mode.as_str()), ("escl:x", "gray"));
            assert_eq!(*path, p("/state/s/page_001.png"));
        }
        other => panic!("{other:?}"),
    }
    let j = job(s.handle_job_done(captured(j, Ok(false)), 2000));
    // The scanner is free while the page is cleaned.
    assert_eq!(s.meta().busy, Busy::Idle);
    assert_eq!(s.views()[0].status, PageStatus::Processing);
    assert_eq!(s.views()[0].stage, Some(Stage::Clean));
    s.handle_job_done(uncleaned(j), 3000);
    let v = &s.views()[0];
    assert_eq!(v.status, PageStatus::Ready);
    assert_eq!(v.image, Some(p("/state/s/page_001.png")));
    assert!(s.dirty());
}

#[test]
fn busy_scanners_refuse() {
    let mut s = session();
    scan(&mut s);
    let e = scan(&mut s);
    assert_eq!(s.views().len(), 1);
    assert!(statuses(&e).iter().any(|m| m.contains("scanner busy - press Esc to cancel")));
    assert!(s.guard(&Cmd::ScanNext { dpi: 300, mode: "gray".to_string() }).is_err());
    assert!(s.guard(&Cmd::CancelScan).is_ok());
}

#[test]
fn cancelled_captures_leave_nothing() {
    let mut s = session();
    let j = job(scan(&mut s));
    let e = s.handle(Cmd::CancelScan, 1500);
    assert!(e.iter().any(|e| matches!(e, Effect::CancelScan)));
    s.handle_job_done(captured(j, Err(JobError::Cancelled)), 2000);
    assert!(s.views().is_empty());
    assert_eq!(s.meta().busy, Busy::Idle);
}

#[test]
fn failed_captures_stay_as_failed_pages() {
    let mut s = session();
    let j = job(scan(&mut s));
    s.handle_job_done(captured(j, Err(JobError::Failed("no paper".to_string()))), 2000);
    assert_eq!(s.views()[0].status, PageStatus::Failed);
    assert_eq!(s.views()[0].error.as_deref(), Some("no paper"));
    assert!(s.guard(&Cmd::Finish).unwrap_err().contains("failed - rescan (r) or delete (d) first"));
}

#[test]
fn a_failed_rescan_keeps_the_old_page() {
    let mut s = session();
    add(&mut s);
    let j = job(s.handle(Cmd::Rescan { id: 1, dpi: 600, mode: "color".to_string() }, 4000));
    match &j {
        Job::Scan { path, is_rescan, .. } => {
            assert!(*is_rescan);
            assert_ne!(*path, p("/state/s/page_001.png"));
        }
        other => panic!("{other:?}"),
    }
    s.handle_job_done(captured(j, Err(JobError::Failed("jam".to_string()))), 5000);
    let v = &s.views()[0];
    assert_eq!(v.status, PageStatus::Failed);
    assert_eq!(v.error.as_deref(), Some("jam"));
    assert_eq!(v.image, Some(p("/state/s/page_001.png")));
    assert_eq!((v.dpi, v.mode.as_str()), (300, "gray"));
    // Called off, the page is as it was.
    let j = job(s.handle(Cmd::Rescan { id: 1, dpi: 600, mode: "color".to_string() }, 6000));
    s.handle_job_done(captured(j, Err(JobError::Cancelled)), 7000);
    assert_eq!(s.views()[0].status, PageStatus::Ready);
    assert_eq!(s.views()[0].image, Some(p("/state/s/page_001.png")));
}

#[test]
fn a_successful_rescan_replaces_the_page() {
    let mut s = session();
    add(&mut s);
    let gen = s.views()[0].image_gen;
    let j = job(s.handle(Cmd::Rescan { id: 1, dpi: 600, mode: "color".to_string() }, 4000));
    let j = job(s.handle_job_done(captured(j, Ok(true)), 5000));
    let e = s.handle_job_done(uncleaned(j), 6000);
    let v = &s.views()[0];
    assert_eq!((v.dpi, v.mode.as_str()), (600, "color"));
    assert_ne!(v.image_gen, gen);
    assert!(removed(&e).contains(&"/state/s/page_001.png".to_string()));
    assert!(!removed(&e).contains(&v.image.as_ref().unwrap().display()));
}

#[test]
fn numbers_are_never_reused() {
    let mut s = session();
    add(&mut s);
    add(&mut s);
    s.handle(Cmd::Delete(2), 4000);
    add(&mut s);
    let ids: Vec<u32> = s.views().iter().map(|v| v.id).collect();
    assert_eq!(ids, [1, 3]);
}

#[test]
fn pages_move_and_move_back() {
    let mut s = session();
    for _ in 0..3 {
        add(&mut s);
    }
    s.handle(Cmd::Move { from: 0, to: 2 }, 4000);
    let ids: Vec<u32> = s.views().iter().map(|v| v.id).collect();
    assert_eq!(ids, [2, 3, 1]);
    s.handle(Cmd::Move { from: 2, to: 0 }, 4000);
    let ids: Vec<u32> = s.views().iter().map(|v| v.id).collect();
    assert_eq!(ids, [1, 2, 3]);
}

#[test]
fn a_page_that_is_worked_on_is_deleted_later() {
    let mut s = session();
    let j = job(scan(&mut s));
    let j = job(s.handle_job_done(captured(j, Ok(false)), 2000));
    let e = s.handle(Cmd::Delete(1), 2500);
    assert!(matches!(e[0], Effect::CancelJob(1)), "the work on the page is stopped");
    assert_eq!(s.views()[0].status, PageStatus::DeletePending);
    assert!(s.guard(&Cmd::ScanNext { dpi: 300, mode: "gray".to_string() }).is_err());
    s.handle_job_done(uncleaned(j), 3000);
    assert!(s.views().is_empty());
}

#[test]
fn text_is_made_once_per_image() {
    let mut s = session();
    add(&mut s);
    let j = job(s.handle(Cmd::RequestText(1), 4000));
    assert!(matches!(j, Job::Ocr { id: 1, .. }));
    assert!(s.views()[0].text_pending);
    assert!(s.handle(Cmd::RequestText(1), 4100).iter().all(|e| !matches!(e, Effect::Spawn(_))));
    let failed = Err(JobError::Failed("no data".to_string()));
    s.handle_job_done(JobDone::Ocr { id: 1, result: failed }, 5000);
    assert_eq!(s.views()[0].status, PageStatus::Ready, "missing text does not fail a page");
    assert!(s.handle(Cmd::RequestText(1), 6000).iter().all(|e| !matches!(e, Effect::Spawn(_))));
    assert!(s.guard(&Cmd::Finish).is_ok());
}

#[test]
fn text_is_made_at_once_where_that_is_configured() {
    let mut s = session_with(PreviewOcr::Eager);
    let e = add(&mut s);
    assert!(e.iter().any(|e| matches!(e, Effect::Spawn(Job::Ocr { id: 1, .. }))));
    assert_eq!(s.views()[0].status, PageStatus::Processing);
    assert!(s.guard(&Cmd::Finish).is_ok(), "text does not hold up the document");
    s.handle_job_done(JobDone::Ocr { id: 1, result: Ok("words".to_string()) }, 5000);
    assert_eq!(s.views()[0].text.as_deref(), Some("words"));
    let mut s = session_with(PreviewOcr::Off);
    let e = add(&mut s);
    assert!(e.iter().all(|e| !matches!(e, Effect::Spawn(_))));
}

#[test]
fn rotation_changes_the_image() {
    let mut s = session();
    add(&mut s);
    let gen = s.views()[0].image_gen;
    let j = job(s.handle(Cmd::Rotate(1, true), 4000));
    assert!(matches!(j, Job::Rotate { id: 1, cw: true, .. }));
    assert!(s.guard(&Cmd::Rotate(1, true)).is_err());
    s.handle_job_done(JobDone::Rotate { id: 1, result: Ok(None) }, 5000);
    let v = &s.views()[0];
    assert_eq!(v.status, PageStatus::Ready);
    assert!(v.rotated);
    assert_ne!(v.image_gen, gen);
    let e = s.handle(Cmd::Crop { id: 1, x: 0, y: 0, w: 0, h: 5 }, 6000);
    assert!(statuses(&e).iter().any(|m| m.contains("empty crop area")));
    let j = job(s.handle(Cmd::Crop { id: 1, x: 1, y: 2, w: 3, h: 4 }, 6000));
    assert!(matches!(j, Job::Crop { id: 1, x: 1, y: 2, w: 3, h: 4, .. }));
}

#[test]
fn a_build_finishes_the_session() {
    let mut s = session();
    assert_eq!(s.guard(&Cmd::Finish).unwrap_err(), "no pages scanned yet");
    add(&mut s);
    let e = s.handle(Cmd::FinishTo { out: p("/x/b.pdf"), overwrite: true }, 4000);
    assert!(e.iter().any(|e| matches!(e, Effect::ReserveTarget { overwrite: true, .. })));
    match job(s.target_reserved(Ok(p("/x/b.pdf")), 4000)) {
        Job::Finish { plan } => {
            assert_eq!(plan.out_pdf, p("/x/b.pdf"));
            assert_eq!(plan.pages, [(p("/state/s/page_001.png"), 300)]);
            assert!(!plan.manually_rotated);
        }
        other => panic!("{other:?}"),
    }
    assert_eq!(s.meta().busy, Busy::Finishing);
    assert!(s.guard(&Cmd::Delete(1)).is_err());
    let e = s.handle_job_done(
        JobDone::Finish { result: Ok((BuildOutcome::Searchable, 12)) },
        9000,
    );
    assert!(e.iter().any(|e| matches!(e, Effect::Finished { size_kb: 12, .. })));
    assert!(s.meta().finished);
    assert!(!s.dirty(), "nothing is lost any more");
    assert!(s.guard(&Cmd::ScanNext { dpi: 300, mode: "gray".to_string() }).is_err());
    assert!(s.guard(&Cmd::NewSession).is_ok());
    let e = s.handle(Cmd::NewSession, 9500);
    assert!(e.iter().any(|e| matches!(e, Effect::Reopen)));
    s.reopened(p("/state/t"), p("/out/c.pdf"));
    assert!(s.views().is_empty());
    assert!(!s.meta().finished);
    assert_eq!(*s.output_path(), p("/out/c.pdf"));
    assert_eq!(*s.dir(), p("/state/t"));
}

#[test]
fn a_failed_build_can_be_repeated() {
    let mut s = session();
    add(&mut s);
    s.handle(Cmd::Finish, 4000);
    s.handle_job_done(JobDone::Finish { result: Err("boom".to_string()) }, 5000);
    assert!(!s.meta().finished);
    assert_eq!(s.meta().busy, Busy::Idle);
    assert!(s.guard(&Cmd::Finish).is_ok());
}

#[test]
fn leaving_cleans_up() {
    let mut s = session();
    match &s.quit()[..] {
        [Effect::RemoveDir(d), Effect::ReleaseReservation(f)] => {
            assert_eq!(*d, p("/state/s"));
            assert_eq!(*f, p("/out/a.pdf"));
        }
        other => panic!("{other:?}"),
    }
    add(&mut s);
    s.handle(Cmd::Finish, 4000);
    assert!(s.quit().is_empty(), "a running build keeps its pages");
}

#[test]
fn jobs_report_their_ends() {
    assert_eq!(session_dir(&p("/state/app"), "2026-09-02_143005"), p("/state/app/sessions/2026-09-02_143005"));
    assert!(matches!(job_error("cancelled".to_string()), JobError::Cancelled));
    assert!(matches!(job_error("jam".to_string()), JobError::Failed(m) if m == "jam"));
    assert!(matches!(text_report(Ok("t".to_string())), Ok(t) if t == "t"));
    assert!(matches!(text_report(Err("cancelled".to_string())), Err(JobError::Cancelled)));
    assert!(matches!(edit_step(Edit::Rotate, Ok(()), false, true), EditStep::MakeText));
    assert!(matches!(edit_step(Edit::Rotate, Ok(()), false, false), EditStep::Done(Ok(None))));
    assert!(matches!(
        edit_step(Edit::Crop, Ok(()), true, true),
        EditStep::Done(Err(JobError::Cancelled))
    ));
    match edit_step(Edit::Crop, Err("bad file".to_string()), false, true) {
        EditStep::Done(Err(JobError::Failed(m))) => assert_eq!(m, "crop failed: bad file"),
        other => panic!("{other:?}"),
    }
    match edit_report(Err("no data".to_string())) {
        Err(JobError::Failed(m)) => assert_eq!(m, "re-OCR failed: no data"),
        other => panic!("{other:?}"),
    }
    assert!(matches!(edit_report(Ok("t".to_string())), Ok(Some(t)) if t == "t"));
}

#[test]
fn picked_languages_are_used() {
    let mut s = session();
    add(&mut s);
    assert!(s.guard(&Cmd::SetLangs("eng".to_string())).is_ok());
    assert!(s.handle(Cmd::SetLangs("eng".to_string()), 3500).is_empty());
    match job(s.handle(Cmd::RequestText(1), 4000)) {
        Job::Ocr { langs, .. } => assert_eq!(langs, "eng"),
        other => panic!("{other:?}"),
    }
    s.handle_job_done(JobDone::Ocr { id: 1, result: Ok("words".to_string()) }, 4500);
    match job(s.handle(Cmd::Rotate(1, true), 5000)) {
        Job::Rotate { langs, .. } => assert_eq!(langs, "eng"),
        other => panic!("{other:?}"),
    }
    s.handle_job_done(JobDone::Rotate { id: 1, result: Ok(None) }, 5500);
    match job(s.handle(Cmd::Finish, 6000)) {
        Job::Finish { plan } => assert_eq!(plan.langs, "eng"),
        other => panic!("{other:?}"),
    }
}

#[test]
fn a_page_without_an_image_is_never_ready() {
    let mut s = session();
    let j = job(scan(&mut s));
    s.handle_job_done(captured(j, Err(JobError::Failed("jam".to_string()))), 2000);
    assert_eq!(s.views()[0].status, PageStatus::Failed);
    let rescan = Cmd::Rescan { id: 1, dpi: 300, mode: "gray".to_string() };
    let j = job(s.handle(rescan, 3000));
    let e = s.handle_job_done(captured(j, Err(JobError::Cancelled)), 4000);
    assert_eq!(statuses(&e), ["rescan cancelled; old page kept"]);
    assert_eq!(s.views()[0].status, PageStatus::Failed);
    assert!(s.guard(&Cmd::Finish).is_err(), "no page is left out of a document");

    // A page with an image is ready again.
    let mut s = session();
    add(&mut s);
    let rescan = Cmd::Rescan { id: 1, dpi: 600, mode: "color".to_string() };
    let j = job(s.handle(rescan, 4000));
    s.handle_job_done(captured(j, Err(JobError::Cancelled)), 5000);
    assert_eq!(s.views()[0].status, PageStatus::Ready);
    assert!(s.guard(&Cmd::Finish).is_ok());
}

#[test]
fn a_cancelled_capture_takes_its_page_along() {
    let mut s = session();
    let j = job(scan(&mut s));
    s.handle(Cmd::Delete(1), 1500);
    let e = s.handle_job_done(captured(j, Err(JobError::Cancelled)), 2000);
    assert_eq!(statuses(&e), ["scan cancelled"]);
    assert!(s.views().is_empty());
    let j = job(scan(&mut s));
    s.handle(Cmd::Delete(2), 2500);
    let e = s.handle_job_done(captured(j, Ok(false)), 3000);
    assert_eq!(statuses(&e), ["scan cancelled and page deleted"]);
    assert!(s.views().is_empty());
}

#[test]
fn a_document_has_every_page_in_order() {
    let mut s = session();
    add(&mut s);
    add(&mut s);
    add(&mut s);
    s.handle(Cmd::Move { from: 2, to: 0 }, 9000);
    match job(s.handle(Cmd::Finish, 9500)) {
        Job::Finish { plan } => assert_eq!(
            plan.pages,
            [
                (p("/state/s/page_003.png"), 300),
                (p("/state/s/page_001.png"), 300),
                (p("/state/s/page_002.png"), 300),
            ]
        ),
        other => panic!("{other:?}"),
    }
}
