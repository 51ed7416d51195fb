//! What the values stand for: nothing is lost or exchanged between a value and
//! what is said of it.

use vstd::prelude::*;

use crate::backend::filedialog::SaveChoice;
use crate::backend::filedialog::SaveChoiceView;
use crate::backend::pdf::BuildPlan;
use crate::backend::process::{RunError, RunErrorView};
use crate::backend::scan::Device;
use crate::check::{CheckItem, Report};
use crate::config::Config;
use crate::session;
use crate::session::model::{CmdModel, EffectModel, JobDoneModel, JobErrorModel, JobModel};
use crate::session::{Cmd, Effect, Job, JobDone, JobError, Page, PageView, SessionMeta};
use crate::tui::app::{App, AppEffect, CommandAction};
use crate::tui::model as screen;
use crate::tui::model::{AppEffectModel, AppModel};

verus! {

/// A configuration stands for its own values.
pub proof fn law_config_meaning(c: Config, i: int)
    ensures
        c@.dpi == c.dpi && c@.mode == c.mode@ && c@.langs == c.langs@ && c@.device == c.device@,
        c@.output == c.output@ && c@.cleanup == c.cleanup && c@.preview_ocr == c.preview_ocr,
        c@.notify == c.notify,
        c@.unpaper_extra_args.len() == c.unpaper_extra_args@.len(),
        0 <= i < c.unpaper_extra_args@.len() ==> c@.unpaper_extra_args[i]
            == c.unpaper_extra_args@[i]@,
{
}

/// A command stands for itself, with what it carries.
pub proof fn law_command_meaning(cmd: Cmd)
    ensures
        match cmd {
            Cmd::ScanNext { dpi, mode } => cmd@ == (CmdModel::ScanNext { dpi, mode: mode@ }),
            Cmd::CancelScan => cmd@ is CancelScan,
            Cmd::Rescan { id, dpi, mode } => cmd@ == (CmdModel::Rescan { id, dpi, mode: mode@ }),
            Cmd::Rotate(id, cw) => cmd@ == CmdModel::Rotate(id, cw),
            Cmd::Crop { id, x, y, w, h } => cmd@ == (CmdModel::Crop { id, x, y, w, h }),
            Cmd::Delete(id) => cmd@ == CmdModel::Delete(id),
            Cmd::Move { from, to } => cmd@ is Move && cmd@->from == from && cmd@->to == to,
            Cmd::Finish => cmd@ is Finish,
            Cmd::FinishTo { out, overwrite } => cmd@ == (CmdModel::FinishTo {
                out: out@,
                overwrite,
            }),
            Cmd::NewSession => cmd@ is NewSession,
            Cmd::ListLangs => cmd@ is ListLangs,
            Cmd::SetDevice(name) => cmd@ == CmdModel::SetDevice(name@),
            Cmd::SetLangs(langs) => cmd@ == CmdModel::SetLangs(langs@),
            Cmd::RequestText(id) => cmd@ == CmdModel::RequestText(id),
        },
{
}

/// What a user asks of the pages becomes the command for it, with the settings
/// that are shown.
pub proof fn law_asked_for(s: AppModel, id: usize, to: usize, cw: bool)
    requires
        id <= u32::MAX,
    ensures
        screen::command_of(s, CommandAction::ScanNext) == (CmdModel::ScanNext {
            dpi: s.dpi,
            mode: s.mode,
        }),
        screen::command_of(s, CommandAction::Rescan(id)) == (CmdModel::Rescan {
            id: id as u32,
            dpi: s.dpi,
            mode: s.mode,
        }),
        screen::command_of(s, CommandAction::Rotate(id, cw)) == CmdModel::Rotate(id as u32, cw),
        screen::command_of(s, CommandAction::Delete(id)) == CmdModel::Delete(id as u32),
        screen::command_of(s, CommandAction::Move(id, to)) == (CmdModel::Move {
            from: id as int,
            to: to as int,
        }),
        screen::command_of(s, CommandAction::CancelScan) is CancelScan,
        screen::command_of(s, CommandAction::ListLangs) is ListLangs,
        screen::command_of(s, CommandAction::NewSession) is NewSession,
{
}

/// A page stands for its own values.
pub proof fn law_page_meaning(p: Page, v: PageView)
    ensures
        p@.id == p.id && p@.status == p.status && p@.dpi == p.dpi && p@.mode == p.mode@,
        p@.stage == p.stage && p@.stage_started == p.stage_started && p@.rotated == p.rotated,
        p@.unpaper_deskewed == p.unpaper_deskewed && p@.used_fallback == p.used_fallback,
        p@.image_gen == p.image_gen && p@.text_pending == p.text_pending,
        p@.ocr_failed_gen == p.ocr_failed_gen,
        p.image matches Some(f) ==> p@.image == Some(f@),
        p.image is None ==> p@.image is None,
        p.text matches Some(t) ==> p@.text == Some(t@),
        p.text is None ==> p@.text is None,
        p.error matches Some(e) ==> p@.error == Some(e@),
        p.error is None ==> p@.error is None,
        v@.id == v.id && v@.status == v.status && v@.dpi == v.dpi && v@.mode == v.mode@,
        v@.stage == v.stage && v@.stage_started == v.stage_started && v@.rotated == v.rotated,
        v@.image_gen == v.image_gen && v@.text_pending == v.text_pending,
        v@.ocr_failed_gen == v.ocr_failed_gen,
        v.image matches Some(f) ==> v@.image == Some(f@),
        v.image is None ==> v@.image is None,
        v.text matches Some(t) ==> v@.text == Some(t@),
        v.text is None ==> v@.text is None,
        v.error matches Some(e) ==> v@.error == Some(e@),
        v.error is None ==> v@.error is None,
{
}

/// A job stands for itself, with what it works on.
pub proof fn law_job_meaning(job: Job)
    ensures
        match job {
            Job::Scan { id, is_rescan, device, dpi, mode, path } => job@ == (JobModel::Scan {
                id,
                is_rescan,
                device: device@,
                dpi,
                mode: mode@,
                path: path@,
            }),
            Job::Clean { id, is_rescan, dpi, mode, path, used_fallback, cleanup, .. } => {
                &&& job@ is Clean
                &&& job@->Clean_id == id && job@->Clean_is_rescan == is_rescan
                &&& job@->Clean_dpi == dpi && job@->Clean_mode == mode@
                &&& job@->Clean_path == path@ && job@->used_fallback == used_fallback
                &&& job@->cleanup == cleanup
            },
            Job::Ocr { id, image, langs, dir } => job@ == (JobModel::Ocr {
                id,
                image: image@,
                langs: langs@,
                dir: dir@,
            }),
            Job::Rotate { id, image, cw, reocr, langs, dir } => job@ == (JobModel::Rotate {
                id,
                image: image@,
                cw,
                reocr,
                langs: langs@,
                dir: dir@,
            }),
            Job::Crop { id, image, x, y, w, h, reocr, langs, dir } => job@ == (JobModel::Crop {
                id,
                image: image@,
                x,
                y,
                w,
                h,
                reocr,
                langs: langs@,
                dir: dir@,
            }),
            Job::Finish { plan } => job@ == (JobModel::Finish { plan: plan@ }),
        },
{
}

/// What a document is built from stands for its own values, and its images
/// keep their order and their resolutions.
pub proof fn law_plan_meaning(p: BuildPlan, i: int)
    ensures
        p@.pages.len() == p.pages@.len(),
        0 <= i < p.pages@.len() ==> p@.pages[i] == (p.pages@[i].0@, p.pages@[i].1),
        p@.any_page_needing_cleanup == p.any_page_needing_cleanup,
        p@.manually_rotated == p.manually_rotated,
        p@.langs == p.langs@,
        p@.out_pdf == p.out_pdf@,
{
}

/// A failure stands for itself.
pub proof fn law_failure_meaning(e: JobError, f: RunError)
    ensures
        match e {
            JobError::Cancelled => e@ is Cancelled,
            JobError::Failed(m) => e@ == JobErrorModel::Failed(m@),
        },
        match f {
            RunError::NotFound => f@ is NotFound,
            RunError::Timeout(s) => f@ == RunErrorView::Timeout(s),
            RunError::Cancelled => f@ is Cancelled,
            RunError::Failed(rc) => f@ == RunErrorView::Failed(rc),
            RunError::Io(m) => f@ == RunErrorView::Io(m@),
        },
{
}

/// What a finished job reports stands for itself.
pub proof fn law_report_meaning(done: JobDone)
    ensures
        match done {
            JobDone::Scan { id, is_rescan, dpi, mode, path, result } => {
                &&& done@ is Scan
                &&& done@->Scan_id == id && done@->Scan_is_rescan == is_rescan
                &&& done@->Scan_dpi == dpi && done@->Scan_mode == mode@
                &&& done@->Scan_path == path@
                &&& result matches Ok(b) ==> done@->Scan_result == Ok::<bool, JobErrorModel>(b)
                &&& result matches Err(e) ==> done@->Scan_result == Err::<bool, JobErrorModel>(e@)
            },
            JobDone::Clean {
                id,
                is_rescan,
                dpi,
                mode,
                image,
                unpaper_deskewed,
                used_fallback,
            } => done@ == (JobDoneModel::Clean {
                id,
                is_rescan,
                dpi,
                mode: mode@,
                image: image@,
                unpaper_deskewed,
                used_fallback,
            }),
            JobDone::Ocr { id, result } => {
                &&& done@ is Ocr && done@->Ocr_id == id
                &&& result matches Ok(t) ==> done@->Ocr_result == Ok::<Seq<char>, JobErrorModel>(
                    t@,
                )
                &&& result matches Err(e) ==> done@->Ocr_result == Err::<Seq<char>, JobErrorModel>(
                    e@,
                )
            },
            JobDone::Rotate { id, result } => {
                &&& done@ is Rotate && done@->Rotate_id == id
                &&& result matches Ok(Some(t)) ==> done@->Rotate_result == Ok::<
                    Option<Seq<char>>,
                    JobErrorModel,
                >(Some(t@))
                &&& result matches Ok(None) ==> done@->Rotate_result == Ok::<
                    Option<Seq<char>>,
                    JobErrorModel,
                >(None)
                &&& result matches Err(e) ==> done@->Rotate_result == Err::<
                    Option<Seq<char>>,
                    JobErrorModel,
                >(e@)
            },
            JobDone::Crop { id, result } => done@ == (JobDoneModel::Crop {
                id,
                result: session::edit_result(result),
            }),
            JobDone::Finish { result } => {
                &&& done@ is Finish
                &&& result matches Ok(r) ==> done@->Finish_result is Ok
                    && done@->Finish_result->Ok_0 == r
                &&& result matches Err(e) ==> done@->Finish_result is Err
                    && done@->Finish_result->Err_0 == e@
            },
        },
{
}

/// What is to be done stands for itself.
pub proof fn law_effect_meaning(e: Effect)
    ensures
        match e {
            Effect::Pages => e@ is Pages,
            Effect::Status(s) => e@ == EffectModel::Status(s@),
            Effect::Finished { outcome, path, size_kb } => e@ == (EffectModel::Finished {
                outcome,
                path: path@,
                size_kb,
            }),
            Effect::Spawn(job) => e@ == EffectModel::Spawn(job@),
            Effect::CancelScan => e@ is CancelScan,
            Effect::CancelJob(id) => e@ == EffectModel::CancelJob(id),
            Effect::RemoveFile(p) => e@ == EffectModel::RemoveFile(p@),
            Effect::RemoveDir(p) => e@ == EffectModel::RemoveDir(p@),
            Effect::ReserveTarget { out, overwrite } => e@ == (EffectModel::ReserveTarget {
                out: out@,
                overwrite,
            }),
            Effect::ReleaseReservation(p) => e@ == EffectModel::ReleaseReservation(p@),
            Effect::Reopen => e@ is Reopen,
            Effect::ListLangs => e@ is ListLangs,
        },
{
}

/// What the program around the interface has to do stands for itself.
pub proof fn law_app_effect_meaning(e: AppEffect)
    ensures
        match e {
            AppEffect::Send(cmd) => e@ == AppEffectModel::Send(cmd@),
            AppEffect::RunChecks => e@ is RunChecks,
            AppEffect::SaveDialog { dir, filename, title } => e@ == (AppEffectModel::SaveDialog {
                dir: dir@,
                filename: filename@,
                title: title@,
            }),
            AppEffect::OpenResult(p) => e@ == AppEffectModel::OpenResult(p@),
            AppEffect::Notify { summary, body, urgency } => e@ == (AppEffectModel::Notify {
                summary: summary@,
                body: body@,
                urgency,
            }),
        },
{
}

/// The interface stands for its own values, and its pages for those that it
/// holds, in their order.
pub proof fn law_interface_meaning(a: App, i: int)
    ensures
        a@.cfg == a.cfg@ && a@.dpi == a.settings.dpi && a@.mode == a.settings.mode@,
        a@.pages.len() == a.pages@.len(),
        0 <= i < a.pages@.len() ==> a@.pages[i] == a.pages@[i]@,
        a@.selected == a.selected && a@.focus == a.focus,
        a@.text_scroll == a.text_scroll && a@.status_scroll == a.status_scroll,
        a@.status_lines.len() == a.status_lines@.len(),
        0 <= i < a.status_lines@.len() ==> a@.status_lines[i] == a.status_lines@[i]@,
        a.meta matches Some(m) ==> a@.meta == Some(m@),
        a.meta is None ==> a@.meta is None,
        a.overlay matches Some(o) ==> a@.overlay == Some(o@),
        a.overlay is None ==> a@.overlay is None,
        a.report matches Some(r) ==> a@.report == Some(r@),
        a.report is None ==> a@.report is None,
        a.last_result matches Some(r) ==> a@.last_result == Some((r.0@, r.1, r.2)),
        a.last_result is None ==> a@.last_result is None,
        a@.device_label == a.device_label@ && a@.device_known == a.device_known,
        a@.quit_requested == a.quit_requested && a@.pending_scan == a.pending_scan,
        a@.startup_report_ok == a.startup_report_ok && a@.rerun_seen == a.rerun_seen,
        a@.checks_in_flight == a.checks_in_flight && a@.dialog_in_flight == a.dialog_in_flight,
        a@.pane_rects == a.pane_rects && a@.preview_cells == a.preview_cells@,
        a@.editor == a.editor && a@.editor_rects == a.editor_rects && a@.overlay_rect
            == a.overlay_rect,
{
}

/// The facts of a session, a check, a report, a scanner and a choice stand for
/// their own values.
pub proof fn law_facts_meaning(
    m: SessionMeta,
    c: CheckItem,
    r: Report,
    d: Device,
    s: SaveChoice,
    i: int,
)
    ensures
        m@.busy == m.busy && m@.busy_since == m.busy_since && m@.jobs_running == m.jobs_running,
        m@.output_path == m.output_path@ && m@.dirty == m.dirty && m@.finished == m.finished,
        c@.what == c.what@ && c@.status == c.status && c@.detail == c.detail@,
        c.hint matches Some(h) ==> c@.hint == Some(h@),
        c.hint is None ==> c@.hint is None,
        c.pending_detail matches Some(h) ==> c@.pending_detail == Some(h@),
        c.pending_detail is None ==> c@.pending_detail is None,
        r@.items.len() == r.items@.len(),
        0 <= i < r.items@.len() ==> r@.items[i] == r.items@[i]@,
        r.device matches Some(x) ==> r@.device == Some(x@),
        r.device is None ==> r@.device is None,
        r@.source == r.source,
        d@.name == d.name@ && d@.label == d.label@,
        match s {
            SaveChoice::Chosen(p) => s@ == SaveChoiceView::Chosen(p@),
            SaveChoice::Cancelled => s@ is Cancelled,
            SaveChoice::Unavailable => s@ is Unavailable,
        },
{
}

} // verus!
