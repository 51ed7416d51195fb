//! What a session says, what it leaves alone, and what it cleans up.

use vstd::prelude::*;
use vstd::utf8::*;

use crate::backend::pdf::BuildOutcome;
use crate::config::{Cleanup, ConfigView, PreviewOcr};
use crate::path;
use crate::session::jobs;
use crate::session::jobs::Edit;
use crate::session::laws;
use crate::session::model;
use crate::session::model::{
    CmdModel, EffectModel, JobDoneModel, JobErrorModel, PageModel, SessionModel,
};
use crate::session::{Busy, JobError, PageStatus, Stage};
use crate::text;

verus! {

/// Some line of text is shown.
pub open spec fn says(fx: Seq<EffectModel>, msg: Seq<char>) -> bool {
    fx.contains(EffectModel::Status(msg))
}

/// Nothing happens but that a line of text is shown.
pub open spec fn only_says(step: (SessionModel, Seq<EffectModel>), s: SessionModel, msg: Seq<char>) -> bool {
    step.0 == s && step.1 == seq![EffectModel::Status(msg)]
}

// ------------------------------------------------------------------- refusals

/// A capture that is not possible changes nothing and is answered with the
/// reason: the scanner works, the document is being built, it is built, or a
/// page waits to be deleted.
pub proof fn law_refused_capture(s: SessionModel, dpi: u16, mode: Seq<char>, now: u64)
    ensures
        ({
            let step = model::command(s, CmdModel::ScanNext { dpi, mode }, now);
            &&& s.busy == Busy::Scanning ==> only_says(
                step,
                s,
                "blocked: "@ + "scanner busy - press Esc to cancel"@,
            )
            &&& s.busy == Busy::Finishing ==> only_says(
                step,
                s,
                "blocked: "@ + "building PDF - scan once it finishes"@,
            )
            &&& s.busy == Busy::Idle && s.finished ==> only_says(
                step,
                s,
                "blocked: "@ + "PDF already built - press n for a new session"@,
            )
            &&& s.busy == Busy::Idle && !s.finished && (exists|i: int|
                0 <= i < s.pages.len() && (#[trigger] s.pages[i]).status
                    == PageStatus::DeletePending) ==> only_says(
                step,
                s,
                "blocked: "@ + "waiting for deferred delete"@,
            )
        }),
{
    if exists|i: int|
        0 <= i < s.pages.len() && (#[trigger] s.pages[i]).status == PageStatus::DeletePending {
        let i = choose|i: int|
            0 <= i < s.pages.len() && (#[trigger] s.pages[i]).status == PageStatus::DeletePending;
        assert(model::delete_pending(s.pages[i]));
    }
}

/// A page that cannot be captured again, turned or cut down is left alone, and
/// the reason is told.
pub proof fn law_refused_page_work(
    s: SessionModel,
    id: u32,
    dpi: u16,
    mode: Seq<char>,
    cw: bool,
    now: u64,
)
    ensures
        ({
            let again = model::command(s, CmdModel::Rescan { id, dpi, mode }, now);
            let turn = model::command(s, CmdModel::Rotate(id, cw), now);
            let cut = model::command(s, CmdModel::Crop { id, x: 0, y: 0, w: 1, h: 1 }, now);
            let none = model::command(s, CmdModel::Crop { id, x: 0, y: 0, w: 0, h: 1 }, now);
            let flat = model::command(s, CmdModel::Crop { id, x: 0, y: 0, w: 1, h: 0 }, now);
            let free = s.busy == Busy::Idle && !s.finished;
            let building = "blocked: "@ + "building PDF - wait for it to finish"@;
            let built = "blocked: "@ + "PDF already built - press n for a new session"@;
            let missing = "blocked: "@ + "no such page"@;
            &&& s.busy == Busy::Scanning ==> only_says(
                again,
                s,
                "blocked: "@ + "scanner busy - press Esc to cancel"@,
            )
            &&& s.busy == Busy::Finishing ==> only_says(again, s, building) && only_says(
                turn,
                s,
                building,
            ) && only_says(cut, s, building)
            &&& s.busy == Busy::Idle && s.finished ==> only_says(again, s, built) && only_says(
                turn,
                s,
                built,
            ) && only_says(cut, s, built)
            &&& free && s.jobs.contains(id) ==> only_says(
                turn,
                s,
                "blocked: "@ + "page busy - rotate after it finishes"@,
            ) && only_says(cut, s, "blocked: "@ + "page busy - crop after it finishes"@)
            &&& free && s.jobs.contains(id) && model::find(s.pages, id) is Some ==> only_says(
                again,
                s,
                "blocked: "@ + "page busy - rescan after it finishes"@,
            )
            &&& free && !s.jobs.contains(id) && model::find(s.pages, id) is None ==> only_says(
                again,
                s,
                missing,
            ) && only_says(turn, s, missing) && only_says(cut, s, missing)
            &&& free && !s.jobs.contains(id) && (model::find(s.pages, id) matches Some(i)
                && s.pages[i].status == PageStatus::Failed) ==> only_says(
                turn,
                s,
                "blocked: "@ + "only ready pages can be rotated"@,
            ) && only_says(cut, s, "blocked: "@ + "only ready pages can be cropped"@)
            &&& only_says(none, s, "blocked: "@ + "empty crop area"@)
            &&& only_says(flat, s, "blocked: "@ + "empty crop area"@)
        }),
{
}

/// A document that cannot be built is not built, and the reason is told: there
/// are no pages, it is being built, it is built, or a capture goes on.
pub proof fn law_refused_build(s: SessionModel, now: u64)
    ensures
        ({
            let step = model::command(s, CmdModel::Finish, now);
            let some = s.pages.len() > 0;
            &&& !some ==> only_says(step, s, "blocked: "@ + "no pages scanned yet"@)
            &&& some && s.busy == Busy::Finishing ==> only_says(
                step,
                s,
                "blocked: "@ + "already building"@,
            )
            &&& some && s.busy != Busy::Finishing && s.finished ==> only_says(
                step,
                s,
                "blocked: "@ + "PDF already built - press n for a new session"@,
            )
            &&& some && s.busy == Busy::Scanning && !s.finished ==> only_says(
                step,
                s,
                "blocked: "@ + "scan in progress - finish after it completes"@,
            )
        }),
{
}

/// Where pages have failed, the first of them is named, with what to do; a page
/// that is still being cleaned is named where none has failed.
pub proof fn law_build_names_page(s: SessionModel, k: int, now: u64)
    requires
        s.busy == Busy::Idle,
        !s.finished,
        0 <= k < s.pages.len(),
    ensures
        ({
            let step = model::command(s, CmdModel::Finish, now);
            let n = text::dec(s.pages[k].id as nat);
            &&& s.pages[k].status == PageStatus::Failed && (forall|j: int|
                0 <= j < k ==> (#[trigger] s.pages[j]).status != PageStatus::Failed) ==> only_says(
                step,
                s,
                "blocked: "@ + ("page "@ + n + " failed - rescan (r) or delete (d) first"@),
            )
            &&& (forall|j: int|
                0 <= j < s.pages.len() ==> (#[trigger] s.pages[j]).status != PageStatus::Failed)
                && (forall|j: int|
                0 <= j < k ==> (#[trigger] s.pages[j]).status != PageStatus::Processing)
                && s.pages[k].status == PageStatus::Processing && s.pages[k].stage == Some(
                Stage::Clean,
            ) ==> only_says(
                step,
                s,
                "blocked: "@ + ("page "@ + n + " still "@ + "cleaning"@ + " - finish once done"@),
            )
        }),
{
    let bad = |p: PageModel| model::failed(p);
    let open_ = |p: PageModel| model::image_unsettled(p);
    lemma_first(s.pages, bad);
    lemma_first(s.pages, open_);
    assert(bad(s.pages[k]) == (s.pages[k].status == PageStatus::Failed));
    if s.pages[k].status == PageStatus::Failed && (forall|j: int|
        0 <= j < k ==> (#[trigger] s.pages[j]).status != PageStatus::Failed) {
        let i = model::first_where(s.pages, bad)->0;
        assert(bad(s.pages[i]));
        assert(i == k);
    }
    if (forall|j: int|
        0 <= j < s.pages.len() ==> (#[trigger] s.pages[j]).status != PageStatus::Failed) && (forall|
        j: int,
    | 0 <= j < k ==> (#[trigger] s.pages[j]).status != PageStatus::Processing)
        && s.pages[k].status == PageStatus::Processing && s.pages[k].stage == Some(Stage::Clean) {
        if model::first_where(s.pages, bad) is Some {
            assert(bad(s.pages[model::first_where(s.pages, bad)->0]));
        }
        assert(open_(s.pages[k]));
        let i = model::first_where(s.pages, open_)->0;
        assert(open_(s.pages[i]));
        assert(i == k);
    }
}

proof fn lemma_first(pages: Seq<PageModel>, f: spec_fn(PageModel) -> bool)
    ensures
        match model::first_where(pages, f) {
            Some(i) => 0 <= i < pages.len() && f(pages[i]) && forall|j: int|
                0 <= j < i ==> !f(#[trigger] pages[j]),
            None => forall|j: int| 0 <= j < pages.len() ==> !f(#[trigger] pages[j]),
        },
    decreases pages.len(),
{
    if pages.len() > 0 {
        let init = pages.drop_last();
        lemma_first(init, f);
        assert forall|j: int| 0 <= j < init.len() implies #[trigger] pages[j] == init[j] by {}
    }
}

/// What else is refused, and why.
pub proof fn law_other_refusals(s: SessionModel, id: u32, from: int, to: int, now: u64)
    ensures
        s.busy == Busy::Finishing ==> {
            let building = "blocked: "@ + "building PDF - wait for it to finish"@;
            &&& only_says(model::command(s, CmdModel::Delete(id), now), s, building)
            &&& only_says(model::command(s, CmdModel::Move { from, to }, now), s, building)
        },
        s.busy != Busy::Scanning ==> only_says(
            model::command(s, CmdModel::CancelScan, now),
            s,
            "blocked: "@ + "no scan in progress"@,
        ),
        s.busy != Busy::Idle || s.jobs.len() > 0 ==> only_says(
            model::command(s, CmdModel::NewSession, now),
            s,
            "blocked: "@ + "busy - try again after current work finishes"@,
        ),
{
}

// ------------------------------------------------------------------------ say

/// What is said when work on pages begins: which page it is, and with which
/// settings it is captured.
pub proof fn law_work_is_told(s: SessionModel, id: u32, dpi: u16, mode: Seq<char>, now: u64)
    ensures
        model::refusal(s, CmdModel::ScanNext { dpi, mode }) is None ==> says(
            model::command(s, CmdModel::ScanNext { dpi, mode }, now).1,
            "scanning page "@ + text::dec(s.pages.len() + 1) + (" ("@ + text::dec(dpi as nat)
                + "dpi "@ + mode + ")…"@),
        ),
        model::refusal(s, CmdModel::Rescan { id, dpi, mode }) is None ==> says(
            model::command(s, CmdModel::Rescan { id, dpi, mode }, now).1,
            "rescanning page "@ + text::dec(id as nat) + (" ("@ + text::dec(dpi as nat) + "dpi "@
                + mode + ")…"@),
        ),
        s.busy == Busy::Scanning ==> says(
            model::command(s, CmdModel::CancelScan, now).1,
            "cancelling scan…"@,
        ),
        model::refusal(s, CmdModel::Finish) is None ==> says(
            model::command(s, CmdModel::Finish, now).1,
            "building searchable PDF…"@,
        ),
{
    laws::lemma_find(s.pages, id);
    let a = model::command(s, CmdModel::ScanNext { dpi, mode }, now).1;
    let b = model::command(s, CmdModel::Rescan { id, dpi, mode }, now).1;
    let c = model::command(s, CmdModel::CancelScan, now).1;
    let d = model::command(s, CmdModel::Finish, now).1;
    if model::refusal(s, CmdModel::ScanNext { dpi, mode }) is None {
        assert(a[1] is Status);
    }
    if model::refusal(s, CmdModel::Rescan { id, dpi, mode }) is None {
        assert(b[1] is Status);
    }
    if s.busy == Busy::Scanning {
        assert(c[1] is Status);
    }
    if model::refusal(s, CmdModel::Finish) is None {
        assert(d[1] is Status);
    }
}

/// What is said when pages are moved and deleted: the places are counted from
/// one, and a page is named by its number.
pub proof fn law_arranging_is_told(s: SessionModel, id: u32, from: int, to: int, now: u64)
    requires
        s.busy != Busy::Finishing,
    ensures
        0 <= from < s.pages.len() && 0 <= to < s.pages.len() && from != to ==> says(
            model::command(s, CmdModel::Move { from, to }, now).1,
            "moved page "@ + text::dec((from + 1) as nat) + " → "@ + text::dec((to + 1) as nat),
        ),
        model::find(s.pages, id) matches Some(i) ==> {
            let fx = model::command(s, CmdModel::Delete(id), now).1;
            &&& s.pages[i].status == PageStatus::Scanning ==> says(
                fx,
                "deleting page after scan ends…"@,
            )
            &&& s.pages[i].status == PageStatus::Processing ==> says(fx, "deleting page…"@)
            &&& s.pages[i].status == PageStatus::Ready || s.pages[i].status == PageStatus::Failed
                ==> says(fx, "page "@ + text::dec(id as nat) + " deleted"@)
        },
{
    laws::lemma_find(s.pages, id);
    let m = model::command(s, CmdModel::Move { from, to }, now).1;
    if 0 <= from < s.pages.len() && 0 <= to < s.pages.len() && from != to {
        assert(m[1] is Status);
    }
    if model::find(s.pages, id) is Some {
        let fx = model::command(s, CmdModel::Delete(id), now).1;
        assert(fx[fx.len() - 1] is Status);
    }
}

/// What is said when a capture ends otherwise than wanted.
pub proof fn law_failed_capture_is_told(
    s: SessionModel,
    id: u32,
    is_rescan: bool,
    dpi: u16,
    mode: Seq<char>,
    file: Seq<u8>,
    e: Seq<char>,
    now: u64,
)
    requires
        model::find(s.pages, id) matches Some(i) && s.pages[i].status != PageStatus::DeletePending,
    ensures
        ({
            let off = model::job_done(
                s,
                JobDoneModel::Scan {
                    id,
                    is_rescan,
                    dpi,
                    mode,
                    path: file,
                    result: Err(JobErrorModel::Cancelled),
                },
                now,
            ).1;
            let bad = model::job_done(
                s,
                JobDoneModel::Scan {
                    id,
                    is_rescan,
                    dpi,
                    mode,
                    path: file,
                    result: Err(JobErrorModel::Failed(e)),
                },
                now,
            ).1;
            &&& is_rescan ==> says(off, "rescan cancelled; old page kept"@)
            &&& !is_rescan ==> says(off, "scan cancelled"@)
            &&& is_rescan ==> says(bad, "rescan"@ + " failed: "@ + e)
            &&& !is_rescan ==> says(bad, "scan"@ + " failed: "@ + e)
        }),
{
    laws::lemma_find(s.pages, id);
    let off = model::job_done(
        s,
        JobDoneModel::Scan {
            id,
            is_rescan,
            dpi,
            mode,
            path: file,
            result: Err(JobErrorModel::Cancelled),
        },
        now,
    ).1;
    let bad = model::job_done(
        s,
        JobDoneModel::Scan {
            id,
            is_rescan,
            dpi,
            mode,
            path: file,
            result: Err(JobErrorModel::Failed(e)),
        },
        now,
    ).1;
    assert(off[0] is Status);
    assert(bad[0] is Status);
}

/// A page that has become ready is announced by its number, with a warning
/// where the scanner did not take the settings, and else with a note where it
/// was not straightened by unpaper although that was not left out on purpose.
pub proof fn law_ready_page_is_told(
    s: SessionModel,
    id: u32,
    is_rescan: bool,
    dpi: u16,
    mode: Seq<char>,
    image: Seq<u8>,
    deskewed: bool,
    fallback: bool,
    now: u64,
)
    requires
        model::find(s.pages, id) matches Some(i) && s.pages[i].status != PageStatus::DeletePending,
        s.cfg.preview_ocr != PreviewOcr::Eager,
    ensures
        ({
            let fx = model::job_done(
                s,
                JobDoneModel::Clean {
                    id,
                    is_rescan,
                    dpi,
                    mode,
                    image,
                    unpaper_deskewed: deskewed,
                    used_fallback: fallback,
                },
                now,
            ).1;
            let head = "page "@ + text::dec(id as nat) + " ready"@;
            &&& fallback ==> says(
                fx,
                head + " - scanner rejected resolution/mode; page size may differ"@,
            )
            &&& !fallback && deskewed ==> says(fx, head)
            &&& !fallback && !deskewed && s.cfg.cleanup != Cleanup::Legacy ==> says(
                fx,
                head + " - unpaper cleanup unavailable; ocrmypdf deskews at finish"@,
            )
        }),
{
    laws::lemma_find(s.pages, id);
    let fx = model::job_done(
        s,
        JobDoneModel::Clean {
            id,
            is_rescan,
            dpi,
            mode,
            image,
            unpaper_deskewed: deskewed,
            used_fallback: fallback,
        },
        now,
    ).1;
    let head = "page "@ + text::dec(id as nat) + " ready"@;
    reveal_strlit("");
    assert(head + ""@ =~= head);
    assert(fx[fx.len() - 1] is Status);
}

/// What is said when a document was built, and when it could not be.
pub proof fn law_build_is_told(
    s: SessionModel,
    outcome: BuildOutcome,
    kb: u64,
    e: Seq<char>,
    now: u64,
)
    ensures
        says(
            model::job_done(s, JobDoneModel::Finish { result: Ok((outcome, kb)) }, now).1,
            "done: "@ + path::lossy(s.out_pdf) + " ("@ + text::dec(kb as nat)
                + " KB) - o to open"@,
        ),
        says(
            model::job_done(s, JobDoneModel::Finish { result: Err(e) }, now).1,
            "PDF build failed: "@ + e,
        ),
{
    let a = model::job_done(s, JobDoneModel::Finish { result: Ok((outcome, kb)) }, now).1;
    let b = model::job_done(s, JobDoneModel::Finish { result: Err(e) }, now).1;
    assert(a[1] is Status);
    assert(b[0] is Status);
}

/// What is said when a page was turned or cut down.
pub proof fn law_edits_are_told(s: SessionModel, id: u32, made: Option<Seq<char>>, now: u64)
    requires
        model::find(s.pages, id) matches Some(i) && s.pages[i].status != PageStatus::DeletePending,
    ensures
        says(
            model::job_done(s, JobDoneModel::Rotate { id, result: Ok(made) }, now).1,
            "page "@ + text::dec(id as nat) + " rotated"@,
        ),
        says(
            model::job_done(s, JobDoneModel::Crop { id, result: Ok(made) }, now).1,
            "page "@ + text::dec(id as nat) + " cropped"@,
        ),
{
    let a = model::job_done(s, JobDoneModel::Rotate { id, result: Ok(made) }, now).1;
    let b = model::job_done(s, JobDoneModel::Crop { id, result: Ok(made) }, now).1;
    assert(a[1] is Status);
    assert(b[1] is Status);
}

/// A new session is announced once it has its place.
pub proof fn law_new_session_is_told(s: SessionModel, dir: Seq<u8>, out: Seq<u8>)
    ensures
        says(model::reopened(s, dir, out).1, "new session started"@),
        model::reopened(s, dir, out).1.contains(EffectModel::Pages),
        model::reopened(s, dir, out).0 == (SessionModel { dir, out_pdf: out, ..s }),
{
    let fx = model::reopened(s, dir, out).1;
    assert(fx[0] is Pages);
    assert(fx[1] is Status);
}

/// Whatever a command changes of the pages, or of what the session works on,
/// is shown; a new session is shown once it has its place.
pub proof fn law_changes_are_shown(s: SessionModel, cmd: CmdModel, now: u64)
    requires
        !(cmd is NewSession),
        !(cmd is SetDevice),
        !(cmd is SetLangs),
    ensures
        model::command(s, cmd, now).0 != s ==> model::command(s, cmd, now).1.contains(
            EffectModel::Pages,
        ),
{
    let (t, fx) = model::command(s, cmd, now);
    if t != s {
        match cmd {
            CmdModel::Delete(id) => {
                let i = model::find(s.pages, id)->0;
                if s.pages[i].status == PageStatus::Scanning || s.pages[i].status
                    == PageStatus::Processing {
                    assert(fx[1] is Pages);
                } else {
                    assert(fx[fx.len() - 2] is Pages);
                }
            },
            _ => {
                assert(fx[0] is Pages);
            },
        }
    }
}

/// What the end of a job changes is shown.
pub proof fn law_ends_are_shown(s: SessionModel, done: JobDoneModel, now: u64)
    ensures
        model::job_done(s, done, now).1.contains(EffectModel::Pages),
{
    let fx = model::job_done(s, done, now).1;
    let n = fx.len();
    if model::pending_at(s, laws::done_page(done)) is Some && !(done is Finish) {
        assert(fx[n - 1] is Pages);
    } else {
        match done {
            JobDoneModel::Scan { id, result, .. } => {
                if result is Ok {
                    assert(fx[0] is Pages);
                } else {
                    assert(fx[1] is Pages);
                }
            },
            JobDoneModel::Clean { .. } => {
                if model::find(s.pages, laws::done_page(done)) is Some {
                    assert(fx[n - 2] is Pages);
                } else {
                    assert(fx[0] is Pages);
                }
            },
            JobDoneModel::Finish { .. } => {
                assert(fx[n - 1] is Pages);
            },
            _ => {
                assert(fx[0] is Pages);
            },
        }
    }
}

// ---------------------------------------------------------------- left alone

/// No command changes what it is not about: the languages change only when
/// they are set, the scanner only when one is set, the numbers of pages go on
/// only with a capture, and neither the directory nor the place of the
/// document changes.
pub proof fn law_commands_leave_rest(s: SessionModel, cmd: CmdModel, now: u64)
    ensures
        ({
            let t = model::command(s, cmd, now).0;
            &&& cmd matches CmdModel::SetLangs(l) ==> t == (SessionModel {
                cfg: ConfigView { langs: l, ..s.cfg },
                ..s
            })
            &&& !(cmd is SetLangs) ==> t.cfg == s.cfg
            &&& !(cmd is SetDevice) ==> t.device == s.device
            &&& !(cmd is ScanNext) ==> t.next_id == s.next_id
            &&& t.dir == s.dir && t.out_pdf == s.out_pdf
            &&& !(cmd is NewSession) ==> t.finished == s.finished
            &&& !(cmd is ScanNext || cmd is Rescan || cmd is Finish || cmd is NewSession) ==> t.busy
                == s.busy && t.busy_since == s.busy_since && t.scan_page == s.scan_page
            &&& cmd is ListLangs ==> t == s && model::command(s, cmd, now).1 == seq![
                EffectModel::ListLangs,
            ]
        }),
{
}

/// No end of a job changes the settings, the scanner, the numbers, the
/// directory or the place of the document; only the end of a build makes the
/// session finished, and only the end of a capture or of a build frees what
/// they used.
pub proof fn law_jobs_leave_rest(s: SessionModel, done: JobDoneModel, now: u64)
    ensures
        ({
            let t = model::job_done(s, done, now).0;
            &&& t.cfg == s.cfg && t.device == s.device && t.next_id == s.next_id
            &&& t.dir == s.dir && t.out_pdf == s.out_pdf
            &&& !(done is Finish) ==> t.finished == s.finished
            &&& !(done is Finish || done is Scan) ==> t.busy == s.busy && t.busy_since
                == s.busy_since && t.scan_page == s.scan_page
            &&& done is Finish ==> t.pages == s.pages && t.jobs == s.jobs
        }),
{
}

/// Work is timed from when it begins, and a page on which nothing is done has
/// no time.
pub proof fn law_work_is_timed(
    s: SessionModel,
    id: u32,
    dpi: u16,
    mode: Seq<char>,
    cw: bool,
    now: u64,
)
    ensures
        model::refusal(s, CmdModel::ScanNext { dpi, mode }) is None ==> {
            let t = model::command(s, CmdModel::ScanNext { dpi, mode }, now).0;
            &&& t.busy_since == Some(now)
            &&& t.pages.last().stage_started == Some(now) && t.pages.last().stage == Some(
                Stage::Scan,
            )
        },
        model::refusal(s, CmdModel::Rescan { id, dpi, mode }) is None ==> {
            let t = model::command(s, CmdModel::Rescan { id, dpi, mode }, now).0;
            let p = t.pages[model::find(s.pages, id)->0];
            &&& t.busy_since == Some(now)
            &&& p.stage_started == Some(now) && p.stage == Some(Stage::Scan) && p.error is None
        },
        model::refusal(s, CmdModel::Rotate(id, cw)) is None && (model::find(s.pages, id) matches
            Some(i) && s.pages[i].image is Some) ==> {
            let p = model::command(s, CmdModel::Rotate(id, cw), now).0.pages[model::find(
                s.pages,
                id,
            )->0];
            p.stage_started == Some(now) && p.stage == Some(Stage::Clean)
        },
        model::refusal(s, CmdModel::Finish) is None ==> model::command(
            s,
            CmdModel::Finish,
            now,
        ).0.busy_since == Some(now),
{
    laws::lemma_find(s.pages, id);
}

/// A page that is done with has neither a stage nor a time, whatever the
/// outcome; nothing that was done to an image takes its text away, and a
/// failure leaves it turned or not as it was.
pub proof fn law_done_pages_rest(s: SessionModel, id: u32, e: Seq<char>, now: u64)
    requires
        model::find(s.pages, id) matches Some(i) && s.pages[i].status == PageStatus::Processing,
    ensures
        ({
            let i = model::find(s.pages, id)->0;
            let p = s.pages[i];
            let a = model::job_done(s, JobDoneModel::Rotate { id, result: Ok(None) }, now).0.pages[i];
            let b = model::job_done(
                s,
                JobDoneModel::Crop { id, result: Err(JobErrorModel::Failed(e)) },
                now,
            ).0.pages[i];
            let c = model::job_done(
                s,
                JobDoneModel::Ocr { id, result: Err(JobErrorModel::Cancelled) },
                now,
            ).0.pages[i];
            &&& a.stage is None && a.stage_started is None && a.text == p.text
            &&& b.stage is None && b.stage_started is None && b.text == p.text && b.rotated
                == p.rotated
            &&& c.stage is None && c.stage_started is None && c.rotated == p.rotated
        }),
{
    laws::lemma_find(s.pages, id);
}

/// A capture that is taken over leaves what it is not about: whether the page
/// was turned, which text could not be made, and whether text is being made.
pub proof fn law_new_image_leaves_rest(
    s: SessionModel,
    id: u32,
    is_rescan: bool,
    dpi: u16,
    mode: Seq<char>,
    image: Seq<u8>,
    deskewed: bool,
    fallback: bool,
    now: u64,
)
    requires
        model::find(s.pages, id) matches Some(i) && s.pages[i].status != PageStatus::DeletePending,
    ensures
        ({
            let i = model::find(s.pages, id)->0;
            let p = model::job_done(
                s,
                JobDoneModel::Clean {
                    id,
                    is_rescan,
                    dpi,
                    mode,
                    image,
                    unpaper_deskewed: deskewed,
                    used_fallback: fallback,
                },
                now,
            ).0.pages[i];
            &&& p.rotated == s.pages[i].rotated
            &&& p.ocr_failed_gen == s.pages[i].ocr_failed_gen
            &&& p.text_pending == s.pages[i].text_pending
            &&& p.error == s.pages[i].error
        }),
{
    laws::lemma_find(s.pages, id);
}

/// A page whose first capture never succeeded is a failed one again when
/// capturing it anew is called off.
pub proof fn law_called_off_without_image(
    s: SessionModel,
    id: u32,
    dpi: u16,
    mode: Seq<char>,
    file: Seq<u8>,
    now: u64,
)
    requires
        model::find(s.pages, id) matches Some(i) && s.pages[i].status != PageStatus::DeletePending
            && s.pages[i].image is None,
    ensures
        model::job_done(
            s,
            JobDoneModel::Scan {
                id,
                is_rescan: true,
                dpi,
                mode,
                path: file,
                result: Err(JobErrorModel::Cancelled),
            },
            now,
        ).0.pages[model::find(s.pages, id)->0].status == PageStatus::Failed,
{
    laws::lemma_find(s.pages, id);
}

// ------------------------------------------------------------------- clean up

proof fn lemma_all_files(pages: Seq<PageModel>, i: int, f: Seq<u8>)
    requires
        0 <= i < pages.len(),
        pages[i].image == Some(f),
    ensures
        model::all_files(pages).contains(f),
        model::all_files(pages).contains(path::clean_variant_of(f)),
    decreases pages.len(),
{
    let init = pages.drop_last();
    let rest = model::all_files(init);
    let last = model::image_files(pages.last().image);
    let all = rest + last;
    if i < pages.len() - 1 {
        assert(init[i] == pages[i]);
        lemma_all_files(init, i, f);
        let a = choose|a: int| 0 <= a < rest.len() && rest[a] == f;
        let b = choose|b: int| 0 <= b < rest.len() && rest[b] == path::clean_variant_of(f);
        assert(all[a] == f && all[b] == path::clean_variant_of(f));
    } else {
        let n = rest.len() as int;
        assert(last[0] == f && last[1] == path::clean_variant_of(f));
        assert(all[n] == f && all[n + 1] == path::clean_variant_of(f));
    }
}

/// A new session takes away the files of every page of the old one: the image
/// and its cleaned version.
pub proof fn law_new_session_cleans_up(s: SessionModel, i: int, f: Seq<u8>, now: u64)
    requires
        model::refusal(s, CmdModel::NewSession) is None,
        0 <= i < s.pages.len(),
        s.pages[i].image == Some(f),
    ensures
        model::command(s, CmdModel::NewSession, now).1.contains(EffectModel::RemoveFile(f)),
        model::command(s, CmdModel::NewSession, now).1.contains(
            EffectModel::RemoveFile(path::clean_variant_of(f)),
        ),
{
    lemma_all_files(s.pages, i, f);
    let files = model::all_files(s.pages);
    let fx = model::command(s, CmdModel::NewSession, now).1;
    let a = choose|a: int| 0 <= a < files.len() && files[a] == f;
    let b = choose|b: int| 0 <= b < files.len() && files[b] == path::clean_variant_of(f);
    assert(fx[a] == EffectModel::RemoveFile(f));
    assert(fx[b] == EffectModel::RemoveFile(path::clean_variant_of(f)));
}

/// A page whose deletion waited for its work takes its files with it.
pub proof fn law_late_deletion_cleans_up(s: SessionModel, id: u32, f: Seq<u8>, now: u64)
    requires
        model::find(s.pages, id) matches Some(i) && s.pages[i].status == PageStatus::DeletePending
            && s.pages[i].image == Some(f),
    ensures
        ({
            let fx = model::job_done(
                s,
                JobDoneModel::Ocr { id, result: Err(JobErrorModel::Cancelled) },
                now,
            ).1;
            &&& fx.contains(EffectModel::RemoveFile(f))
            &&& fx.contains(EffectModel::RemoveFile(path::clean_variant_of(f)))
            &&& says(fx, "page deleted"@)
        }),
{
    laws::lemma_find(s.pages, id);
    let fx = model::job_done(
        s,
        JobDoneModel::Ocr { id, result: Err(JobErrorModel::Cancelled) },
        now,
    ).1;
    assert(fx[0] == EffectModel::RemoveFile(f));
    assert(fx[1] == EffectModel::RemoveFile(path::clean_variant_of(f)));
    assert(fx[2] == EffectModel::Status("page deleted"@));
}

/// When a page is captured again, the cleaned version of its old image goes
/// too, unless the new image is in that very file; the file of the new image
/// never goes.
pub proof fn law_old_version_goes(
    s: SessionModel,
    id: u32,
    dpi: u16,
    mode: Seq<char>,
    image: Seq<u8>,
    old: Seq<u8>,
    now: u64,
)
    requires
        model::find(s.pages, id) matches Some(i) && s.pages[i].status != PageStatus::DeletePending
            && s.pages[i].image == Some(old),
        old != image,
    ensures
        ({
            let fx = model::clean_done(s, id, true, dpi, mode, image, false, false, now).1;
            let version = path::clean_variant_of(old);
            &&& version != image ==> fx.contains(EffectModel::RemoveFile(version))
            &&& !fx.contains(EffectModel::RemoveFile(image))
        }),
{
    laws::lemma_find(s.pages, id);
    let p = s.pages[model::find(s.pages, id)->0];
    let files = model::image_files(p.image);
    let version = path::clean_variant_of(old);
    assert(files =~= seq![old, version]);
    assert(files.drop_last() =~= seq![old]);
    assert(files.drop_last().drop_last() =~= Seq::empty());
    assert(model::sparing(Seq::empty(), image) =~= Seq::<Seq<u8>>::empty());
    assert(model::sparing(files.drop_last(), image) =~= seq![old]);
    let kept = model::sparing(files, image);
    let gone = model::removals(kept);
    let fx = model::clean_done(s, id, true, dpi, mode, image, false, false, now).1;
    if version != image {
        assert(kept =~= seq![old, version]);
        assert(gone[1] == EffectModel::RemoveFile(version));
        assert(fx[1] == EffectModel::RemoveFile(version));
    } else {
        assert(kept =~= seq![old]);
    }
    assert forall|k: int| 0 <= k < fx.len() implies fx[k] != EffectModel::RemoveFile(image) by {
        if k < gone.len() {
            assert(fx[k] == gone[k]);
            assert(gone[k] == EffectModel::RemoveFile(kept[k]));
            assert(kept[k] != image);
        }
    }
}

// ---------------------------------------------------------------------- facts

/// What is told of a session is what it is.
pub proof fn law_session_is_shown_as_it_is(s: SessionModel)
    ensures
        ({
            let m = model::meta_of(s);
            &&& m.busy == s.busy && m.busy_since == s.busy_since
            &&& m.jobs_running == s.jobs.len()
            &&& m.output_path == s.out_pdf
            &&& m.finished == s.finished
            &&& m.dirty == model::is_dirty(s)
        }),
{
}

/// The files of a page are named by its number, which has three digits at
/// least.
pub proof fn law_page_files_are_named(dir: Seq<u8>, id: u32)
    ensures
        ({
            let n = (if id < 10 {
                "00"@
            } else if id < 100 {
                "0"@
            } else {
                ""@
            }) + text::dec(id as nat);
            &&& model::page_path(dir, id) == path::join_path(
                dir,
                encode_utf8("page_"@ + n + ".png"@),
            )
            &&& model::rescan_path(dir, id) == path::join_path(
                dir,
                encode_utf8("page_"@ + n + ".rescan.png"@),
            )
        }),
{
    reveal_strlit("00");
    reveal_strlit("0");
    reveal_strlit("");
    let d = text::dec(id as nat);
    text::law_decimal(id as nat);
    text::law_decimal((id / 10) as nat);
    text::law_decimal((id / 100) as nat);
    if id < 10 {
        assert(model::page_number(id) =~= "00"@ + d);
    } else if id < 100 {
        assert(model::page_number(id) =~= "0"@ + d);
    } else {
        assert(model::page_number(id) =~= ""@ + d);
    }
}

/// A session keeps its files in a directory of its own, named by the time of
/// its beginning; a job that says just that it was cancelled was called off,
/// and any other one that says something has failed with that.
pub proof fn law_where_sessions_are(state: Seq<u8>, stamp: Seq<char>, msg: Seq<char>)
    ensures
        jobs::dir_of(state, stamp) == path::join_path(
            path::join_path(state, encode_utf8("sessions"@)),
            encode_utf8(stamp),
        ),
        jobs::error_of("cancelled"@) == JobErrorModel::Cancelled,
        msg != "cancelled"@ ==> jobs::error_of(msg) == JobErrorModel::Failed(msg),
        Edit::Rotate.name() == "rotate"@,
        Edit::Crop.name() == "crop"@,
{
}

/// What a job reports of text: the text where it was made, that it was called
/// off where it was, and else why it failed; where the text was to be made
/// again, that is said too.
pub proof fn law_text_reports(
    made: String,
    said: String,
    a: Result<String, JobError>,
    b: Result<Option<String>, JobError>,
    c: Result<String, JobError>,
    d: Result<Option<String>, JobError>,
)
    requires
        call_ensures(jobs::text_report, (Ok(made),), a),
        call_ensures(jobs::edit_report, (Ok(made),), b),
        call_ensures(jobs::text_report, (Err(said),), c),
        call_ensures(jobs::edit_report, (Err(said),), d),
    ensures
        a matches Ok(t) && t@ == made@,
        b matches Ok(Some(t)) && t@ == made@,
        said@ == "cancelled"@ ==> (c matches Err(JobError::Cancelled)) && (d matches Err(
            JobError::Cancelled,
        )),
        said@ != "cancelled"@ ==> (c matches Err(JobError::Failed(m)) && m@ == said@) && (
        d matches Err(JobError::Failed(m)) && m@ == "re-OCR failed: "@ + said@),
{
}

} // verus!
