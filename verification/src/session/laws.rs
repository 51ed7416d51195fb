//! What holds of every session, whatever is asked of it and however its jobs
//! end.

use vstd::prelude::*;

use crate::session::model;
use crate::session::model::{
    CmdModel, EffectModel, JobDoneModel, JobErrorModel, JobModel, PageModel, SessionModel,
};
use crate::session::{Busy, PageStatus, Stage};

verus! {

// ---------------------------------------------------------------- invariant

/// No two pages have the same number.
pub open spec fn ids_unique(pages: Seq<PageModel>) -> bool {
    forall|i: int, j: int|
        0 <= i < j < pages.len() ==> (#[trigger] pages[i]).id != (#[trigger] pages[j]).id
}

/// What holds of a page in a session: its number has been handed out,
/// whatever it waits for is really going on, and it has an image where it is
/// ready or only waits for its text.
pub open spec fn page_ok(s: SessionModel, p: PageModel) -> bool {
    &&& p.id < s.next_id
    &&& p.status == PageStatus::Scanning ==> s.scan_page == Some(p.id)
    &&& p.status == PageStatus::Processing ==> s.jobs.contains(p.id)
    &&& p.status == PageStatus::DeletePending ==> s.jobs.contains(p.id) || s.scan_page == Some(p.id)
    &&& s.scan_page == Some(p.id) ==> p.status == PageStatus::Scanning || p.status
        == PageStatus::DeletePending
    &&& p.text_pending ==> p.status == PageStatus::Ready && s.jobs.contains(p.id)
    &&& s.jobs.contains(p.id) ==> p.status == PageStatus::Processing || p.status
        == PageStatus::DeletePending || p.text_pending
    &&& p.status == PageStatus::Ready ==> p.image is Some
    &&& p.status == PageStatus::Processing && p.stage == Some(Stage::Ocr) ==> p.image is Some
}

/// The invariant of a session: page numbers are unique, at most one page is
/// at the scanner, every page that is being worked on or waits for its
/// deletion has work going on that will end, and a finished session is idle.
pub open spec fn session_ok(s: SessionModel) -> bool {
    &&& ids_unique(s.pages)
    &&& forall|i: int| 0 <= i < s.pages.len() ==> page_ok(s, #[trigger] s.pages[i])
    &&& forall|id: u32| #[trigger] s.jobs.contains(id) ==> id < s.next_id
    &&& s.jobs.finite()
    &&& s.busy == Busy::Scanning <==> s.scan_page is Some
    &&& s.busy_since is Some <==> s.busy != Busy::Idle
    &&& s.scan_page matches Some(id) ==> !s.jobs.contains(id) && id < s.next_id
    &&& s.finished ==> s.busy == Busy::Idle
}

/// A report that fits the work that is going on.
pub open spec fn expected(s: SessionModel, done: JobDoneModel) -> bool {
    match done {
        JobDoneModel::Scan { id, .. } => s.scan_page == Some(id),
        JobDoneModel::Clean { id, .. } => image_job(s, id),
        JobDoneModel::Ocr { id, .. } => text_job(s, id),
        JobDoneModel::Rotate { id, .. } => image_job(s, id) && has_image(s, id),
        JobDoneModel::Crop { id, .. } => image_job(s, id) && has_image(s, id),
        JobDoneModel::Finish { .. } => s.busy == Busy::Finishing,
    }
}

/// A job works on the image of a page, if the page still exists.
pub open spec fn image_job(s: SessionModel, id: u32) -> bool {
    s.jobs.contains(id) && match model::find(s.pages, id) {
        Some(i) => s.pages[i].status == PageStatus::Processing || s.pages[i].status
            == PageStatus::DeletePending,
        None => true,
    }
}

/// A job makes the text of a page, if the page still exists.
pub open spec fn text_job(s: SessionModel, id: u32) -> bool {
    s.jobs.contains(id) && match model::find(s.pages, id) {
        Some(i) => s.pages[i].status == PageStatus::Processing ==> s.pages[i].stage == Some(
            Stage::Ocr,
        ),
        None => true,
    }
}

/// There is an image to change in place, if the page still exists: such a job
/// is started only then (see [`law_edits_need_an_image`]), and no page loses
/// its image (see [`law_images_are_kept`]).
pub open spec fn has_image(s: SessionModel, id: u32) -> bool {
    match model::find(s.pages, id) {
        Some(i) => s.pages[i].image is Some,
        None => true,
    }
}

pub proof fn lemma_find(pages: Seq<PageModel>, id: u32)
    ensures
        match model::find(pages, id) {
            Some(i) => 0 <= i < pages.len() && pages[i].id == id,
            None => forall|j: int| 0 <= j < pages.len() ==> (#[trigger] pages[j]).id != id,
        },
    decreases pages.len(),
{
    if pages.len() > 0 {
        let init = pages.drop_last();
        lemma_find(init, id);
        assert forall|j: int| 0 <= j < pages.len() - 1 implies pages[j] == init[j] by {}
    }
}

/// A session without pages satisfies the invariant.
pub proof fn law_new_session_ok(s: SessionModel)
    requires
        s.pages.len() == 0,
        s.jobs == Set::<u32>::empty(),
        s.busy == Busy::Idle,
        s.busy_since is None,
        s.scan_page is None,
        !s.finished,
    ensures
        session_ok(s),
{
}

/// Every command keeps the invariant, as long as page numbers last.
pub proof fn law_command_keeps_invariant(s: SessionModel, cmd: CmdModel, now: u64)
    requires
        session_ok(s),
        cmd is ScanNext ==> s.next_id < u32::MAX,
    ensures
        session_ok(model::command(s, cmd, now).0),
{
    let t = model::command(s, cmd, now).0;
    if model::refusal(s, cmd) is None {
        match cmd {
            CmdModel::ScanNext { dpi, mode } => {},
            CmdModel::CancelScan => {},
            CmdModel::Rescan { id, dpi, mode } => {
                lemma_find(s.pages, id);
            },
            CmdModel::Rotate(id, cw) => {
                lemma_find(s.pages, id);
            },
            CmdModel::Crop { id, x, y, w, h } => {
                lemma_find(s.pages, id);
            },
            CmdModel::Delete(id) => {
                lemma_find(s.pages, id);
                let i = model::find(s.pages, id);
                if i is Some {
                    lemma_removed(s, i->0);
                }
            },
            CmdModel::Move { from, to } => {
                if 0 <= from < s.pages.len() && 0 <= to < s.pages.len() && from != to {
                    lemma_moved(s.pages, from, to);
                    assert forall|i: int| 0 <= i < t.pages.len() implies page_ok(
                        t,
                        #[trigger] t.pages[i],
                    ) by {
                        let k = moved_from(from, to, i);
                        assert(t.pages[i] == s.pages[k]);
                    }
                }
            },
            CmdModel::Finish => {},
            CmdModel::FinishTo { .. } => {},
            CmdModel::NewSession => {},
            CmdModel::ListLangs => {},
            CmdModel::SetDevice(_) => {},
            CmdModel::SetLangs(_) => {},
            CmdModel::RequestText(id) => {
                lemma_find(s.pages, id);
            },
        }
    }
}

proof fn lemma_removed(s: SessionModel, i: int)
    requires
        ids_unique(s.pages),
        0 <= i < s.pages.len(),
    ensures
        ids_unique(s.pages.remove(i)),
        forall|j: int|
            0 <= j < s.pages.len() - 1 ==> #[trigger] s.pages.remove(i)[j] == s.pages[if j < i {
                j
            } else {
                j + 1
            }] && s.pages.remove(i)[j].id != s.pages[i].id,
{
    let t = s.pages.remove(i);
    assert forall|a: int, b: int| 0 <= a < b < t.len() implies (#[trigger] t[a]).id != (
    #[trigger] t[b]).id by {
        let a2 = if a < i {
            a
        } else {
            a + 1
        };
        let b2 = if b < i {
            b
        } else {
            b + 1
        };
        assert(t[a] == s.pages[a2] && t[b] == s.pages[b2]);
    }
    assert forall|j: int| 0 <= j < s.pages.len() - 1 implies #[trigger] t[j] == s.pages[if j < i {
        j
    } else {
        j + 1
    }] && t[j].id != s.pages[i].id by {
        let k = if j < i {
            j
        } else {
            j + 1
        };
        assert(t[j] == s.pages[k]);
        if k < i {
            assert(s.pages[k].id != s.pages[i].id);
        } else {
            assert(s.pages[i].id != s.pages[k].id);
        }
    }
}

/// Where the page at place `i` stood before a page was moved.
pub open spec fn moved_from(from: int, to: int, i: int) -> int {
    if i == to {
        from
    } else {
        let j = if i < to {
            i
        } else {
            i - 1
        };
        if j < from {
            j
        } else {
            j + 1
        }
    }
}

proof fn lemma_moved(pages: Seq<PageModel>, from: int, to: int)
    requires
        0 <= from < pages.len(),
        0 <= to < pages.len(),
    ensures
        ({
            let t = pages.remove(from).insert(to, pages[from]);
            &&& t.len() == pages.len()
            &&& forall|i: int|
                0 <= i < t.len() ==> #[trigger] t[i] == pages[moved_from(from, to, i)] && 0
                    <= moved_from(from, to, i) < pages.len()
            &&& ids_unique(pages) ==> ids_unique(t)
        }),
{
    let t = pages.remove(from).insert(to, pages[from]);
    assert forall|i: int| 0 <= i < t.len() implies #[trigger] t[i] == pages[moved_from(
        from,
        to,
        i,
    )] && 0 <= moved_from(from, to, i) < pages.len() by {}
    if ids_unique(pages) {
        assert forall|a: int, b: int| 0 <= a < b < t.len() implies (#[trigger] t[a]).id != (
        #[trigger] t[b]).id by {
            let a2 = moved_from(from, to, a);
            let b2 = moved_from(from, to, b);
            assert(t[a] == pages[a2] && t[b] == pages[b2]);
            assert(a2 != b2);
            if a2 < b2 {
                assert(pages[a2].id != pages[b2].id);
            } else {
                assert(pages[b2].id != pages[a2].id);
            }
        }
    }
}

/// Whatever job ends, and however it ends, the invariant is kept.
pub proof fn law_job_done_keeps_invariant(s: SessionModel, done: JobDoneModel, now: u64)
    requires
        session_ok(s),
        expected(s, done),
    ensures
        session_ok(model::job_done(s, done, now).0),
{
    let id = match done {
        JobDoneModel::Scan { id, .. } => id,
        JobDoneModel::Clean { id, .. } => id,
        JobDoneModel::Ocr { id, .. } => id,
        JobDoneModel::Rotate { id, .. } => id,
        JobDoneModel::Crop { id, .. } => id,
        JobDoneModel::Finish { .. } => 0,
    };
    lemma_find(s.pages, id);
    let i = model::find(s.pages, id);
    if i is Some {
        lemma_removed(s, i->0);
    }
}

/// The answer to a claimed place, and the answer to a new directory, keep the
/// invariant.
pub proof fn law_answers_keep_invariant(
    s: SessionModel,
    target: Result<Seq<u8>, Seq<char>>,
    dir: Seq<u8>,
    out: Seq<u8>,
    now: u64,
)
    requires
        session_ok(s),
    ensures
        model::finish_refusal(s) is None ==> session_ok(model::target_reserved(s, target, now).0),
        session_ok(model::reopened(s, dir, out).0),
{
}

// ------------------------------------------------------------------ refusal

/// A refused command changes nothing, and all that happens is that the user
/// is told why.
pub proof fn law_refused_changes_nothing(s: SessionModel, cmd: CmdModel, now: u64)
    requires
        model::refusal(s, cmd) is Some,
    ensures
        model::command(s, cmd, now).0 == s,
        model::command(s, cmd, now).1 == seq![
            EffectModel::Status("blocked: "@ + model::refusal(s, cmd)->0),
        ],
{
}

/// Once the document has been built, nothing that needs the images is done
/// any more until a new session is started.
pub proof fn law_finished_refuses(s: SessionModel, cmd: CmdModel)
    requires
        s.finished,
        cmd is ScanNext || cmd is Rescan || cmd is Rotate || cmd is Crop || cmd is Finish
            || cmd is FinishTo,
    ensures
        model::refusal(s, cmd) is Some,
{
}

/// While the document is being built, no page changes: every command that
/// would touch one is refused.
pub proof fn law_building_refuses(s: SessionModel, cmd: CmdModel)
    requires
        s.busy == Busy::Finishing,
        cmd is ScanNext || cmd is Rescan || cmd is Rotate || cmd is Crop || cmd is Delete
            || cmd is Move || cmd is Finish || cmd is FinishTo || cmd is NewSession,
    ensures
        model::refusal(s, cmd) is Some,
{
}

/// A session is finished only by a build that succeeded, and stays so until a
/// new session is started.
pub proof fn law_finished_by_build(
    s: SessionModel,
    cmd: CmdModel,
    done: JobDoneModel,
    now: u64,
)
    ensures
        model::command(s, cmd, now).0.finished == (s.finished && !(cmd is NewSession
            && model::refusal(s, cmd) is None)),
        model::job_done(s, done, now).0.finished == (s.finished || done matches JobDoneModel::Finish {
            result: Ok(_),
        }),
{
}

/// After the document has been built nothing is unsaved.
pub proof fn law_built_is_saved(
    s: SessionModel,
    built: (crate::backend::pdf::BuildOutcome, u64),
    now: u64,
)
    ensures
        !model::is_dirty(model::job_done(s, JobDoneModel::Finish { result: Ok(built) }, now).0),
{
}

// -------------------------------------------------------------------- pages

/// Page numbers are never reused: a page in the list was there before, or has
/// a number that had not been handed out yet.
pub proof fn law_numbers_never_reused(s: SessionModel, cmd: CmdModel, now: u64, j: int)
    requires
        session_ok(s),
        cmd is ScanNext ==> s.next_id < u32::MAX,
        0 <= j < model::command(s, cmd, now).0.pages.len(),
    ensures
        model::command(s, cmd, now).0.next_id >= s.next_id,
        ({
            let p = model::command(s, cmd, now).0.pages[j];
            (exists|i: int| 0 <= i < s.pages.len() && (#[trigger] s.pages[i]).id == p.id) || p.id
                == s.next_id
        }),
{
    let t = model::command(s, cmd, now).0;
    match cmd {
        CmdModel::Move { from, to } => {
            if model::refusal(s, cmd) is None && 0 <= from < s.pages.len() && 0 <= to
                < s.pages.len() && from != to {
                lemma_moved(s.pages, from, to);
                assert(t.pages[j] == s.pages[moved_from(from, to, j)]);
            } else {
                assert(t.pages[j] == s.pages[j]);
            }
        },
        CmdModel::Delete(id) => {
            lemma_find(s.pages, id);
            let i = model::find(s.pages, id);
            if model::refusal(s, cmd) is None && i is Some {
                lemma_removed(s, i->0);
                if t.pages.len() < s.pages.len() {
                    assert(t.pages[j] == s.pages[if j < i->0 {
                        j
                    } else {
                        j + 1
                    }]);
                } else {
                    assert(s.pages[j].id == t.pages[j].id);
                }
            } else {
                assert(t.pages[j] == s.pages[j]);
            }
        },
        CmdModel::ScanNext { dpi, mode } => {
            if j < s.pages.len() {
                assert(t.pages[j] == s.pages[j]);
            }
        },
        CmdModel::Rescan { id, dpi, mode } => {
            lemma_find(s.pages, id);
            assert(s.pages[j].id == t.pages[j].id);
        },
        CmdModel::Rotate(id, _) => {
            lemma_find(s.pages, id);
            assert(s.pages[j].id == t.pages[j].id);
        },
        CmdModel::Crop { id, .. } => {
            lemma_find(s.pages, id);
            assert(s.pages[j].id == t.pages[j].id);
        },
        CmdModel::RequestText(id) => {
            lemma_find(s.pages, id);
            assert(s.pages[j].id == t.pages[j].id);
        },
        _ => {
            assert(model::refusal(s, cmd) is None && cmd is NewSession || t.pages == s.pages);
            assert(t.pages[j] == s.pages[j]);
        },
    }
}

/// Moving a page changes only the order: the same pages are there, each as
/// often as before.
pub proof fn law_move_permutes(s: SessionModel, from: int, to: int)
    ensures
        model::move_page(s, from, to).0.pages.to_multiset() == s.pages.to_multiset(),
        model::move_page(s, from, to).0 == (SessionModel {
            pages: model::move_page(s, from, to).0.pages,
            ..s
        }),
{
    broadcast use vstd::seq_lib::group_to_multiset_ensures;

    if 0 <= from < s.pages.len() && 0 <= to < s.pages.len() && from != to {
        let p = s.pages[from];
        let rest = s.pages.remove(from);
        vstd::seq_lib::to_multiset_insert(rest, to, p);
        vstd::seq_lib::to_multiset_insert(rest, from, p);
        assert(rest.insert(from, p) =~= s.pages);
    }
}

/// Moving a page and moving it back changes nothing.
pub proof fn law_move_back(s: SessionModel, from: int, to: int)
    requires
        0 <= from < s.pages.len(),
        0 <= to < s.pages.len(),
    ensures
        model::move_page(model::move_page(s, from, to).0, to, from).0 == s,
{
    if from != to {
        let t = model::move_page(s, from, to).0;
        let rest = s.pages.remove(from);
        assert(t.pages.remove(to) =~= rest);
        assert(t.pages[to] == s.pages[from]);
        assert(rest.insert(from, s.pages[from]) =~= s.pages);
    }
}

// ------------------------------------------------------------------ capture

/// The scanner is free as soon as a capture ends, however it ends: cleaning
/// and text extraction go on beside the next capture.
pub proof fn law_scanner_free_after_capture(
    s: SessionModel,
    done: JobDoneModel,
    now: u64,
    dpi: u16,
    mode: Seq<char>,
)
    requires
        done is Scan,
    ensures
        model::job_done(s, done, now).0.busy == Busy::Idle,
        model::job_done(s, done, now).0.scan_page is None,
        session_ok(s) && expected(s, done) && !s.finished && (forall|i: int|
            0 <= i < s.pages.len() && model::delete_pending(#[trigger] s.pages[i])
                ==> s.scan_page == Some(s.pages[i].id)) ==> model::refusal(
            model::job_done(s, done, now).0,
            CmdModel::ScanNext { dpi, mode },
        ) is None,
{
    let t = model::job_done(s, done, now).0;
    if session_ok(s) && expected(s, done) && !s.finished && (forall|i: int|
        0 <= i < s.pages.len() && model::delete_pending(#[trigger] s.pages[i]) ==> s.scan_page
            == Some(s.pages[i].id)) {
        let id = s.scan_page->0;
        lemma_find(s.pages, id);
        let k = model::find(s.pages, id);
        if k is Some {
            lemma_removed(s, k->0);
        }
        assert forall|j: int| 0 <= j < t.pages.len() implies !model::delete_pending(
            #[trigger] t.pages[j],
        ) by {
            if k is Some && t.pages.len() < s.pages.len() {
                let m = if j < k->0 {
                    j
                } else {
                    j + 1
                };
                assert(t.pages[j] == s.pages[m]);
            } else if k is Some && j == k->0 {
                assert(model::pending_at(model::scanner_free(s), id) is None);
            } else {
                assert(t.pages[j] == s.pages[j]);
                if k is Some {
                    if j < k->0 {
                        assert(s.pages[j].id != s.pages[k->0].id);
                    } else {
                        assert(s.pages[k->0].id != s.pages[j].id);
                    }
                }
            }
        }
    }
}

/// Capturing a page again keeps its image, its resolution and its mode until
/// the capture has succeeded and was cleaned: neither starting, nor
/// cancelling, nor a failure changes them or removes a file.
pub proof fn law_rescan_keeps_old(
    s: SessionModel,
    id: u32,
    dpi: u16,
    mode: Seq<char>,
    path: Seq<u8>,
    e: JobErrorModel,
    now: u64,
)
    requires
        session_ok(s),
        model::refusal(s, CmdModel::Rescan { id, dpi, mode }) is None,
    ensures
        ({
            let i = model::find(s.pages, id)->0;
            let started = model::command(s, CmdModel::Rescan { id, dpi, mode }, now);
            let ended = model::job_done(
                started.0,
                JobDoneModel::Scan { id, is_rescan: true, dpi, mode, path, result: Err(e) },
                now,
            );
            &&& 0 <= i < s.pages.len()
            &&& ended.0.pages.len() == s.pages.len()
            &&& ended.0.pages[i].image == s.pages[i].image
            &&& ended.0.pages[i].dpi == s.pages[i].dpi
            &&& ended.0.pages[i].mode == s.pages[i].mode
            &&& ended.0.pages[i].text == s.pages[i].text
            &&& forall|k: int|
                0 <= k < started.1.len() ==> !((#[trigger] started.1[k]) is RemoveFile)
            &&& forall|k: int| 0 <= k < ended.1.len() ==> !((#[trigger] ended.1[k]) is RemoveFile)
        }),
{
    lemma_find(s.pages, id);
    let i = model::find(s.pages, id)->0;
    let t = model::command(s, CmdModel::Rescan { id, dpi, mode }, now).0;
    lemma_find(t.pages, id);
    let k = model::find(t.pages, id)->0;
    assert(t.pages[i].id == id);
    if k < i {
        assert(s.pages[k].id != s.pages[i].id);
        assert(t.pages[k] == s.pages[k]);
    } else if i < k {
        assert(s.pages[i].id != s.pages[k].id);
        assert(t.pages[k] == s.pages[k]);
    }
}

proof fn lemma_sparing(files: Seq<Seq<u8>>, keep: Seq<u8>)
    ensures
        forall|k: int|
            0 <= k < model::sparing(files, keep).len() ==> #[trigger] model::sparing(
                files,
                keep,
            )[k] != keep,
    decreases files.len(),
{
    if files.len() > 0 {
        lemma_sparing(files.drop_last(), keep);
        let init = model::sparing(files.drop_last(), keep);
        let all = model::sparing(files, keep);
        assert forall|k: int| 0 <= k < all.len() implies #[trigger] all[k] != keep by {
            if k < init.len() {
                assert(all[k] == init[k]);
            }
        }
    }
}

/// When a page takes over its new image, that image's file is not among the
/// files that are removed, even where it has the name of the old one.
pub proof fn law_new_image_survives(
    s: SessionModel,
    id: u32,
    is_rescan: bool,
    dpi: u16,
    mode: Seq<char>,
    image: Seq<u8>,
    deskewed: bool,
    fallback: bool,
    now: u64,
    k: int,
)
    requires
        model::pending_at(s, id) is None,
        0 <= k < model::clean_done(
            s,
            id,
            is_rescan,
            dpi,
            mode,
            image,
            deskewed,
            fallback,
            now,
        ).1.len(),
    ensures
        model::clean_done(s, id, is_rescan, dpi, mode, image, deskewed, fallback, now).1[k]
            != EffectModel::RemoveFile(image),
{
    lemma_find(s.pages, id);
    if model::find(s.pages, id) is Some {
        let p = s.pages[model::find(s.pages, id)->0];
        lemma_sparing(model::image_files(p.image), image);
        let gone = model::removals(model::replaced_files(p, is_rescan, image));
        let fx = model::clean_done(
            s,
            id,
            is_rescan,
            dpi,
            mode,
            image,
            deskewed,
            fallback,
            now,
        ).1;
        if k < gone.len() {
            assert(fx[k] == gone[k]);
        }
    }
}

/// A page takes over the settings that it was captured with only together
/// with the image: the page then has the image, the resolution and the mode
/// of its last successful capture.
pub proof fn law_settings_follow_image(
    s: SessionModel,
    id: u32,
    is_rescan: bool,
    dpi: u16,
    mode: Seq<char>,
    image: Seq<u8>,
    deskewed: bool,
    fallback: bool,
    now: u64,
)
    requires
        model::pending_at(s, id) is None,
        model::find(s.pages, id) is Some,
    ensures
        ({
            let i = model::find(s.pages, id)->0;
            let t = model::clean_done(
                s,
                id,
                is_rescan,
                dpi,
                mode,
                image,
                deskewed,
                fallback,
                now,
            ).0;
            &&& t.pages[i].image == Some(image)
            &&& t.pages[i].dpi == dpi
            &&& t.pages[i].mode == mode
            &&& t.pages[i].image_gen == model::next_gen(s.pages[i].image_gen)
        }),
{
    lemma_find(s.pages, id);
}

// ------------------------------------------------------------------ deleting

/// A page that waits for its deletion is gone when the work on it ends,
/// however that ends.
pub proof fn law_deferred_delete_happens(s: SessionModel, done: JobDoneModel, now: u64)
    requires
        session_ok(s),
        !(done is Finish),
        ({
            let id = done_page(done);
            model::pending_at(s, id) is Some
        }),
    ensures
        model::find(model::job_done(s, done, now).0.pages, done_page(done)) is None,
        model::job_done(s, done, now).0.pages.len() == s.pages.len() - 1,
{
    let id = done_page(done);
    lemma_find(s.pages, id);
    let i = model::find(s.pages, id)->0;
    lemma_removed(s, i);
    let t = model::job_done(s, done, now).0;
    assert(t.pages == s.pages.remove(i));
    lemma_find(t.pages, id);
}

/// The page that a job worked on.
pub open spec fn done_page(done: JobDoneModel) -> u32 {
    match done {
        JobDoneModel::Scan { id, .. } => id,
        JobDoneModel::Clean { id, .. } => id,
        JobDoneModel::Ocr { id, .. } => id,
        JobDoneModel::Rotate { id, .. } => id,
        JobDoneModel::Crop { id, .. } => id,
        JobDoneModel::Finish { .. } => 0,
    }
}

/// A page that nothing works on is gone as soon as its deletion is asked for.
pub proof fn law_idle_page_deleted_at_once(s: SessionModel, id: u32, now: u64)
    requires
        session_ok(s),
        s.busy != Busy::Finishing,
        model::find(s.pages, id) is Some,
        s.pages[model::find(s.pages, id)->0].status == PageStatus::Ready
            || s.pages[model::find(s.pages, id)->0].status == PageStatus::Failed,
    ensures
        model::find(model::command(s, CmdModel::Delete(id), now).0.pages, id) is None,
{
    lemma_find(s.pages, id);
    let i = model::find(s.pages, id)->0;
    lemma_removed(s, i);
    lemma_find(s.pages.remove(i), id);
}

// ---------------------------------------------------------------------- text

/// Asking for the text of a page twice starts one job.
pub proof fn law_text_requested_once(s: SessionModel, id: u32, now: u64)
    ensures
        ({
            let once = model::command(s, CmdModel::RequestText(id), now).0;
            &&& model::command(once, CmdModel::RequestText(id), now).0 == once
            &&& model::command(once, CmdModel::RequestText(id), now).1.len() == 0
        }),
{
    lemma_find(s.pages, id);
    let once = model::command(s, CmdModel::RequestText(id), now).0;
    lemma_find(once.pages, id);
    if model::find(s.pages, id) is Some {
        let i = model::find(s.pages, id)->0;
        if once != s {
            let k = model::find(once.pages, id);
            assert(once.pages[i].id == id);
            assert(k is Some);
            assert(once.jobs.contains(once.pages[k->0].id));
        }
    }
}

/// A page whose text could not be made is not tried again until its image
/// changes.
pub proof fn law_failed_text_not_retried(s: SessionModel, i: int)
    requires
        0 <= i < s.pages.len(),
        s.pages[i].ocr_failed_gen == Some(s.pages[i].image_gen),
    ensures
        model::request_text(s, i).1.len() == 0,
        model::request_text(s, i).0 == s,
{
}

/// Unless text is wanted at once, a captured page is ready without any text
/// being made; with text switched off none is made after an edit or on request
/// either.
pub proof fn law_text_only_as_configured(
    s: SessionModel,
    id: u32,
    is_rescan: bool,
    dpi: u16,
    mode: Seq<char>,
    image: Seq<u8>,
    deskewed: bool,
    fallback: bool,
    now: u64,
)
    requires
        s.cfg.preview_ocr != crate::config::PreviewOcr::Eager,
        model::pending_at(s, id) is None,
        model::find(s.pages, id) is Some,
    ensures
        model::clean_done(
            s,
            id,
            is_rescan,
            dpi,
            mode,
            image,
            deskewed,
            fallback,
            now,
        ).0.pages[model::find(s.pages, id)->0].status == PageStatus::Ready,
        forall|k: int|
            0 <= k < model::clean_done(
                s,
                id,
                is_rescan,
                dpi,
                mode,
                image,
                deskewed,
                fallback,
                now,
            ).1.len() ==> !(#[trigger] model::clean_done(
                s,
                id,
                is_rescan,
                dpi,
                mode,
                image,
                deskewed,
                fallback,
                now,
            ).1[k] is Spawn),
        s.cfg.preview_ocr == crate::config::PreviewOcr::Off ==> !model::reocr(s)
            && model::command(s, CmdModel::RequestText(id), now).1.len() == 0,
{
    lemma_find(s.pages, id);
}

/// Pages whose text is still being made do not keep the document from being
/// built: it can be built as soon as every page is ready or only waits for its
/// text.
pub proof fn law_text_never_gates_build(s: SessionModel)
    requires
        s.pages.len() > 0,
        s.busy == Busy::Idle,
        !s.finished,
        forall|i: int|
            0 <= i < s.pages.len() ==> (#[trigger] s.pages[i]).status == PageStatus::Ready || (
            s.pages[i].status == PageStatus::Processing && s.pages[i].stage == Some(Stage::Ocr)),
    ensures
        model::refusal(s, CmdModel::Finish) is None,
{
    super::lemma_none_where(s.pages, |p: PageModel| model::failed(p));
    super::lemma_none_where(s.pages, |p: PageModel| model::image_unsettled(p));
}

pub proof fn lemma_first_where(pages: Seq<PageModel>, f: spec_fn(PageModel) -> bool)
    ensures
        match model::first_where(pages, f) {
            Some(i) => 0 <= i < pages.len() && f(pages[i]),
            None => forall|j: int| 0 <= j < pages.len() ==> !f(#[trigger] pages[j]),
        },
    decreases pages.len(),
{
    if pages.len() > 0 {
        let init = pages.drop_last();
        lemma_first_where(init, f);
        assert forall|j: int| 0 <= j < pages.len() - 1 implies pages[j] == init[j] by {}
    }
}

proof fn lemma_plan_pages(pages: Seq<PageModel>)
    requires
        forall|i: int| 0 <= i < pages.len() ==> (#[trigger] pages[i]).image is Some,
    ensures
        model::plan_pages(pages) == pages.map_values(|p: PageModel| (p.image->0, p.dpi)),
    decreases pages.len(),
{
    let all = pages.map_values(|p: PageModel| (p.image->0, p.dpi));
    if pages.len() > 0 {
        let init = pages.drop_last();
        assert forall|i: int| 0 <= i < init.len() implies (#[trigger] init[i]).image is Some by {
            assert(init[i] == pages[i]);
        }
        lemma_plan_pages(init);
        assert(pages[pages.len() - 1].image is Some);
        assert(model::plan_pages(pages) =~= all);
    } else {
        assert(model::plan_pages(pages) =~= all);
    }
}

/// A document is built from every page, in the order of the list: where
/// building is not refused, each page has its image, and none is left out.
pub proof fn law_build_uses_every_page(s: SessionModel)
    requires
        session_ok(s),
        model::refusal(s, CmdModel::Finish) is None,
    ensures
        model::build_plan(s).pages.len() == s.pages.len(),
        forall|i: int|
            0 <= i < s.pages.len() ==> (#[trigger] s.pages[i]).image is Some
                && model::build_plan(s).pages[i] == (s.pages[i].image->0, s.pages[i].dpi),
{
    lemma_first_where(s.pages, |p: PageModel| model::failed(p));
    lemma_first_where(s.pages, |p: PageModel| model::image_unsettled(p));
    assert forall|i: int| 0 <= i < s.pages.len() implies (#[trigger] s.pages[i]).image is Some by {
        assert(page_ok(s, s.pages[i]));
        assert(!model::failed(s.pages[i]) && !model::image_unsettled(s.pages[i]));
        assert(!model::delete_pending(s.pages[i]));
    }
    lemma_plan_pages(s.pages);
}

// -------------------------------------------------------------------- images

/// No page loses its image: a page that has one has one after every command
/// and after the end of every job, as long as it is in the list.
pub proof fn law_images_are_kept(
    s: SessionModel,
    cmd: CmdModel,
    done: JobDoneModel,
    now: u64,
    id: u32,
)
    requires
        ids_unique(s.pages),
        cmd is ScanNext ==> id < s.next_id,
        model::find(s.pages, id) matches Some(i) && s.pages[i].image is Some,
    ensures
        has_image(model::command(s, cmd, now).0, id),
        has_image(model::job_done(s, done, now).0, id),
{
    let t = model::command(s, cmd, now).0;
    let u = model::job_done(s, done, now).0;
    lemma_find(s.pages, id);
    lemma_find(t.pages, id);
    lemma_find(u.pages, id);
    assert(with_image(s.pages, id));
    lemma_command_images(s, cmd, now, id);
    lemma_job_images(s, done, now, id);
}

/// Every page with the number `id` has an image.
spec fn with_image(pages: Seq<PageModel>, id: u32) -> bool {
    forall|j: int| 0 <= j < pages.len() && (#[trigger] pages[j]).id == id ==> pages[j].image is Some
}

proof fn lemma_command_images(s: SessionModel, cmd: CmdModel, now: u64, id: u32)
    requires
        ids_unique(s.pages),
        cmd is ScanNext ==> id < s.next_id,
        model::find(s.pages, id) matches Some(i) && s.pages[i].image is Some,
    ensures
        with_image(model::command(s, cmd, now).0.pages, id),
{
    lemma_find(s.pages, id);
    assert(with_image(s.pages, id));
    let t = model::command(s, cmd, now).0;
    match cmd {
        CmdModel::Move { from, to } => {
            if 0 <= from < s.pages.len() && 0 <= to < s.pages.len() {
                lemma_moved(s.pages, from, to);
            }
        },
        CmdModel::Delete(k) => {
            lemma_find(s.pages, k);
            if model::find(s.pages, k) is Some {
                lemma_removed(s, model::find(s.pages, k)->0);
            }
        },
        CmdModel::Rescan { id: k, .. } => {
            lemma_find(s.pages, k);
        },
        CmdModel::Rotate(k, _) => {
            lemma_find(s.pages, k);
        },
        CmdModel::Crop { id: k, .. } => {
            lemma_find(s.pages, k);
        },
        CmdModel::RequestText(k) => {
            lemma_find(s.pages, k);
        },
        _ => {},
    }
}

proof fn lemma_updated_images(pages: Seq<PageModel>, i: int, q: PageModel, id: u32)
    requires
        with_image(pages, id),
        0 <= i < pages.len(),
        q.id == pages[i].id,
        pages[i].image is Some ==> q.image is Some,
    ensures
        with_image(pages.update(i, q), id),
{
    let t = pages.update(i, q);
    assert forall|j: int| 0 <= j < t.len() && (#[trigger] t[j]).id == id implies t[j].image
        is Some by {
        assert(pages[j].id == id);
    }
}

proof fn lemma_remaining_images(pages: Seq<PageModel>, i: int, id: u32)
    requires
        with_image(pages, id),
        0 <= i < pages.len(),
    ensures
        with_image(pages.remove(i), id),
{
    let t = pages.remove(i);
    assert forall|j: int| 0 <= j < t.len() && (#[trigger] t[j]).id == id implies t[j].image
        is Some by {
        assert(t[j] == pages[if j < i {
            j
        } else {
            j + 1
        }]);
    }
}

proof fn lemma_job_images(s: SessionModel, done: JobDoneModel, now: u64, id: u32)
    requires
        with_image(s.pages, id),
    ensures
        with_image(model::job_done(s, done, now).0.pages, id),
{
    let u = model::job_done(s, done, now).0.pages;
    let k = done_page(done);
    lemma_find(s.pages, k);
    if !(done is Finish) && model::find(s.pages, k) is Some {
        let i = model::find(s.pages, k)->0;
        lemma_job_changes_one(s, done, now, i);
        if u.len() < s.pages.len() {
            lemma_remaining_images(s.pages, i, id);
        } else {
            lemma_updated_images(s.pages, i, u[i], id);
        }
    } else {
        lemma_job_changes_none(s, done, now);
    }
}

/// The end of a job takes its page out of the list or changes that page alone.
proof fn lemma_job_changes_one(s: SessionModel, done: JobDoneModel, now: u64, i: int)
    requires
        !(done is Finish),
        0 <= i < s.pages.len(),
        model::find(s.pages, done_page(done)) == Some(i),
        s.pages[i].id == done_page(done),
    ensures
        ({
            let u = model::job_done(s, done, now).0.pages;
            u == s.pages.remove(i) || u == s.pages.update(i, u[i]) && u[i].id == s.pages[i].id && (
            s.pages[i].image is Some ==> u[i].image is Some)
        }),
{
    let u = model::job_done(s, done, now).0.pages;
    if model::pending_at(s, done_page(done)) is Some {
        assert(u == s.pages.remove(i));
    } else {
        assert(u =~= s.pages.remove(i) || u =~= s.pages.update(i, u[i]));
    }
}

proof fn lemma_job_changes_none(s: SessionModel, done: JobDoneModel, now: u64)
    requires
        done is Finish || model::find(s.pages, done_page(done)) is None,
    ensures
        model::job_done(s, done, now).0.pages == s.pages,
{
}

/// An image is changed in place only where there is one.
pub proof fn law_edits_need_an_image(s: SessionModel, cmd: CmdModel, now: u64, k: int)
    requires
        ids_unique(s.pages),
        0 <= k < model::command(s, cmd, now).1.len(),
        model::command(s, cmd, now).1[k] matches EffectModel::Spawn(j) && (j is Rotate
            || j is Crop),
    ensures
        ({
            let id = match model::command(s, cmd, now).1[k]->Spawn_0 {
                JobModel::Rotate { id, .. } => id,
                JobModel::Crop { id, .. } => id,
                _ => 0,
            };
            &&& model::find(s.pages, id) matches Some(i) && s.pages[i].image is Some
            &&& has_image(model::command(s, cmd, now).0, id)
        }),
{
    let step = model::command(s, cmd, now);
    if model::refusal(s, cmd) is None {
        match cmd {
            CmdModel::Rotate(id, _) => {
                lemma_find(s.pages, id);
                lemma_find(step.0.pages, id);
            },
            CmdModel::Crop { id, .. } => {
                lemma_find(s.pages, id);
                lemma_find(step.0.pages, id);
            },
            CmdModel::Delete(id) => {
                lemma_find(s.pages, id);
                let i = model::find(s.pages, id);
                if i is Some {
                    lemma_removals(model::image_files(s.pages[i->0].image));
                }
            },
            CmdModel::NewSession => {
                lemma_removals(model::all_files(s.pages));
            },
            _ => {},
        }
    }
}

proof fn lemma_removals(files: Seq<Seq<u8>>)
    ensures
        forall|k: int|
            0 <= k < model::removals(files).len() ==> (#[trigger] model::removals(files)[k])
                is RemoveFile,
{
}

// ----------------------------------------------------------------- languages

/// The languages that a job makes text in, where it makes any.
pub open spec fn langs_of(job: JobModel) -> Option<Seq<char>> {
    match job {
        JobModel::Ocr { langs, .. } => Some(langs),
        JobModel::Rotate { langs, .. } => Some(langs),
        JobModel::Crop { langs, .. } => Some(langs),
        JobModel::Finish { plan } => Some(plan.langs),
        _ => None,
    }
}

/// All text that some effects ask for is made in these languages.
pub open spec fn text_in(fx: Seq<EffectModel>, langs: Seq<char>) -> bool {
    forall|k: int|
        0 <= k < fx.len() ==> ((#[trigger] fx[k]) matches EffectModel::Spawn(j) ==> (langs_of(j)
            is Some ==> langs_of(j) == Some(langs)))
}

/// All text is made in the languages that the session is set to: that of
/// single pages, that of pages whose image was changed, and that of the
/// document.
pub proof fn law_text_in_session_langs(
    s: SessionModel,
    cmd: CmdModel,
    done: JobDoneModel,
    target: Result<Seq<u8>, Seq<char>>,
    now: u64,
)
    ensures
        model::build_plan(s).langs == s.cfg.langs,
        text_in(model::command(s, cmd, now).1, s.cfg.langs),
        text_in(model::job_done(s, done, now).1, s.cfg.langs),
        text_in(model::target_reserved(s, target, now).1, s.cfg.langs),
{
    match cmd {
        CmdModel::Delete(id) => {
            lemma_find(s.pages, id);
            let i = model::find(s.pages, id);
            if i is Some {
                lemma_removals(model::image_files(s.pages[i->0].image));
            }
        },
        CmdModel::NewSession => {
            lemma_removals(model::all_files(s.pages));
        },
        _ => {},
    }
    lemma_job_langs(s, done, now);
}

proof fn lemma_job_langs(s: SessionModel, done: JobDoneModel, now: u64)
    ensures
        text_in(model::job_done(s, done, now).1, s.cfg.langs),
{
    let id = done_page(done);
    lemma_find(s.pages, id);
    let i = model::find(s.pages, id);
    if i is Some {
        lemma_removals(model::image_files(s.pages[i->0].image));
        match done {
            JobDoneModel::Clean { is_rescan, image, .. } => {
                lemma_removals(model::replaced_files(s.pages[i->0], is_rescan, image));
            },
            _ => {},
        }
    }
}

/// Languages that were picked are used from then on: the command is never
/// refused, all text that the session has made afterwards is in them, and
/// nothing but another choice changes them.
pub proof fn law_picked_langs_are_used(
    s: SessionModel,
    langs: Seq<char>,
    cmd: CmdModel,
    done: JobDoneModel,
    now: u64,
)
    ensures
        ({
            let t = model::command(s, CmdModel::SetLangs(langs), now).0;
            &&& model::refusal(s, CmdModel::SetLangs(langs)) is None
            &&& t == (SessionModel {
                cfg: crate::config::ConfigView { langs, ..s.cfg },
                ..s
            })
            &&& model::build_plan(t).langs == langs
            &&& text_in(model::command(t, cmd, now).1, langs)
            &&& text_in(model::job_done(t, done, now).1, langs)
            &&& !(cmd is SetLangs) ==> model::command(t, cmd, now).0.cfg.langs == langs
            &&& model::job_done(t, done, now).0.cfg.langs == langs
        }),
{
    let t = model::command(s, CmdModel::SetLangs(langs), now).0;
    law_text_in_session_langs(t, cmd, done, Err(""@), now);
}

/// Deleting a page that is being captured or worked on stops what is going on
/// with it, and the page waits for that to end.
pub proof fn law_delete_stops_work(s: SessionModel, id: u32, now: u64)
    requires
        model::refusal(s, CmdModel::Delete(id)) is None,
        model::find(s.pages, id) matches Some(i) && (s.pages[i].status == PageStatus::Scanning
            || s.pages[i].status == PageStatus::Processing),
    ensures
        ({
            let i = model::find(s.pages, id)->0;
            let step = model::command(s, CmdModel::Delete(id), now);
            &&& step.0.pages == s.pages.update(
                i,
                PageModel { status: PageStatus::DeletePending, ..s.pages[i] },
            )
            &&& step.1[0] == (if s.pages[i].status == PageStatus::Scanning {
                EffectModel::CancelScan
            } else {
                EffectModel::CancelJob(id)
            })
        }),
{
    lemma_find(s.pages, id);
}

/// Leaving the program takes the pages of the session away, unless a document
/// is being built from them.
pub proof fn law_quit_spares_build(s: SessionModel)
    ensures
        model::quit(s).contains(EffectModel::RemoveDir(s.dir)) <==> s.busy != Busy::Finishing,
        model::quit(s).contains(EffectModel::ReleaseReservation(s.out_pdf)) <==> s.busy
            != Busy::Finishing,
{
    let q = model::quit(s);
    if s.busy != Busy::Finishing {
        assert(q[0] == EffectModel::RemoveDir(s.dir));
        assert(q[1] == EffectModel::ReleaseReservation(s.out_pdf));
    }
}

} // verus!
