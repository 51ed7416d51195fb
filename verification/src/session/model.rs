//! What a session is and how it changes, stated over mathematical values.
//!
//! Every command and every finished job is a function from a session to the
//! next session and to the list of things that the world around it has to do.

use vstd::prelude::*;
use vstd::utf8::*;

use crate::backend::pdf::{BuildOutcome, BuildPlanView};
use crate::config::{Cleanup, ConfigView, PreviewOcr};
use crate::path;
use crate::session::{Busy, PageStatus, Stage};
use crate::text;

verus! {

// ------------------------------------------------------------------- values

/// A page.
#[verifier::ext_equal]
pub struct PageModel {
    pub id: u32,
    pub status: PageStatus,
    pub dpi: u16,
    pub mode: Seq<char>,
    pub image: Option<Seq<u8>>,
    pub text: Option<Seq<char>>,
    pub error: Option<Seq<char>>,
    pub stage: Option<Stage>,
    pub stage_started: Option<u64>,
    pub rotated: bool,
    pub unpaper_deskewed: bool,
    pub used_fallback: bool,
    pub image_gen: u32,
    pub text_pending: bool,
    pub ocr_failed_gen: Option<u32>,
}

/// What the interface shows of a page.
#[verifier::ext_equal]
pub struct PageShown {
    pub id: u32,
    pub status: PageStatus,
    pub stage: Option<Stage>,
    pub stage_started: Option<u64>,
    pub image: Option<Seq<u8>>,
    pub image_gen: u32,
    pub text: Option<Seq<char>>,
    pub text_pending: bool,
    pub ocr_failed_gen: Option<u32>,
    pub error: Option<Seq<char>>,
    pub dpi: u16,
    pub mode: Seq<char>,
    pub rotated: bool,
}

/// What the interface shows of a session besides its pages.
#[verifier::ext_equal]
pub struct MetaModel {
    pub busy: Busy,
    pub busy_since: Option<u64>,
    pub jobs_running: nat,
    pub output_path: Seq<u8>,
    pub dirty: bool,
    pub finished: bool,
}

/// A session.
#[verifier::ext_equal]
pub struct SessionModel {
    pub cfg: ConfigView,
    pub device: Seq<char>,
    pub dir: Seq<u8>,
    pub out_pdf: Seq<u8>,
    pub pages: Seq<PageModel>,
    pub next_id: u32,
    pub busy: Busy,
    pub busy_since: Option<u64>,
    /// The page that the scanner is working on.
    pub scan_page: Option<u32>,
    /// The pages for which a job is running.
    pub jobs: Set<u32>,
    /// The document has been built.
    pub finished: bool,
}

/// A command.
#[verifier::ext_equal]
pub enum CmdModel {
    ScanNext { dpi: u16, mode: Seq<char> },
    CancelScan,
    Rescan { id: u32, dpi: u16, mode: Seq<char> },
    Rotate(u32, bool),
    Crop { id: u32, x: u32, y: u32, w: u32, h: u32 },
    Delete(u32),
    Move { from: int, to: int },
    Finish,
    FinishTo { out: Seq<u8>, overwrite: bool },
    NewSession,
    ListLangs,
    SetDevice(Seq<char>),
    SetLangs(Seq<char>),
    RequestText(u32),
}

/// A unit of work.
#[verifier::ext_equal]
pub enum JobModel {
    Scan {
        id: u32,
        is_rescan: bool,
        device: Seq<char>,
        dpi: u16,
        mode: Seq<char>,
        path: Seq<u8>,
    },
    Clean {
        id: u32,
        is_rescan: bool,
        dpi: u16,
        mode: Seq<char>,
        path: Seq<u8>,
        used_fallback: bool,
        cleanup: Cleanup,
        unpaper_extra_args: Seq<Seq<char>>,
    },
    Ocr { id: u32, image: Seq<u8>, langs: Seq<char>, dir: Seq<u8> },
    Rotate { id: u32, image: Seq<u8>, cw: bool, reocr: bool, langs: Seq<char>, dir: Seq<u8> },
    Crop {
        id: u32,
        image: Seq<u8>,
        x: u32,
        y: u32,
        w: u32,
        h: u32,
        reocr: bool,
        langs: Seq<char>,
        dir: Seq<u8>,
    },
    Finish { plan: BuildPlanView },
}

/// Why a job did not succeed.
#[verifier::ext_equal]
pub enum JobErrorModel {
    Cancelled,
    Failed(Seq<char>),
}

/// What a finished job reports.
#[verifier::ext_equal]
#[allow(inconsistent_fields)]
pub enum JobDoneModel {
    Scan {
        id: u32,
        is_rescan: bool,
        dpi: u16,
        mode: Seq<char>,
        path: Seq<u8>,
        result: Result<bool, JobErrorModel>,
    },
    Clean {
        id: u32,
        is_rescan: bool,
        dpi: u16,
        mode: Seq<char>,
        image: Seq<u8>,
        unpaper_deskewed: bool,
        used_fallback: bool,
    },
    Ocr { id: u32, result: Result<Seq<char>, JobErrorModel> },
    Rotate { id: u32, result: Result<Option<Seq<char>>, JobErrorModel> },
    Crop { id: u32, result: Result<Option<Seq<char>>, JobErrorModel> },
    Finish { result: Result<(BuildOutcome, u64), Seq<char>> },
}

/// Something that the world around the session has to do.
#[verifier::ext_equal]
pub enum EffectModel {
    /// Show the pages and the session facts.
    Pages,
    /// Show a line of text.
    Status(Seq<char>),
    /// Announce the end of a build.
    Finished { outcome: Option<BuildOutcome>, path: Seq<u8>, size_kb: u64 },
    Spawn(JobModel),
    CancelScan,
    CancelJob(u32),
    RemoveFile(Seq<u8>),
    RemoveDir(Seq<u8>),
    ReserveTarget { out: Seq<u8>, overwrite: bool },
    ReleaseReservation(Seq<u8>),
    Reopen,
    ListLangs,
}

/// A session after a step, and what is to be done.
pub type Step = (SessionModel, Seq<EffectModel>);

// ------------------------------------------------------------------ lookups

/// Where the page with the given number stands.
pub open spec fn find(pages: Seq<PageModel>, id: u32) -> Option<int>
    decreases pages.len(),
{
    if pages.len() == 0 {
        None
    } else {
        match find(pages.drop_last(), id) {
            Some(i) => Some(i),
            None => if pages.last().id == id {
                Some(pages.len() - 1)
            } else {
                None
            },
        }
    }
}

/// The first page in a state, if there is one.
pub open spec fn first_where(pages: Seq<PageModel>, f: spec_fn(PageModel) -> bool) -> Option<int>
    decreases pages.len(),
{
    if pages.len() == 0 {
        None
    } else {
        match first_where(pages.drop_last(), f) {
            Some(i) => Some(i),
            None => if f(pages.last()) {
                Some(pages.len() - 1)
            } else {
                None
            },
        }
    }
}

/// Whether a deletion waits for a job to end.
pub open spec fn delete_pending(p: PageModel) -> bool {
    p.status == PageStatus::DeletePending
}

pub open spec fn failed(p: PageModel) -> bool {
    p.status == PageStatus::Failed
}

/// Whether the image of a page is still being worked on. Text for the text
/// pane does not count: the text of the document is made when it is built.
pub open spec fn image_unsettled(p: PageModel) -> bool {
    p.status == PageStatus::Processing && p.stage != Some(Stage::Ocr)
}

pub open spec fn any_delete_pending(pages: Seq<PageModel>) -> bool {
    exists|i: int| 0 <= i < pages.len() && delete_pending(#[trigger] pages[i])
}

/// The pages without the one at the place where `id` stands.
pub open spec fn without(pages: Seq<PageModel>, id: u32) -> Seq<PageModel> {
    match find(pages, id) {
        Some(i) => pages.remove(i),
        None => pages,
    }
}

/// The files that belong to an image: itself and its cleaned version.
pub open spec fn image_files(image: Option<Seq<u8>>) -> Seq<Seq<u8>> {
    match image {
        Some(p) => seq![p, path::clean_variant_of(p)],
        None => Seq::empty(),
    }
}

/// The removal of files.
pub open spec fn removals(files: Seq<Seq<u8>>) -> Seq<EffectModel> {
    files.map_values(|f: Seq<u8>| EffectModel::RemoveFile(f))
}

/// The files that are left to remove when `keep` must stay.
pub open spec fn sparing(files: Seq<Seq<u8>>, keep: Seq<u8>) -> Seq<Seq<u8>>
    decreases files.len(),
{
    if files.len() == 0 {
        Seq::empty()
    } else if files.last() == keep {
        sparing(files.drop_last(), keep)
    } else {
        sparing(files.drop_last(), keep).push(files.last())
    }
}

/// The number after `g`; the counter starts over at its end.
pub open spec fn next_gen(g: u32) -> u32 {
    if g == u32::MAX {
        0
    } else {
        (g + 1) as u32
    }
}

// -------------------------------------------------------------------- facts

/// What the interface shows of a page.
pub open spec fn shown(p: PageModel) -> PageShown {
    PageShown {
        id: p.id,
        status: p.status,
        stage: p.stage,
        stage_started: p.stage_started,
        image: p.image,
        image_gen: p.image_gen,
        text: p.text,
        text_pending: p.text_pending,
        ocr_failed_gen: p.ocr_failed_gen,
        error: p.error,
        dpi: p.dpi,
        mode: p.mode,
        rotated: p.rotated,
    }
}

/// Whether leaving the session would lose something. Nothing is lost once
/// the document has been built.
pub open spec fn is_dirty(s: SessionModel) -> bool {
    s.busy != Busy::Idle || (!s.finished && (s.jobs.len() > 0 || exists|i: int|
        0 <= i < s.pages.len() && !delete_pending(#[trigger] s.pages[i])))
}

/// What the interface shows of a session besides its pages.
pub open spec fn meta_of(s: SessionModel) -> MetaModel {
    MetaModel {
        busy: s.busy,
        busy_since: s.busy_since,
        jobs_running: s.jobs.len(),
        output_path: s.out_pdf,
        dirty: is_dirty(s),
        finished: s.finished,
    }
}

/// What a stage is called.
pub open spec fn stage_name(stage: Stage) -> Seq<char> {
    match stage {
        Stage::Scan => "scanning"@,
        Stage::Clean => "cleaning"@,
        Stage::Ocr => "ocr"@,
    }
}

/// What a page is doing.
pub open spec fn status_name(status: PageStatus, stage: Option<Stage>) -> Seq<char> {
    match status {
        PageStatus::Scanning => "scanning"@,
        PageStatus::Processing => match stage {
            Some(t) => stage_name(t),
            None => "processing"@,
        },
        PageStatus::Ready => "ready"@,
        PageStatus::Failed => "failed"@,
        PageStatus::DeletePending => "deleting"@,
    }
}

// ------------------------------------------------------------------- guards

pub open spec fn scanner_busy() -> Seq<char> {
    "scanner busy - press Esc to cancel"@
}

pub open spec fn building() -> Seq<char> {
    "building PDF - wait for it to finish"@
}

pub open spec fn already_built() -> Seq<char> {
    "PDF already built - press n for a new session"@
}

/// Why the document cannot be built now.
pub open spec fn finish_refusal(s: SessionModel) -> Option<Seq<char>> {
    if s.pages.len() == 0 {
        Some("no pages scanned yet"@)
    } else if s.busy == Busy::Finishing {
        Some("already building"@)
    } else if s.finished {
        Some(already_built())
    } else if s.busy == Busy::Scanning {
        Some("scan in progress - finish after it completes"@)
    } else if first_where(s.pages, |p: PageModel| failed(p)) is Some {
        Some(
            "page "@ + text::dec(s.pages[first_where(s.pages, |p: PageModel| failed(p))->0].id as nat)
                + " failed - rescan (r) or delete (d) first"@,
        )
    } else if first_where(s.pages, |p: PageModel| image_unsettled(p)) is Some {
        let p = s.pages[first_where(s.pages, |p: PageModel| image_unsettled(p))->0];
        Some(
            "page "@ + text::dec(p.id as nat) + " still "@ + status_name(PageStatus::Processing, p.stage)
                + " - finish once done"@,
        )
    } else if any_delete_pending(s.pages) {
        Some("waiting for deferred delete"@)
    } else {
        None
    }
}

/// Why a page's image cannot be changed in place now.
pub open spec fn edit_refusal(
    s: SessionModel,
    id: u32,
    page_busy: Seq<char>,
    not_ready: Seq<char>,
) -> Option<Seq<char>> {
    if s.busy == Busy::Finishing {
        Some(building())
    } else if s.finished {
        Some(already_built())
    } else if s.jobs.contains(id) {
        Some(page_busy)
    } else {
        match find(s.pages, id) {
            Some(i) => if s.pages[i].status == PageStatus::Ready {
                None
            } else {
                Some(not_ready)
            },
            None => Some("no such page"@),
        }
    }
}

/// Why a command is refused, if it is.
pub open spec fn refusal(s: SessionModel, cmd: CmdModel) -> Option<Seq<char>> {
    match cmd {
        CmdModel::ScanNext { .. } => {
            if s.busy == Busy::Scanning {
                Some(scanner_busy())
            } else if s.busy == Busy::Finishing {
                Some("building PDF - scan once it finishes"@)
            } else if s.finished {
                Some(already_built())
            } else if any_delete_pending(s.pages) {
                Some("waiting for deferred delete"@)
            } else {
                None
            }
        },
        CmdModel::Rescan { id, .. } => {
            if s.busy == Busy::Scanning {
                Some(scanner_busy())
            } else if s.busy == Busy::Finishing {
                Some(building())
            } else if s.finished {
                Some(already_built())
            } else {
                match find(s.pages, id) {
                    Some(i) => if (s.pages[i].status == PageStatus::Ready || s.pages[i].status
                        == PageStatus::Failed) && !s.jobs.contains(id) {
                        None
                    } else {
                        Some("page busy - rescan after it finishes"@)
                    },
                    None => Some("no such page"@),
                }
            }
        },
        CmdModel::Rotate(id, _) => edit_refusal(
            s,
            id,
            "page busy - rotate after it finishes"@,
            "only ready pages can be rotated"@,
        ),
        CmdModel::Crop { id, w, h, .. } => if w == 0 || h == 0 {
            Some("empty crop area"@)
        } else {
            edit_refusal(
                s,
                id,
                "page busy - crop after it finishes"@,
                "only ready pages can be cropped"@,
            )
        },
        CmdModel::CancelScan => if s.busy == Busy::Scanning {
            None
        } else {
            Some("no scan in progress"@)
        },
        CmdModel::Delete(_) => if s.busy == Busy::Finishing {
            Some(building())
        } else {
            None
        },
        CmdModel::Move { .. } => if s.busy == Busy::Finishing {
            Some(building())
        } else {
            None
        },
        CmdModel::Finish => finish_refusal(s),
        CmdModel::FinishTo { .. } => finish_refusal(s),
        CmdModel::NewSession => if s.busy == Busy::Idle && s.jobs.len() == 0 {
            None
        } else {
            Some("busy - try again after current work finishes"@)
        },
        CmdModel::ListLangs => None,
        CmdModel::SetDevice(_) => None,
        CmdModel::SetLangs(_) => None,
        CmdModel::RequestText(_) => None,
    }
}

// ----------------------------------------------------------------- commands

/// A page number in a file name: at least three digits.
pub open spec fn page_number(id: u32) -> Seq<char> {
    text::pad_left(text::dec(id as nat), 3, '0')
}

/// Where the capture of a new page goes.
pub open spec fn page_path(dir: Seq<u8>, id: u32) -> Seq<u8> {
    path::join_path(dir, encode_utf8("page_"@ + page_number(id) + ".png"@))
}

/// Where the capture of a page that is scanned again goes.
pub open spec fn rescan_path(dir: Seq<u8>, id: u32) -> Seq<u8> {
    path::join_path(dir, encode_utf8("page_"@ + page_number(id) + ".rescan.png"@))
}

/// A page whose capture has just begun.
pub open spec fn new_page(id: u32, dpi: u16, mode: Seq<char>, now: u64) -> PageModel {
    PageModel {
        id,
        status: PageStatus::Scanning,
        dpi,
        mode,
        image: None,
        text: None,
        error: None,
        stage: Some(Stage::Scan),
        stage_started: Some(now),
        rotated: false,
        unpaper_deskewed: false,
        used_fallback: false,
        image_gen: 0,
        text_pending: false,
        ocr_failed_gen: None,
    }
}

/// `"{dpi}dpi {mode}"` in brackets, with an ellipsis.
pub open spec fn settings_note(dpi: u16, mode: Seq<char>) -> Seq<char> {
    " ("@ + text::dec(dpi as nat) + "dpi "@ + mode + ")…"@
}

/// A session whose scanner works on a page.
pub open spec fn scanning(s: SessionModel, id: u32, now: u64) -> SessionModel {
    SessionModel { busy: Busy::Scanning, busy_since: Some(now), scan_page: Some(id), ..s }
}

/// The capture of a new page begins.
pub open spec fn scan_next(s: SessionModel, dpi: u16, mode: Seq<char>, now: u64) -> Step {
    let id = s.next_id;
    let pages = s.pages.push(new_page(id, dpi, mode, now));
    (
        SessionModel { pages, next_id: (id + 1) as u32, ..scanning(s, id, now) },
        seq![
            EffectModel::Pages,
            EffectModel::Status(
                "scanning page "@ + text::dec(pages.len()) + settings_note(dpi, mode),
            ),
            EffectModel::Spawn(
                JobModel::Scan {
                    id,
                    is_rescan: false,
                    device: s.device,
                    dpi,
                    mode,
                    path: page_path(s.dir, id),
                },
            ),
        ],
    )
}

/// The page at place `i` is captured again; its image stays as it is.
pub open spec fn rescan(s: SessionModel, i: int, dpi: u16, mode: Seq<char>, now: u64) -> Step {
    let p = s.pages[i];
    let q = PageModel {
        status: PageStatus::Scanning,
        stage: Some(Stage::Scan),
        stage_started: Some(now),
        error: None,
        image_gen: next_gen(p.image_gen),
        ..p
    };
    (
        SessionModel { pages: s.pages.update(i, q), ..scanning(s, p.id, now) },
        seq![
            EffectModel::Pages,
            EffectModel::Status(
                "rescanning page "@ + text::dec(p.id as nat) + settings_note(dpi, mode),
            ),
            EffectModel::Spawn(
                JobModel::Scan {
                    id: p.id,
                    is_rescan: true,
                    device: s.device,
                    dpi,
                    mode,
                    path: rescan_path(s.dir, p.id),
                },
            ),
        ],
    )
}

/// Whether text is made again after an image was changed in place.
pub open spec fn reocr(s: SessionModel) -> bool {
    s.cfg.preview_ocr != PreviewOcr::Off
}

/// A page whose image is being worked on.
pub open spec fn processing(p: PageModel, stage: Stage, now: u64) -> PageModel {
    PageModel {
        status: PageStatus::Processing,
        stage: Some(stage),
        stage_started: Some(now),
        ..p
    }
}

/// The page at place `i` is worked on by a job.
pub open spec fn page_job(s: SessionModel, i: int, stage: Stage, job: JobModel, now: u64) -> Step {
    (
        SessionModel {
            pages: s.pages.update(i, processing(s.pages[i], stage, now)),
            jobs: s.jobs.insert(s.pages[i].id),
            ..s
        },
        seq![EffectModel::Pages, EffectModel::Spawn(job)],
    )
}

/// The image of the page at place `i` is rotated.
pub open spec fn rotate(s: SessionModel, i: int, cw: bool, now: u64) -> Step {
    match s.pages[i].image {
        Some(image) => page_job(
            s,
            i,
            Stage::Clean,
            JobModel::Rotate {
                id: s.pages[i].id,
                image,
                cw,
                reocr: reocr(s),
                langs: s.cfg.langs,
                dir: s.dir,
            },
            now,
        ),
        None => (s, Seq::empty()),
    }
}

/// The image of the page at place `i` is cut down to a rectangle.
pub open spec fn crop(s: SessionModel, i: int, x: u32, y: u32, w: u32, h: u32, now: u64) -> Step {
    match s.pages[i].image {
        Some(image) => page_job(
            s,
            i,
            Stage::Clean,
            JobModel::Crop {
                id: s.pages[i].id,
                image,
                x,
                y,
                w,
                h,
                reocr: reocr(s),
                langs: s.cfg.langs,
                dir: s.dir,
            },
            now,
        ),
        None => (s, Seq::empty()),
    }
}

/// The page at place `i` is to go: at once, or when what works on it ends.
pub open spec fn delete(s: SessionModel, i: int) -> Step {
    let p = s.pages[i];
    let pending = SessionModel {
        pages: s.pages.update(i, PageModel { status: PageStatus::DeletePending, ..p }),
        ..s
    };
    match p.status {
        PageStatus::Scanning => (
            pending,
            seq![
                EffectModel::CancelScan,
                EffectModel::Pages,
                EffectModel::Status("deleting page after scan ends…"@),
            ],
        ),
        PageStatus::Processing => (
            pending,
            seq![
                EffectModel::CancelJob(p.id),
                EffectModel::Pages,
                EffectModel::Status("deleting page…"@),
            ],
        ),
        _ => (
            SessionModel { pages: s.pages.remove(i), ..s },
            (if s.jobs.contains(p.id) {
                seq![EffectModel::CancelJob(p.id)]
            } else {
                Seq::empty()
            }) + removals(image_files(p.image)) + seq![
                EffectModel::Pages,
                EffectModel::Status("page "@ + text::dec(p.id as nat) + " deleted"@),
            ],
        ),
    }
}

/// A page moves to another place in the list.
pub open spec fn move_page(s: SessionModel, from: int, to: int) -> Step {
    if 0 <= from < s.pages.len() && 0 <= to < s.pages.len() && from != to {
        (
            SessionModel { pages: s.pages.remove(from).insert(to, s.pages[from]), ..s },
            seq![
                EffectModel::Pages,
                EffectModel::Status(
                    "moved page "@ + text::dec((from + 1) as nat) + " → "@ + text::dec((to + 1) as nat),
                ),
            ],
        )
    } else {
        (s, Seq::empty())
    }
}

/// The images of the pages that have one, each with its resolution.
pub open spec fn plan_pages(pages: Seq<PageModel>) -> Seq<(Seq<u8>, u16)>
    decreases pages.len(),
{
    if pages.len() == 0 {
        Seq::empty()
    } else {
        let rest = plan_pages(pages.drop_last());
        match pages.last().image {
            Some(image) => rest.push((image, pages.last().dpi)),
            None => rest,
        }
    }
}

/// What the document is built from.
pub open spec fn build_plan(s: SessionModel) -> BuildPlanView {
    BuildPlanView {
        pages: plan_pages(s.pages),
        any_page_needing_cleanup: exists|i: int|
            0 <= i < s.pages.len() && !(#[trigger] s.pages[i]).unpaper_deskewed,
        manually_rotated: exists|i: int| 0 <= i < s.pages.len() && (#[trigger] s.pages[i]).rotated,
        langs: s.cfg.langs,
        out_pdf: s.out_pdf,
    }
}

/// The building of the document begins.
pub open spec fn finish(s: SessionModel, now: u64) -> Step {
    (
        SessionModel { busy: Busy::Finishing, busy_since: Some(now), ..s },
        seq![
            EffectModel::Pages,
            EffectModel::Status("building searchable PDF…"@),
            EffectModel::Spawn(JobModel::Finish { plan: build_plan(s) }),
        ],
    )
}

/// The files of all pages.
pub open spec fn all_files(pages: Seq<PageModel>) -> Seq<Seq<u8>>
    decreases pages.len(),
{
    if pages.len() == 0 {
        Seq::empty()
    } else {
        all_files(pages.drop_last()) + image_files(pages.last().image)
    }
}

/// The pages are dropped to make room for a new session.
pub open spec fn reset(s: SessionModel) -> Step {
    (
        SessionModel {
            pages: Seq::empty(),
            jobs: Set::empty(),
            busy: Busy::Idle,
            busy_since: None,
            scan_page: None,
            finished: false,
            ..s
        },
        removals(all_files(s.pages)) + seq![
            EffectModel::ReleaseReservation(s.out_pdf),
            EffectModel::Reopen,
        ],
    )
}

/// The new session has its own directory and its own document.
pub open spec fn reopened(s: SessionModel, dir: Seq<u8>, out_pdf: Seq<u8>) -> Step {
    (
        SessionModel { dir, out_pdf, ..s },
        seq![EffectModel::Pages, EffectModel::Status("new session started"@)],
    )
}

/// Whether text for the text pane is made of a page on demand.
pub open spec fn wants_text(s: SessionModel, p: PageModel) -> bool {
    &&& s.cfg.preview_ocr == PreviewOcr::Lazy
    &&& s.busy != Busy::Finishing
    &&& !s.finished
    &&& p.status == PageStatus::Ready
    &&& p.image is Some
    &&& p.text is None
    &&& !p.text_pending
    &&& !s.jobs.contains(p.id)
    &&& p.ocr_failed_gen != Some(p.image_gen)
}

/// The job that makes text of a page.
pub open spec fn ocr_job(s: SessionModel, id: u32, image: Seq<u8>) -> JobModel {
    JobModel::Ocr { id, image, langs: s.cfg.langs, dir: s.dir }
}

/// Text is made of the page at place `i`, if it is wanted.
pub open spec fn request_text(s: SessionModel, i: int) -> Step {
    let p = s.pages[i];
    if wants_text(s, p) {
        (
            SessionModel {
                pages: s.pages.update(i, PageModel { text_pending: true, ..p }),
                jobs: s.jobs.insert(p.id),
                ..s
            },
            seq![EffectModel::Pages, EffectModel::Spawn(ocr_job(s, p.id, p.image->0))],
        )
    } else {
        (s, Seq::empty())
    }
}

/// What a command that is not refused does.
pub open spec fn accepted(s: SessionModel, cmd: CmdModel, now: u64) -> Step {
    match cmd {
        CmdModel::ScanNext { dpi, mode } => scan_next(s, dpi, mode, now),
        CmdModel::CancelScan => (
            s,
            seq![EffectModel::CancelScan, EffectModel::Status("cancelling scan…"@)],
        ),
        CmdModel::Rescan { id, dpi, mode } => match find(s.pages, id) {
            Some(i) => rescan(s, i, dpi, mode, now),
            None => (s, Seq::empty()),
        },
        CmdModel::Rotate(id, cw) => match find(s.pages, id) {
            Some(i) => rotate(s, i, cw, now),
            None => (s, Seq::empty()),
        },
        CmdModel::Crop { id, x, y, w, h } => match find(s.pages, id) {
            Some(i) => crop(s, i, x, y, w, h, now),
            None => (s, Seq::empty()),
        },
        CmdModel::Delete(id) => match find(s.pages, id) {
            Some(i) => delete(s, i),
            None => (s, Seq::empty()),
        },
        CmdModel::Move { from, to } => move_page(s, from, to),
        CmdModel::Finish => finish(s, now),
        CmdModel::FinishTo { out, overwrite } => (
            s,
            seq![EffectModel::ReserveTarget { out, overwrite }],
        ),
        CmdModel::NewSession => reset(s),
        CmdModel::ListLangs => (s, seq![EffectModel::ListLangs]),
        CmdModel::SetDevice(name) => (
            if name.len() == 0 {
                s
            } else {
                SessionModel { device: name, ..s }
            },
            Seq::empty(),
        ),
        CmdModel::SetLangs(langs) => (
            SessionModel { cfg: ConfigView { langs, ..s.cfg }, ..s },
            Seq::empty(),
        ),
        CmdModel::RequestText(id) => match find(s.pages, id) {
            Some(i) => request_text(s, i),
            None => (s, Seq::empty()),
        },
    }
}

/// What a command does: a refused one only says why.
pub open spec fn command(s: SessionModel, cmd: CmdModel, now: u64) -> Step {
    match refusal(s, cmd) {
        Some(reason) => (s, seq![EffectModel::Status("blocked: "@ + reason)]),
        None => accepted(s, cmd, now),
    }
}

/// The place that the user chose for the document was claimed, or not.
pub open spec fn target_reserved(
    s: SessionModel,
    result: Result<Seq<u8>, Seq<char>>,
    now: u64,
) -> Step {
    match result {
        Ok(out) => {
            let f = finish(SessionModel { out_pdf: out, ..s }, now);
            if out == s.out_pdf {
                f
            } else {
                (f.0, seq![EffectModel::ReleaseReservation(s.out_pdf)] + f.1)
            }
        },
        Err(e) => (s, seq![EffectModel::Status("cannot save: "@ + e)]),
    }
}

/// What is left to do when the program ends: the pages go, unless a document
/// is being built from them.
pub open spec fn quit(s: SessionModel) -> Seq<EffectModel> {
    if s.busy == Busy::Finishing {
        Seq::empty()
    } else {
        seq![EffectModel::RemoveDir(s.dir), EffectModel::ReleaseReservation(s.out_pdf)]
    }
}

// ------------------------------------------------------------ finished jobs

/// A session whose scanner is free.
pub open spec fn scanner_free(s: SessionModel) -> SessionModel {
    SessionModel { busy: Busy::Idle, busy_since: None, scan_page: None, ..s }
}

/// A page with nothing going on.
pub open spec fn settled(p: PageModel, status: PageStatus) -> PageModel {
    PageModel { status, stage: None, stage_started: None, ..p }
}

/// Whether the page with number `id` waits for its deletion.
pub open spec fn pending_at(s: SessionModel, id: u32) -> Option<int> {
    match find(s.pages, id) {
        Some(i) => if delete_pending(s.pages[i]) {
            Some(i)
        } else {
            None
        },
        None => None,
    }
}

/// The deletion that the page at place `i` waited for.
pub open spec fn deferred_delete(s: SessionModel, i: int, note: Seq<char>) -> Step {
    (
        SessionModel { pages: s.pages.remove(i), ..s },
        removals(image_files(s.pages[i].image)) + seq![
            EffectModel::Status(note),
            EffectModel::Pages,
        ],
    )
}

/// What a page is again when capturing it anew was called off: a page without
/// an image, whose first capture failed, is not ready.
pub open spec fn old_status(p: PageModel) -> PageStatus {
    if p.image is Some {
        PageStatus::Ready
    } else {
        PageStatus::Failed
    }
}

/// A capture ended: the scanner is free, and what was captured is cleaned.
pub open spec fn scan_done(
    t: SessionModel,
    id: u32,
    is_rescan: bool,
    dpi: u16,
    mode: Seq<char>,
    path: Seq<u8>,
    result: Result<bool, JobErrorModel>,
    now: u64,
) -> Step {
    let s = scanner_free(t);
    match pending_at(s, id) {
        Some(i) => deferred_delete(
            s,
            i,
            if result == Err::<bool, JobErrorModel>(JobErrorModel::Cancelled) && !is_rescan {
                "scan cancelled"@
            } else {
                "scan cancelled and page deleted"@
            },
        ),
        None => match result {
            Ok(used_fallback) => match find(s.pages, id) {
                Some(i) => page_job(
                    s,
                    i,
                    Stage::Clean,
                    JobModel::Clean {
                        id: s.pages[i].id,
                        is_rescan,
                        dpi,
                        mode,
                        path,
                        used_fallback,
                        cleanup: s.cfg.cleanup,
                        unpaper_extra_args: s.cfg.unpaper_extra_args,
                    },
                    now,
                ),
                None => (s, seq![EffectModel::Pages]),
            },
            Err(JobErrorModel::Cancelled) => if is_rescan {
                (
                    match find(s.pages, id) {
                        Some(i) => SessionModel {
                            pages: s.pages.update(i, settled(s.pages[i], old_status(s.pages[i]))),
                            ..s
                        },
                        None => s,
                    },
                    seq![
                        EffectModel::Status("rescan cancelled; old page kept"@),
                        EffectModel::Pages,
                    ],
                )
            } else {
                (
                    SessionModel { pages: without(s.pages, id), ..s },
                    seq![EffectModel::Status("scan cancelled"@), EffectModel::Pages],
                )
            },
            Err(JobErrorModel::Failed(e)) => (
                match find(s.pages, id) {
                    Some(i) => SessionModel {
                        pages: s.pages.update(
                            i,
                            PageModel {
                                error: Some(e),
                                ..settled(s.pages[i], PageStatus::Failed)
                            },
                        ),
                        ..s
                    },
                    None => s,
                },
                seq![
                    EffectModel::Status(
                        (if is_rescan {
                            "rescan"@
                        } else {
                            "scan"@
                        }) + " failed: "@ + e,
                    ),
                    EffectModel::Pages,
                ],
            ),
        },
    }
}

/// What is worth saying about a page that is ready.
pub open spec fn ready_note(s: SessionModel, used_fallback: bool, deskewed: bool) -> Seq<char> {
    if used_fallback {
        " - scanner rejected resolution/mode; page size may differ"@
    } else if deskewed || (s.cfg.cleanup == Cleanup::Legacy && s.cfg.unpaper_extra_args.len()
        == 0) {
        ""@
    } else {
        " - unpaper cleanup unavailable; ocrmypdf deskews at finish"@
    }
}

/// The announcement of a page that is ready.
pub open spec fn ready_status(s: SessionModel, p: PageModel) -> EffectModel {
    EffectModel::Status(
        "page "@ + text::dec(p.id as nat) + " ready"@ + ready_note(
            s,
            p.used_fallback,
            p.unpaper_deskewed,
        ),
    )
}

/// A session without the job of a page.
pub open spec fn job_ended(s: SessionModel, id: u32) -> SessionModel {
    SessionModel { jobs: s.jobs.remove(id), ..s }
}

/// A page with a new image, and with the settings that it was captured with.
pub open spec fn adopted(
    p: PageModel,
    image: Seq<u8>,
    dpi: u16,
    mode: Seq<char>,
    unpaper_deskewed: bool,
    used_fallback: bool,
) -> PageModel {
    PageModel {
        image: Some(image),
        dpi,
        mode,
        unpaper_deskewed,
        used_fallback,
        text: None,
        image_gen: next_gen(p.image_gen),
        ..p
    }
}

/// The files of the page at place `i` that its new image replaces.
pub open spec fn replaced_files(p: PageModel, is_rescan: bool, image: Seq<u8>) -> Seq<Seq<u8>> {
    if is_rescan {
        sparing(image_files(p.image), image)
    } else {
        Seq::empty()
    }
}

/// A page was cleaned: it takes over its new image.
pub open spec fn clean_done(
    t: SessionModel,
    id: u32,
    is_rescan: bool,
    dpi: u16,
    mode: Seq<char>,
    image: Seq<u8>,
    unpaper_deskewed: bool,
    used_fallback: bool,
    now: u64,
) -> Step {
    let s = job_ended(t, id);
    match pending_at(s, id) {
        Some(i) => deferred_delete(s, i, "page deleted"@),
        None => match find(s.pages, id) {
            Some(i) => {
                let p = s.pages[i];
                let q = adopted(p, image, dpi, mode, unpaper_deskewed, used_fallback);
                let gone = removals(replaced_files(p, is_rescan, image));
                if s.cfg.preview_ocr == PreviewOcr::Eager {
                    let step = page_job(
                        SessionModel { pages: s.pages.update(i, q), ..s },
                        i,
                        Stage::Ocr,
                        ocr_job(s, q.id, image),
                        now,
                    );
                    (step.0, gone + step.1)
                } else {
                    let r = settled(q, PageStatus::Ready);
                    (
                        SessionModel { pages: s.pages.update(i, r), ..s },
                        gone + seq![EffectModel::Pages, ready_status(s, r)],
                    )
                }
            },
            None => (s, seq![EffectModel::Pages]),
        },
    }
}

/// A page with the outcome of making its text.
pub open spec fn with_text(p: PageModel, result: Result<Seq<char>, JobErrorModel>) -> PageModel {
    let q = PageModel { text_pending: false, ..p };
    match result {
        Ok(text) => PageModel { text: Some(text), ..q },
        Err(JobErrorModel::Cancelled) => q,
        Err(JobErrorModel::Failed(_)) => PageModel { ocr_failed_gen: Some(p.image_gen), ..q },
    }
}

/// The text of a page was made, or not. A page that waited for it is ready.
pub open spec fn ocr_done(
    t: SessionModel,
    id: u32,
    result: Result<Seq<char>, JobErrorModel>,
) -> Step {
    let s = job_ended(t, id);
    match pending_at(s, id) {
        Some(i) => deferred_delete(s, i, "page deleted"@),
        None => match find(s.pages, id) {
            Some(i) => {
                let q = with_text(s.pages[i], result);
                if q.status == PageStatus::Processing {
                    let r = settled(q, PageStatus::Ready);
                    (
                        SessionModel { pages: s.pages.update(i, r), ..s },
                        seq![EffectModel::Pages, ready_status(s, r)],
                    )
                } else {
                    (
                        SessionModel { pages: s.pages.update(i, q), ..s },
                        seq![EffectModel::Pages],
                    )
                }
            },
            None => (s, seq![EffectModel::Pages]),
        },
    }
}

/// A page after its image was changed in place, or not.
pub open spec fn edited(
    p: PageModel,
    turned: bool,
    result: Result<Option<Seq<char>>, JobErrorModel>,
) -> PageModel {
    match result {
        Ok(text) => PageModel {
            rotated: p.rotated || turned,
            image_gen: next_gen(p.image_gen),
            text: if text is Some {
                text
            } else {
                p.text
            },
            ..settled(p, PageStatus::Ready)
        },
        Err(JobErrorModel::Cancelled) => settled(p, PageStatus::Ready),
        Err(JobErrorModel::Failed(e)) => PageModel {
            error: Some(e),
            ..settled(p, PageStatus::Failed)
        },
    }
}

/// The image of a page was changed in place, or not.
pub open spec fn edit_done(
    t: SessionModel,
    id: u32,
    turned: bool,
    verb: Seq<char>,
    result: Result<Option<Seq<char>>, JobErrorModel>,
) -> Step {
    let s = job_ended(t, id);
    match pending_at(s, id) {
        Some(i) => deferred_delete(s, i, "page deleted"@),
        None => (
            match find(s.pages, id) {
                Some(i) => SessionModel {
                    pages: s.pages.update(i, edited(s.pages[i], turned, result)),
                    ..s
                },
                None => s,
            },
            seq![
                EffectModel::Pages,
                EffectModel::Status("page "@ + text::dec(id as nat) + verb),
            ],
        ),
    }
}

/// The document was built, or not.
pub open spec fn finish_done(t: SessionModel, result: Result<(BuildOutcome, u64), Seq<char>>) -> Step {
    let s = SessionModel { busy: Busy::Idle, busy_since: None, ..t };
    match result {
        Ok((outcome, size_kb)) => (
            SessionModel { finished: true, ..s },
            seq![
                EffectModel::RemoveDir(s.dir),
                EffectModel::Status(
                    "done: "@ + path::lossy(s.out_pdf) + " ("@ + text::dec(size_kb as nat)
                        + " KB) - o to open"@,
                ),
                EffectModel::Finished { outcome: Some(outcome), path: s.out_pdf, size_kb },
                EffectModel::Pages,
            ],
        ),
        Err(e) => (
            s,
            seq![
                EffectModel::Status("PDF build failed: "@ + e),
                EffectModel::Finished { outcome: None, path: s.out_pdf, size_kb: 0 },
                EffectModel::Pages,
            ],
        ),
    }
}

/// What the end of a job does.
pub open spec fn job_done(s: SessionModel, done: JobDoneModel, now: u64) -> Step {
    match done {
        JobDoneModel::Scan { id, is_rescan, dpi, mode, path, result } => scan_done(
            s,
            id,
            is_rescan,
            dpi,
            mode,
            path,
            result,
            now,
        ),
        JobDoneModel::Clean {
            id,
            is_rescan,
            dpi,
            mode,
            image,
            unpaper_deskewed,
            used_fallback,
        } => clean_done(
            s,
            id,
            is_rescan,
            dpi,
            mode,
            image,
            unpaper_deskewed,
            used_fallback,
            now,
        ),
        JobDoneModel::Ocr { id, result } => ocr_done(s, id, result),
        JobDoneModel::Rotate { id, result } => edit_done(s, id, true, " rotated"@, result),
        JobDoneModel::Crop { id, result } => edit_done(s, id, false, " cropped"@, result),
        JobDoneModel::Finish { result } => finish_done(s, result),
    }
}

} // verus!
