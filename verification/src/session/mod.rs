//! The session: it owns the page list, decides what may be done, and keeps
//! track of the work that is going on.
//!
//! The scanner is the one exclusive resource. It is free as soon as a capture
//! ends: cleaning and text extraction of a page run as jobs beside the next
//! capture. The session itself never waits. Each command and each finished
//! job is answered at once with a list of [`Effect`]s for the program around
//! it to carry out.

use std::collections::HashSet;

use vstd::prelude::*;

use crate::backend::pdf;
use crate::backend::pdf::{BuildOutcome, BuildPlan};
use crate::config::{Cleanup, Config, PreviewOcr};
use crate::config;
use crate::path::FilePath;
use crate::session::model::{
    CmdModel, EffectModel, JobDoneModel, JobErrorModel, JobModel, MetaModel, PageModel, PageShown,
    SessionModel,
};
use crate::text;
use crate::text::{cat, cat3, cat5, copy_texts, padded_left, same, u64_text};

pub mod duties;
pub mod jobs;
pub mod laws;
pub mod model;
pub mod telling;

verus! {

/// The number of a page: never reused, and independent of its place.
pub type PageId = u32;

#[derive(Debug, Clone, Copy, PartialEq, Eq, Structural)]
pub enum PageStatus {
    /// The scanner works on it.
    Scanning,
    /// A job works on its image or its text.
    Processing,
    /// Its image is ready.
    Ready,
    /// Its capture or a job on its image failed.
    Failed,
    /// It goes when the work on it ends.
    DeletePending,
}

#[derive(Debug, Clone, Copy, PartialEq, Eq, Structural)]
pub enum Stage {
    Scan,
    Clean,
    Ocr,
}

impl Stage {
    pub fn label(self) -> (r: &'static str)
        ensures
            r@ == model::stage_name(self),
    {
        match self {
            Stage::Scan => "scanning",
            Stage::Clean => "cleaning",
            Stage::Ocr => "ocr",
        }
    }
}

/// The exclusive resources. Work on single pages does not occupy them.
#[derive(Debug, Clone, Copy, PartialEq, Eq, Structural)]
pub enum Busy {
    Idle,
    Scanning,
    Finishing,
}

/// A page. Times are in milliseconds since the program started.
#[derive(Debug)]
pub struct Page {
    pub id: PageId,
    pub status: PageStatus,
    pub dpi: u16,
    pub mode: String,
    pub image: Option<FilePath>,
    pub text: Option<String>,
    pub error: Option<String>,
    pub stage: Option<Stage>,
    /// When the current stage started.
    pub stage_started: Option<u64>,
    pub rotated: bool,
    /// The image was fully cleaned and deskewed by unpaper.
    pub unpaper_deskewed: bool,
    /// The scanner rejected the requested settings and captured the page with
    /// fewer of them.
    pub used_fallback: bool,
    /// Counts the changes of the image.
    pub image_gen: u32,
    /// Text is being made for the text pane.
    pub text_pending: bool,
    /// The image for which making text failed.
    pub ocr_failed_gen: Option<u32>,
}

impl View for Page {
    type V = PageModel;

    open spec fn view(&self) -> PageModel {
        PageModel {
            id: self.id,
            status: self.status,
            dpi: self.dpi,
            mode: self.mode@,
            image: config::opt_path(self.image),
            text: config::opt_text(self.text),
            error: config::opt_text(self.error),
            stage: self.stage,
            stage_started: self.stage_started,
            rotated: self.rotated,
            unpaper_deskewed: self.unpaper_deskewed,
            used_fallback: self.used_fallback,
            image_gen: self.image_gen,
            text_pending: self.text_pending,
            ocr_failed_gen: self.ocr_failed_gen,
        }
    }
}

/// What the interface shows of a page.
#[derive(Debug)]
pub struct PageView {
    pub id: PageId,
    pub status: PageStatus,
    pub stage: Option<Stage>,
    pub stage_started: Option<u64>,
    pub image: Option<FilePath>,
    pub image_gen: u32,
    pub text: Option<String>,
    pub text_pending: bool,
    pub ocr_failed_gen: Option<u32>,
    pub error: Option<String>,
    pub dpi: u16,
    pub mode: String,
    pub rotated: bool,
}

impl View for PageView {
    type V = PageShown;

    open spec fn view(&self) -> PageShown {
        PageShown {
            id: self.id,
            status: self.status,
            stage: self.stage,
            stage_started: self.stage_started,
            image: config::opt_path(self.image),
            image_gen: self.image_gen,
            text: config::opt_text(self.text),
            text_pending: self.text_pending,
            ocr_failed_gen: self.ocr_failed_gen,
            error: config::opt_text(self.error),
            dpi: self.dpi,
            mode: self.mode@,
            rotated: self.rotated,
        }
    }
}

impl PageView {
    /// What the page is doing; the interface appends the elapsed seconds.
    pub fn stage_label(&self) -> (r: String)
        ensures
            r@ == model::status_name(self.status, self.stage),
    {
        match self.status {
            PageStatus::Scanning => "scanning".to_owned(),
            PageStatus::Processing => match self.stage {
                Some(s) => s.label().to_owned(),
                None => "processing".to_owned(),
            },
            PageStatus::Ready => "ready".to_owned(),
            PageStatus::Failed => "failed".to_owned(),
            PageStatus::DeletePending => "deleting".to_owned(),
        }
    }
}

/// A copy of an optional path.
pub fn copy_path(p: &Option<FilePath>) -> (r: Option<FilePath>)
    ensures
        config::opt_path(r) == config::opt_path(*p),
{
    match p {
        Some(p) => Some(p.clone()),
        None => None,
    }
}

/// A copy of an optional text.
pub fn copy_text(s: &Option<String>) -> (r: Option<String>)
    ensures
        config::opt_text(r) == config::opt_text(*s),
{
    match s {
        Some(s) => Some(s.clone()),
        None => None,
    }
}

/// What a user asks of a session.
#[derive(Debug)]
pub enum Cmd {
    /// Capture the next page with the given settings.
    ScanNext { dpi: u16, mode: String },
    /// Cancel the capture that is going on.
    CancelScan,
    /// Capture a page again; its image stays until that has succeeded.
    Rescan { id: PageId, dpi: u16, mode: String },
    /// Rotate a page by 90 degrees, clockwise or not.
    Rotate(PageId, bool),
    /// Cut a page down to a rectangle of its image.
    Crop { id: PageId, x: u32, y: u32, w: u32, h: u32 },
    /// Delete a page: at once, or when the work on it ends.
    Delete(PageId),
    /// Move a page to another place in the list.
    Move { from: usize, to: usize },
    /// Build the document.
    Finish,
    /// Build the document at a place that the user chose.
    FinishTo { out: FilePath, overwrite: bool },
    /// Drop all pages and start over.
    NewSession,
    /// Find out which languages tesseract has.
    ListLangs,
    /// Use this scanner from now on.
    SetDevice(String),
    /// Make text in these languages from now on.
    SetLangs(String),
    /// Make the text of a page for the text pane.
    RequestText(PageId),
}

impl View for Cmd {
    type V = CmdModel;

    open spec fn view(&self) -> CmdModel {
        match *self {
            Cmd::ScanNext { dpi, mode } => CmdModel::ScanNext { dpi, mode: mode@ },
            Cmd::CancelScan => CmdModel::CancelScan,
            Cmd::Rescan { id, dpi, mode } => CmdModel::Rescan { id, dpi, mode: mode@ },
            Cmd::Rotate(id, cw) => CmdModel::Rotate(id, cw),
            Cmd::Crop { id, x, y, w, h } => CmdModel::Crop { id, x, y, w, h },
            Cmd::Delete(id) => CmdModel::Delete(id),
            Cmd::Move { from, to } => CmdModel::Move { from: from as int, to: to as int },
            Cmd::Finish => CmdModel::Finish,
            Cmd::FinishTo { out, overwrite } => CmdModel::FinishTo { out: out@, overwrite },
            Cmd::NewSession => CmdModel::NewSession,
            Cmd::ListLangs => CmdModel::ListLangs,
            Cmd::SetDevice(name) => CmdModel::SetDevice(name@),
            Cmd::SetLangs(langs) => CmdModel::SetLangs(langs@),
            Cmd::RequestText(id) => CmdModel::RequestText(id),
        }
    }
}

/// What the interface shows of a session besides its pages.
#[derive(Debug)]
pub struct SessionMeta {
    /// Which exclusive resource is in use.
    pub busy: Busy,
    /// Since when it is in use.
    pub busy_since: Option<u64>,
    /// How many jobs on single pages are running.
    pub jobs_running: usize,
    pub output_path: FilePath,
    /// Leaving now would lose something.
    pub dirty: bool,
    /// The document has been built.
    pub finished: bool,
}

impl View for SessionMeta {
    type V = MetaModel;

    open spec fn view(&self) -> MetaModel {
        MetaModel {
            busy: self.busy,
            busy_since: self.busy_since,
            jobs_running: self.jobs_running as nat,
            output_path: self.output_path@,
            dirty: self.dirty,
            finished: self.finished,
        }
    }
}

/// What a session tells the interface.
#[derive(Debug)]
pub enum Event {
    Pages { pages: Vec<PageView>, meta: SessionMeta },
    Status(String),
    Finished { outcome: Option<BuildOutcome>, path: FilePath, size_kb: u64 },
    Langs(Vec<String>),
}

/// A unit of work that the program around the session carries out.
#[derive(Debug)]
pub enum Job {
    /// Capture a page into a file.
    Scan {
        id: PageId,
        is_rescan: bool,
        device: String,
        dpi: u16,
        mode: String,
        path: FilePath,
    },
    /// Clean what was captured.
    Clean {
        id: PageId,
        is_rescan: bool,
        dpi: u16,
        mode: String,
        path: FilePath,
        used_fallback: bool,
        cleanup: Cleanup,
        unpaper_extra_args: Vec<String>,
    },
    /// Make the text of a page.
    Ocr { id: PageId, image: FilePath, langs: String, dir: FilePath },
    /// Rotate an image in place and make its text again.
    Rotate {
        id: PageId,
        image: FilePath,
        cw: bool,
        reocr: bool,
        langs: String,
        dir: FilePath,
    },
    /// Cut an image down in place and make its text again.
    Crop {
        id: PageId,
        image: FilePath,
        x: u32,
        y: u32,
        w: u32,
        h: u32,
        reocr: bool,
        langs: String,
        dir: FilePath,
    },
    /// Build the document.
    Finish { plan: BuildPlan },
}

impl View for Job {
    type V = JobModel;

    open spec fn view(&self) -> JobModel {
        match *self {
            Job::Scan { id, is_rescan, device, dpi, mode, path } => JobModel::Scan {
                id,
                is_rescan,
                device: device@,
                dpi,
                mode: mode@,
                path: path@,
            },
            Job::Clean {
                id,
                is_rescan,
                dpi,
                mode,
                path,
                used_fallback,
                cleanup,
                unpaper_extra_args,
            } => JobModel::Clean {
                id,
                is_rescan,
                dpi,
                mode: mode@,
                path: path@,
                used_fallback,
                cleanup,
                unpaper_extra_args: text::texts(unpaper_extra_args@),
            },
            Job::Ocr { id, image, langs, dir } => JobModel::Ocr {
                id,
                image: image@,
                langs: langs@,
                dir: dir@,
            },
            Job::Rotate { id, image, cw, reocr, langs, dir } => JobModel::Rotate {
                id,
                image: image@,
                cw,
                reocr,
                langs: langs@,
                dir: dir@,
            },
            Job::Crop { id, image, x, y, w, h, reocr, langs, dir } => JobModel::Crop {
                id,
                image: image@,
                x,
                y,
                w,
                h,
                reocr,
                langs: langs@,
                dir: dir@,
            },
            Job::Finish { plan } => JobModel::Finish { plan: plan@ },
        }
    }
}

/// Why a job did not succeed.
#[derive(Debug)]
pub enum JobError {
    Cancelled,
    Failed(String),
}

impl View for JobError {
    type V = JobErrorModel;

    open spec fn view(&self) -> JobErrorModel {
        match *self {
            JobError::Cancelled => JobErrorModel::Cancelled,
            JobError::Failed(e) => JobErrorModel::Failed(e@),
        }
    }
}

/// What a finished job reports.
#[derive(Debug)]
#[allow(inconsistent_fields)]
pub enum JobDone {
    /// A capture ended; it tells whether the scanner rejected the settings.
    Scan {
        id: PageId,
        is_rescan: bool,
        dpi: u16,
        mode: String,
        path: FilePath,
        result: Result<bool, JobError>,
    },
    /// A page was cleaned, or left as it was captured.
    Clean {
        id: PageId,
        is_rescan: bool,
        dpi: u16,
        mode: String,
        image: FilePath,
        unpaper_deskewed: bool,
        used_fallback: bool,
    },
    Ocr { id: PageId, result: Result<String, JobError> },
    Rotate { id: PageId, result: Result<Option<String>, JobError> },
    Crop { id: PageId, result: Result<Option<String>, JobError> },
    /// A build ended, with the size of the document in KB.
    Finish { result: Result<(BuildOutcome, u64), String> },
}

pub open spec fn scan_result(r: Result<bool, JobError>) -> Result<bool, JobErrorModel> {
    match r {
        Ok(b) => Ok(b),
        Err(e) => Err(e@),
    }
}

pub open spec fn text_result(r: Result<String, JobError>) -> Result<Seq<char>, JobErrorModel> {
    match r {
        Ok(t) => Ok(t@),
        Err(e) => Err(e@),
    }
}

pub open spec fn edit_result(r: Result<Option<String>, JobError>) -> Result<
    Option<Seq<char>>,
    JobErrorModel,
> {
    match r {
        Ok(t) => Ok(config::opt_text(t)),
        Err(e) => Err(e@),
    }
}

pub open spec fn build_result(r: Result<(BuildOutcome, u64), String>) -> Result<
    (BuildOutcome, u64),
    Seq<char>,
> {
    match r {
        Ok(b) => Ok(b),
        Err(e) => Err(e@),
    }
}

impl View for JobDone {
    type V = JobDoneModel;

    open spec fn view(&self) -> JobDoneModel {
        match *self {
            JobDone::Scan { id, is_rescan, dpi, mode, path, result } => JobDoneModel::Scan {
                id,
                is_rescan,
                dpi,
                mode: mode@,
                path: path@,
                result: scan_result(result),
            },
            JobDone::Clean {
                id,
                is_rescan,
                dpi,
                mode,
                image,
                unpaper_deskewed,
                used_fallback,
            } => JobDoneModel::Clean {
                id,
                is_rescan,
                dpi,
                mode: mode@,
                image: image@,
                unpaper_deskewed,
                used_fallback,
            },
            JobDone::Ocr { id, result } => JobDoneModel::Ocr { id, result: text_result(result) },
            JobDone::Rotate { id, result } => JobDoneModel::Rotate {
                id,
                result: edit_result(result),
            },
            JobDone::Crop { id, result } => JobDoneModel::Crop { id, result: edit_result(result) },
            JobDone::Finish { result } => JobDoneModel::Finish { result: build_result(result) },
        }
    }
}

/// Something that the program around the session has to do.
#[derive(Debug)]
pub enum Effect {
    /// Show the pages and the session facts.
    Pages,
    /// Show a line of text.
    Status(String),
    /// Announce the end of a build.
    Finished { outcome: Option<BuildOutcome>, path: FilePath, size_kb: u64 },
    /// Start a job; its end is reported with [`Session::handle_job_done`].
    Spawn(Job),
    /// Cancel the capture that is going on.
    CancelScan,
    /// Cancel the job of a page.
    CancelJob(PageId),
    RemoveFile(FilePath),
    RemoveDir(FilePath),
    /// Claim a place for the document, then call
    /// [`Session::target_reserved`].
    ReserveTarget { out: FilePath, overwrite: bool },
    /// Give up a place that was claimed for a document.
    ReleaseReservation(FilePath),
    /// Make a directory and claim a place for the next document, then call
    /// [`Session::reopened`].
    Reopen,
    /// Find out which languages tesseract has, and report them.
    ListLangs,
}

impl View for Effect {
    type V = EffectModel;

    open spec fn view(&self) -> EffectModel {
        match *self {
            Effect::Pages => EffectModel::Pages,
            Effect::Status(s) => EffectModel::Status(s@),
            Effect::Finished { outcome, path, size_kb } => EffectModel::Finished {
                outcome,
                path: path@,
                size_kb,
            },
            Effect::Spawn(job) => EffectModel::Spawn(job@),
            Effect::CancelScan => EffectModel::CancelScan,
            Effect::CancelJob(id) => EffectModel::CancelJob(id),
            Effect::RemoveFile(p) => EffectModel::RemoveFile(p@),
            Effect::RemoveDir(p) => EffectModel::RemoveDir(p@),
            Effect::ReserveTarget { out, overwrite } => EffectModel::ReserveTarget {
                out: out@,
                overwrite,
            },
            Effect::ReleaseReservation(p) => EffectModel::ReleaseReservation(p@),
            Effect::Reopen => EffectModel::Reopen,
            Effect::ListLangs => EffectModel::ListLangs,
        }
    }
}

/// What a list of effects asks for.
pub open spec fn effects(v: Seq<Effect>) -> Seq<EffectModel> {
    v.map_values(|e: Effect| e@)
}

/// The pages of a list.
pub open spec fn page_models(v: Seq<Page>) -> Seq<PageModel> {
    v.map_values(|p: Page| p@)
}

/// What is shown of the pages of a list.
pub open spec fn shown_pages(v: Seq<PageView>) -> Seq<PageShown> {
    v.map_values(|p: PageView| p@)
}

/// The session: see the module's description.
#[derive(Debug)]
pub struct Session {
    cfg: Config,
    device: String,
    dir: FilePath,
    out_pdf: FilePath,
    pages: Vec<Page>,
    next_id: PageId,
    busy: Busy,
    busy_since: Option<u64>,
    scan_page: Option<PageId>,
    jobs: HashSet<PageId>,
    finished: bool,
}

impl View for Session {
    type V = SessionModel;

    closed spec fn view(&self) -> SessionModel {
        SessionModel {
            cfg: self.cfg@,
            device: self.device@,
            dir: self.dir@,
            out_pdf: self.out_pdf@,
            pages: page_models(self.pages@),
            next_id: self.next_id,
            busy: self.busy,
            busy_since: self.busy_since,
            scan_page: self.scan_page,
            jobs: self.jobs@,
            finished: self.finished,
        }
    }
}


proof fn lemma_find(pages: Seq<PageModel>, id: u32)
    ensures
        match model::find(pages, id) {
            Some(i) => 0 <= i < pages.len() && pages[i].id == id && forall|j: int|
                0 <= j < i ==> (#[trigger] pages[j]).id != id,
            None => forall|j: int| 0 <= j < pages.len() ==> (#[trigger] pages[j]).id != id,
        },
    decreases pages.len(),
{
    if pages.len() > 0 {
        lemma_find(pages.drop_last(), id);
        let init = pages.drop_last();
        assert forall|j: int| 0 <= j < pages.len() - 1 implies pages[j] == init[j] by {}
    }
}

impl Session {
    /// A session without pages.
    pub fn new(cfg: Config, device: String, dir: FilePath, out_pdf: FilePath) -> (r: Self)
        ensures
            r@ == (SessionModel {
                cfg: cfg@,
                device: device@,
                dir: dir@,
                out_pdf: out_pdf@,
                pages: Seq::empty(),
                next_id: 1,
                busy: Busy::Idle,
                busy_since: None,
                scan_page: None,
                jobs: Set::empty(),
                finished: false,
            }),
    {
        broadcast use vstd::std_specs::hash::group_hash_axioms;

        let r = Session {
            cfg,
            device,
            dir,
            out_pdf,
            pages: Vec::new(),
            next_id: 1,
            busy: Busy::Idle,
            busy_since: None,
            scan_page: None,
            jobs: HashSet::new(),
            finished: false,
        };
        assert(r@.pages =~= Seq::empty());
        r
    }

    /// Where the page with the given number stands.
    fn position(&self, id: PageId) -> (r: Option<usize>)
        ensures
            match r {
                Some(i) => i < self.pages@.len() && model::find(self@.pages, id) == Some(i as int)
                    && self.pages@[i as int].id == id && self@.pages[i as int] == self.pages@[i as int]@,
                None => model::find(self@.pages, id) is None,
            },
    {
        let mut i: usize = 0;
        proof {
            lemma_find(self@.pages, id);
        }
        while i < self.pages.len()
            invariant
                i <= self.pages@.len(),
                self@.pages == page_models(self.pages@),
                forall|j: int| 0 <= j < i ==> (#[trigger] self@.pages[j]).id != id,
                match model::find(self@.pages, id) {
                    Some(k) => 0 <= k < self@.pages.len() && self@.pages[k].id == id && forall|j: int|
                        0 <= j < k ==> (#[trigger] self@.pages[j]).id != id,
                    None => forall|j: int|
                        0 <= j < self@.pages.len() ==> (#[trigger] self@.pages[j]).id != id,
                },
            decreases self.pages@.len() - i,
        {
            assert(self@.pages[i as int].id == self.pages@[i as int].id);
            if self.pages[i].id == id {
                return Some(i);
            }
            i = i + 1;
        }
        None
    }

    fn set_job(&mut self, id: PageId)
        ensures
            final(self)@ == (SessionModel { jobs: old(self)@.jobs.insert(id), ..old(self)@ }),
    {
        broadcast use vstd::std_specs::hash::group_hash_axioms;

        self.jobs.insert(id);
    }

    fn end_job(&mut self, id: PageId)
        ensures
            final(self)@ == model::job_ended(old(self)@, id),
    {
        broadcast use vstd::std_specs::hash::group_hash_axioms;

        self.jobs.remove(&id);
    }

    fn has_job(&self, id: PageId) -> (r: bool)
        ensures
            r == self@.jobs.contains(id),
    {
        broadcast use vstd::std_specs::hash::group_hash_axioms;

        self.jobs.contains(&id)
    }

    /// The page at place `i` begins another stage.
    fn begin_stage(&mut self, i: usize, stage: Stage, now: u64)
        requires
            i < old(self)@.pages.len(),
        ensures
            final(self)@ == (SessionModel {
                pages: old(self)@.pages.update(
                    i as int,
                    model::processing(old(self)@.pages[i as int], stage, now),
                ),
                ..old(self)@
            }),
    {
        self.pages[i].status = PageStatus::Processing;
        self.pages[i].stage = Some(stage);
        self.pages[i].stage_started = Some(now);
    }

    // ------------------------------------------------------------- facts

    /// What the interface shows of the pages.
    pub fn views(&self) -> (r: Vec<PageView>)
        ensures
            shown_pages(r@) == self@.pages.map_values(|p: PageModel| model::shown(p)),
    {
        let mut r: Vec<PageView> = Vec::new();
        let mut i: usize = 0;
        while i < self.pages.len()
            invariant
                i <= self.pages@.len(),
                r@.len() == i,
                self@.pages == page_models(self.pages@),
                forall|j: int| 0 <= j < i ==> (#[trigger] r@[j])@ == model::shown(self@.pages[j]),
            decreases self.pages@.len() - i,
        {
            let p = &self.pages[i];
            r.push(
                PageView {
                    id: p.id,
                    status: p.status,
                    stage: p.stage,
                    stage_started: p.stage_started,
                    image: copy_path(&p.image),
                    image_gen: p.image_gen,
                    text: copy_text(&p.text),
                    text_pending: p.text_pending,
                    ocr_failed_gen: p.ocr_failed_gen,
                    error: copy_text(&p.error),
                    dpi: p.dpi,
                    mode: p.mode.clone(),
                    rotated: p.rotated,
                },
            );
            i = i + 1;
        }
        assert(shown_pages(r@) =~= self@.pages.map_values(|p: PageModel| model::shown(p)));
        r
    }

    /// What the interface shows of the session besides its pages.
    pub fn meta(&self) -> (r: SessionMeta)
        ensures
            r@ == model::meta_of(self@),
    {
        broadcast use vstd::std_specs::hash::group_hash_axioms;

        SessionMeta {
            busy: self.busy,
            busy_since: self.busy_since,
            jobs_running: self.jobs.len(),
            output_path: self.out_pdf.clone(),
            dirty: self.dirty(),
            finished: self.finished,
        }
    }

    /// Whether leaving the session would lose something.
    pub fn dirty(&self) -> (r: bool)
        ensures
            r == model::is_dirty(self@),
    {
        broadcast use vstd::std_specs::hash::group_hash_axioms;

        if self.busy != Busy::Idle {
            return true;
        }
        if self.finished {
            return false;
        }
        if self.jobs.len() > 0 {
            return true;
        }
        let mut i: usize = 0;
        while i < self.pages.len()
            invariant
                i <= self.pages@.len(),
                self@.pages == page_models(self.pages@),
                !self@.finished,
                forall|j: int| 0 <= j < i ==> model::delete_pending(#[trigger] self@.pages[j]),
            decreases self.pages@.len() - i,
        {
            assert(self@.pages[i as int].status == self.pages@[i as int].status);
            if self.pages[i].status != PageStatus::DeletePending {
                return true;
            }
            i = i + 1;
        }
        false
    }

    /// Where the document goes.
    pub fn output_path(&self) -> (r: &FilePath)
        ensures
            r@ == self@.out_pdf,
    {
        &self.out_pdf
    }

    /// Whether there is a number for another page.
    pub fn has_numbers(&self) -> (r: bool)
        ensures
            r == (self@.next_id < u32::MAX),
    {
        self.next_id < u32::MAX
    }

    /// The directory that holds the images.
    pub fn dir(&self) -> (r: &FilePath)
        ensures
            r@ == self@.dir,
    {
        &self.dir
    }

    fn has_delete_pending(&self) -> (r: bool)
        ensures
            r == model::any_delete_pending(self@.pages),
    {
        let mut i: usize = 0;
        while i < self.pages.len()
            invariant
                i <= self.pages@.len(),
                self@.pages == page_models(self.pages@),
                forall|j: int| 0 <= j < i ==> !model::delete_pending(#[trigger] self@.pages[j]),
            decreases self.pages@.len() - i,
        {
            assert(self@.pages[i as int].status == self.pages@[i as int].status);
            if self.pages[i].status == PageStatus::DeletePending {
                return true;
            }
            i = i + 1;
        }
        false
    }

    fn first_failed(&self) -> (r: Option<usize>)
        ensures
            match r {
                Some(i) => i < self.pages@.len() && model::first_where(
                    self@.pages,
                    |p: PageModel| model::failed(p),
                ) == Some(i as int),
                None => model::first_where(self@.pages, |p: PageModel| model::failed(p)) is None,
            },
    {
        let ghost f = |p: PageModel| model::failed(p);
        let mut i: usize = 0;
        while i < self.pages.len()
            invariant
                i <= self.pages@.len(),
                self@.pages == page_models(self.pages@),
                f == (|p: PageModel| model::failed(p)),
                forall|j: int| 0 <= j < i ==> !f(#[trigger] self@.pages[j]),
            decreases self.pages@.len() - i,
        {
            assert(self@.pages[i as int].status == self.pages@[i as int].status);
            if self.pages[i].status == PageStatus::Failed {
                proof {
                    lemma_first_where(self@.pages, f, i as int);
                }
                return Some(i);
            }
            i = i + 1;
        }
        proof {
            lemma_none_where(self@.pages, f);
        }
        None
    }

    fn first_unsettled(&self) -> (r: Option<usize>)
        ensures
            match r {
                Some(i) => i < self.pages@.len() && model::first_where(
                    self@.pages,
                    |p: PageModel| model::image_unsettled(p),
                ) == Some(i as int),
                None => model::first_where(
                    self@.pages,
                    |p: PageModel| model::image_unsettled(p),
                ) is None,
            },
    {
        let ghost f = |p: PageModel| model::image_unsettled(p);
        let mut i: usize = 0;
        while i < self.pages.len()
            invariant
                i <= self.pages@.len(),
                self@.pages == page_models(self.pages@),
                f == (|p: PageModel| model::image_unsettled(p)),
                forall|j: int| 0 <= j < i ==> !f(#[trigger] self@.pages[j]),
            decreases self.pages@.len() - i,
        {
            assert(self@.pages[i as int] == self.pages@[i as int]@);
            let ocr = match self.pages[i].stage {
                Some(t) => t == Stage::Ocr,
                None => false,
            };
            if self.pages[i].status == PageStatus::Processing && !ocr {
                proof {
                    lemma_first_where(self@.pages, f, i as int);
                }
                return Some(i);
            }
            i = i + 1;
        }
        proof {
            lemma_none_where(self@.pages, f);
        }
        None
    }

    // ------------------------------------------------------------ guards

    /// Why the document cannot be built now.
    fn finish_guard(&self) -> (r: Result<(), String>)
        ensures
            refused(r) == model::finish_refusal(self@),
    {
        if self.pages.len() == 0 {
            return Err("no pages scanned yet".to_owned());
        }
        if self.busy == Busy::Finishing {
            return Err("already building".to_owned());
        }
        if self.finished {
            return Err("PDF already built - press n for a new session".to_owned());
        }
        if self.busy == Busy::Scanning {
            return Err("scan in progress - finish after it completes".to_owned());
        }
        if let Some(i) = self.first_failed() {
            let id = u64_text(self.pages[i].id as u64);
            return Err(
                cat3("page ", id.as_str(), " failed - rescan (r) or delete (d) first"),
            );
        }
        if let Some(i) = self.first_unsettled() {
            let id = u64_text(self.pages[i].id as u64);
            let stage = match self.pages[i].stage {
                Some(s) => s.label(),
                None => "processing",
            };
            return Err(cat5("page ", id.as_str(), " still ", stage, " - finish once done"));
        }
        if self.has_delete_pending() {
            return Err("waiting for deferred delete".to_owned());
        }
        Ok(())
    }

    /// Why a page's image cannot be changed in place now.
    fn edit_guard(&self, id: PageId, page_busy: &str, not_ready: &str) -> (r: Result<(), String>)
        ensures
            refused(r) == model::edit_refusal(self@, id, page_busy@, not_ready@),
    {
        if self.busy == Busy::Finishing {
            return Err("building PDF - wait for it to finish".to_owned());
        }
        if self.finished {
            return Err("PDF already built - press n for a new session".to_owned());
        }
        if self.has_job(id) {
            return Err(page_busy.to_owned());
        }
        match self.position(id) {
            Some(i) => if self.pages[i].status == PageStatus::Ready {
                Ok(())
            } else {
                Err(not_ready.to_owned())
            },
            None => Err("no such page".to_owned()),
        }
    }

    /// Whether a command is accepted; if not, the reason that the user is
    /// shown. Work on single pages does not keep the scanner from its next
    /// capture.
    pub fn guard(&self, cmd: &Cmd) -> (r: Result<(), String>)
        ensures
            refused(r) == model::refusal(self@, cmd@),
    {
        broadcast use vstd::std_specs::hash::group_hash_axioms;

        match cmd {
            Cmd::ScanNext { .. } => {
                if self.busy == Busy::Scanning {
                    return Err("scanner busy - press Esc to cancel".to_owned());
                }
                if self.busy == Busy::Finishing {
                    return Err("building PDF - scan once it finishes".to_owned());
                }
                if self.finished {
                    return Err("PDF already built - press n for a new session".to_owned());
                }
                if self.has_delete_pending() {
                    return Err("waiting for deferred delete".to_owned());
                }
                Ok(())
            },
            Cmd::Rescan { id, .. } => {
                if self.busy == Busy::Scanning {
                    return Err("scanner busy - press Esc to cancel".to_owned());
                }
                if self.busy == Busy::Finishing {
                    return Err("building PDF - wait for it to finish".to_owned());
                }
                if self.finished {
                    return Err("PDF already built - press n for a new session".to_owned());
                }
                match self.position(*id) {
                    Some(i) => {
                        let status = self.pages[i].status;
                        if (status == PageStatus::Ready || status == PageStatus::Failed)
                            && !self.has_job(*id) {
                            Ok(())
                        } else {
                            Err("page busy - rescan after it finishes".to_owned())
                        }
                    },
                    None => Err("no such page".to_owned()),
                }
            },
            Cmd::Rotate(id, _) => self.edit_guard(
                *id,
                "page busy - rotate after it finishes",
                "only ready pages can be rotated",
            ),
            Cmd::Crop { id, w, h, .. } => {
                if *w == 0 || *h == 0 {
                    return Err("empty crop area".to_owned());
                }
                self.edit_guard(
                    *id,
                    "page busy - crop after it finishes",
                    "only ready pages can be cropped",
                )
            },
            Cmd::CancelScan => if self.busy == Busy::Scanning {
                Ok(())
            } else {
                Err("no scan in progress".to_owned())
            },
            Cmd::Delete(_) | Cmd::Move { .. } => if self.busy == Busy::Finishing {
                Err("building PDF - wait for it to finish".to_owned())
            } else {
                Ok(())
            },
            Cmd::Finish | Cmd::FinishTo { .. } => self.finish_guard(),
            Cmd::NewSession => if self.busy == Busy::Idle && self.jobs.len() == 0 {
                Ok(())
            } else {
                Err("busy - try again after current work finishes".to_owned())
            },
            Cmd::ListLangs | Cmd::SetDevice(_) | Cmd::SetLangs(_) | Cmd::RequestText(_) => Ok(()),
        }
    }
}

/// The reason of a refusal.
pub open spec fn refused(r: Result<(), String>) -> Option<Seq<char>> {
    match r {
        Ok(_) => None,
        Err(e) => Some(e@),
    }
}

proof fn lemma_none_where(pages: Seq<PageModel>, f: spec_fn(PageModel) -> bool)
    requires
        forall|j: int| 0 <= j < pages.len() ==> !f(#[trigger] pages[j]),
    ensures
        model::first_where(pages, f) is None,
    decreases pages.len(),
{
    if pages.len() > 0 {
        let init = pages.drop_last();
        assert forall|j: int| 0 <= j < init.len() implies !f(#[trigger] init[j]) by {
            assert(init[j] == pages[j]);
        }
        lemma_none_where(init, f);
    }
}

proof fn lemma_first_where(pages: Seq<PageModel>, f: spec_fn(PageModel) -> bool, i: int)
    requires
        0 <= i < pages.len(),
        f(pages[i]),
        forall|j: int| 0 <= j < i ==> !f(#[trigger] pages[j]),
    ensures
        model::first_where(pages, f) == Some(i),
    decreases pages.len(),
{
    let init = pages.drop_last();
    if i < pages.len() - 1 {
        assert forall|j: int| 0 <= j < i implies !f(#[trigger] init[j]) by {
            assert(init[j] == pages[j]);
        }
        lemma_first_where(init, f, i);
    } else {
        assert forall|j: int| 0 <= j < init.len() implies !f(#[trigger] init[j]) by {
            assert(init[j] == pages[j]);
        }
        lemma_none_where(init, f);
    }
}


// ---------------------------------------------------------- building effects

/// `page {id}{tail}`.
fn page_line(id: PageId, tail: &str) -> (r: String)
    ensures
        r@ == "page "@ + text::dec(id as nat) + tail@,
{
    cat3("page ", u64_text(id as u64).as_str(), tail)
}

/// `" ({dpi}dpi {mode})…"`.
fn settings_text(dpi: u16, mode: &str) -> (r: String)
    ensures
        r@ == model::settings_note(dpi, mode@),
{
    cat5(" (", u64_text(dpi as u64).as_str(), "dpi ", mode, ")…")
}

/// A page number in a file name.
fn number_text(id: PageId) -> (r: String)
    ensures
        r@ == model::page_number(id),
{
    padded_left(u64_text(id as u64).as_str(), 3, '0')
}

/// The files that belong to an image.
fn files_of(image: &Option<FilePath>) -> (r: Vec<FilePath>)
    ensures
        crate::path::paths(r@) == model::image_files(config::opt_path(*image)),
{
    let mut v: Vec<FilePath> = Vec::new();
    if let Some(p) = image {
        v.push(p.clone());
        v.push(p.clean_variant());
    }
    assert(crate::path::paths(v@) =~= model::image_files(config::opt_path(*image)));
    v
}

/// Adds the removal of files.
fn add_removals(fx: &mut Vec<Effect>, files: &[FilePath])
    ensures
        effects(final(fx)@) == effects(old(fx)@) + model::removals(crate::path::paths(files@)),
{
    let mut i: usize = 0;
    let ghost start = effects(fx@);
    let ghost all = crate::path::paths(files@);
    assert(effects(fx@) =~= start + model::removals(all.take(0)));
    while i < files.len()
        invariant
            i <= files@.len(),
            all == crate::path::paths(files@),
            effects(fx@) == start + model::removals(all.take(i as int)),
        decreases files@.len() - i,
    {
        let ghost before = fx@;
        fx.push(Effect::RemoveFile(files[i].clone()));
        proof {
            assert(effects(fx@) =~= effects(before).push(fx@.last()@));
            assert(all.take(i + 1) =~= all.take(i as int).push(all[i as int]));
            assert(model::removals(all.take(i + 1)) =~= model::removals(all.take(i as int)).push(
                EffectModel::RemoveFile(all[i as int]),
            ));
            assert(effects(fx@) =~= start + model::removals(all.take(i + 1)));
        }
        i = i + 1;
    }
    assert(all.take(files@.len() as int) =~= all);
}

/// Adds one effect.
fn add_effect(fx: &mut Vec<Effect>, e: Effect)
    ensures
        effects(final(fx)@) == effects(old(fx)@).push(e@),
{
    fx.push(e);
    assert(effects(fx@) =~= effects(old(fx)@).push(e@));
}

/// The files that are left to remove when `keep` must stay.
fn spare(files: &[FilePath], keep: &FilePath) -> (r: Vec<FilePath>)
    ensures
        crate::path::paths(r@) == model::sparing(crate::path::paths(files@), keep@),
{
    let mut r: Vec<FilePath> = Vec::new();
    let mut i: usize = 0;
    let ghost all = crate::path::paths(files@);
    assert(crate::path::paths(r@) =~= model::sparing(all.take(0), keep@));
    while i < files.len()
        invariant
            i <= files@.len(),
            all == crate::path::paths(files@),
            crate::path::paths(r@) == model::sparing(all.take(i as int), keep@),
        decreases files@.len() - i,
    {
        let ghost before = r@;
        assert(all.take(i + 1).drop_last() =~= all.take(i as int));
        assert(all.take(i + 1).last() == files@[i as int]@);
        if !files[i].same(keep) {
            r.push(files[i].clone());
            assert(crate::path::paths(r@) =~= crate::path::paths(before).push(files@[i as int]@));
        }
        i = i + 1;
    }
    assert(all.take(files@.len() as int) =~= all);
    r
}

impl Session {
    // --------------------------------------------------------- commands

    /// The capture of a new page begins.
    fn start_scan(&mut self, dpi: u16, mode: String, now: u64) -> (r: Vec<Effect>)
        requires
            old(self)@.next_id < u32::MAX,
        ensures
            final(self)@ == model::scan_next(old(self)@, dpi, mode@, now).0,
            effects(r@) == model::scan_next(old(self)@, dpi, mode@, now).1,
    {
        let id: PageId = self.next_id;
        self.busy = Busy::Scanning;
        self.busy_since = Some(now);
        self.scan_page = Some(id);
        self.next_id = id + 1;
        let path = self.dir.join(
            cat3("page_", number_text(id).as_str(), ".png").as_str(),
        );
        self.pages.push(
            Page {
                id,
                status: PageStatus::Scanning,
                dpi,
                mode: mode.clone(),
                image: None,
                text: None,
                error: None,
                stage: Some(Stage::Scan),
                stage_started: Some(now),
                rotated: false,
                unpaper_deskewed: false,
                used_fallback: false,
                image_gen: 0,
                text_pending: false,
                ocr_failed_gen: None,
            },
        );
        assert(self@.pages =~= old(self)@.pages.push(model::new_page(id, dpi, mode@, now)));
        let line = cat3(
            "scanning page ",
            u64_text(self.pages.len() as u64).as_str(),
            settings_text(dpi, mode.as_str()).as_str(),
        );
        let r = vec![
            Effect::Pages,
            Effect::Status(line),
            Effect::Spawn(
                Job::Scan {
                    id,
                    is_rescan: false,
                    device: self.device.clone(),
                    dpi,
                    mode,
                    path,
                },
            ),
        ];
        assert(effects(r@) =~= model::scan_next(old(self)@, dpi, mode@, now).1);
        r
    }

    /// The page at place `i` is captured again.
    fn start_rescan(&mut self, i: usize, dpi: u16, mode: String, now: u64) -> (r: Vec<Effect>)
        requires
            i < old(self)@.pages.len(),
        ensures
            final(self)@ == model::rescan(old(self)@, i as int, dpi, mode@, now).0,
            effects(r@) == model::rescan(old(self)@, i as int, dpi, mode@, now).1,
    {
        let id: PageId = self.pages[i].id;
        self.busy = Busy::Scanning;
        self.busy_since = Some(now);
        self.scan_page = Some(id);
        let path = self.dir.join(
            cat3("page_", number_text(id).as_str(), ".rescan.png").as_str(),
        );
        let gen: u32 = self.pages[i].image_gen;
        self.pages[i].status = PageStatus::Scanning;
        self.pages[i].stage = Some(Stage::Scan);
        self.pages[i].stage_started = Some(now);
        self.pages[i].error = None;
        self.pages[i].image_gen = bumped(gen);
        let line = cat3(
            "rescanning page ",
            u64_text(id as u64).as_str(),
            settings_text(dpi, mode.as_str()).as_str(),
        );
        let r = vec![
            Effect::Pages,
            Effect::Status(line),
            Effect::Spawn(
                Job::Scan {
                    id,
                    is_rescan: true,
                    device: self.device.clone(),
                    dpi,
                    mode,
                    path,
                },
            ),
        ];
        assert(effects(r@) =~= model::rescan(old(self)@, i as int, dpi, mode@, now).1);
        r
    }

    /// The page at place `i` is worked on by a job.
    fn start_page_job(&mut self, i: usize, stage: Stage, job: Job, now: u64) -> (r: Vec<Effect>)
        requires
            i < old(self)@.pages.len(),
        ensures
            final(self)@ == model::page_job(old(self)@, i as int, stage, job@, now).0,
            effects(r@) == model::page_job(old(self)@, i as int, stage, job@, now).1,
    {
        let id: PageId = self.pages[i].id;
        self.begin_stage(i, stage, now);
        self.set_job(id);
        let r = vec![Effect::Pages, Effect::Spawn(job)];
        assert(effects(r@) =~= seq![EffectModel::Pages, EffectModel::Spawn(job@)]);
        r
    }

    fn reocr(&self) -> (r: bool)
        ensures
            r == model::reocr(self@),
    {
        self.cfg.preview_ocr != PreviewOcr::Off
    }

    /// The image of the page at place `i` is rotated.
    fn start_rotate(&mut self, i: usize, cw: bool, now: u64) -> (r: Vec<Effect>)
        requires
            i < old(self)@.pages.len(),
        ensures
            final(self)@ == model::rotate(old(self)@, i as int, cw, now).0,
            effects(r@) == model::rotate(old(self)@, i as int, cw, now).1,
    {
        match copy_path(&self.pages[i].image) {
            Some(image) => {
                let job = Job::Rotate {
                    id: self.pages[i].id,
                    image,
                    cw,
                    reocr: self.reocr(),
                    langs: self.cfg.langs.clone(),
                    dir: self.dir.clone(),
                };
                self.start_page_job(i, Stage::Clean, job, now)
            },
            None => no_effects(),
        }
    }

    /// The image of the page at place `i` is cut down to a rectangle.
    fn start_crop(&mut self, i: usize, x: u32, y: u32, w: u32, h: u32, now: u64) -> (r: Vec<Effect>)
        requires
            i < old(self)@.pages.len(),
        ensures
            final(self)@ == model::crop(old(self)@, i as int, x, y, w, h, now).0,
            effects(r@) == model::crop(old(self)@, i as int, x, y, w, h, now).1,
    {
        match copy_path(&self.pages[i].image) {
            Some(image) => {
                let job = Job::Crop {
                    id: self.pages[i].id,
                    image,
                    x,
                    y,
                    w,
                    h,
                    reocr: self.reocr(),
                    langs: self.cfg.langs.clone(),
                    dir: self.dir.clone(),
                };
                self.start_page_job(i, Stage::Clean, job, now)
            },
            None => no_effects(),
        }
    }

    /// The page at place `i` is to go.
    fn delete(&mut self, i: usize) -> (r: Vec<Effect>)
        requires
            i < old(self)@.pages.len(),
        ensures
            final(self)@ == model::delete(old(self)@, i as int).0,
            effects(r@) == model::delete(old(self)@, i as int).1,
    {
        let id: PageId = self.pages[i].id;
        match self.pages[i].status {
            PageStatus::Scanning => {
                self.pages[i].status = PageStatus::DeletePending;
                let r = vec![
                    Effect::CancelScan,
                    Effect::Pages,
                    Effect::Status("deleting page after scan ends…".to_owned()),
                ];
                assert(effects(r@) =~= model::delete(old(self)@, i as int).1);
                r
            },
            PageStatus::Processing => {
                self.pages[i].status = PageStatus::DeletePending;
                let r = vec![
                    Effect::CancelJob(id),
                    Effect::Pages,
                    Effect::Status("deleting page…".to_owned()),
                ];
                assert(effects(r@) =~= model::delete(old(self)@, i as int).1);
                r
            },
            _ => {
                let mut r: Vec<Effect> = no_effects();
                if self.has_job(id) {
                    add_effect(&mut r, Effect::CancelJob(id));
                }
                let files = files_of(&self.pages[i].image);
                add_removals(&mut r, files.as_slice());
                self.pages.remove(i);
                add_effect(&mut r, Effect::Pages);
                add_effect(&mut r, Effect::Status(page_line(id, " deleted")));
                assert(effects(r@) =~= model::delete(old(self)@, i as int).1);
                r
            },
        }
    }

    /// A page moves to another place in the list.
    fn move_page(&mut self, from: usize, to: usize) -> (r: Vec<Effect>)
        ensures
            final(self)@ == model::move_page(old(self)@, from as int, to as int).0,
            effects(r@) == model::move_page(old(self)@, from as int, to as int).1,
    {
        if from >= self.pages.len() || to >= self.pages.len() || from == to {
            return no_effects();
        }
        let p = self.pages.remove(from);
        self.pages.insert(to, p);
        let a = u64_text(from as u64 + 1);
        let b = u64_text(to as u64 + 1);
        let r = vec![
            Effect::Pages,
            Effect::Status(cat(cat3("moved page ", a.as_str(), " → ").as_str(), b.as_str())),
        ];
        assert(effects(r@) =~= model::move_page(old(self)@, from as int, to as int).1);
        r
    }

    /// What the document is built from.
    fn plan(&self) -> (r: BuildPlan)
        ensures
            r@ == model::build_plan(self@),
    {
        let mut pages: Vec<(FilePath, u16)> = Vec::new();
        let mut unclean = false;
        let mut rotated = false;
        let mut i: usize = 0;
        let ghost all = self@.pages;
        assert(pdf::sized_images(pages@) =~= model::plan_pages(all.take(0)));
        while i < self.pages.len()
            invariant
                i <= self.pages@.len(),
                all == self@.pages,
                all == page_models(self.pages@),
                pdf::sized_images(pages@) == model::plan_pages(all.take(i as int)),
                unclean <==> exists|j: int|
                    0 <= j < i && !(#[trigger] all[j]).unpaper_deskewed,
                rotated <==> exists|j: int| 0 <= j < i && (#[trigger] all[j]).rotated,
            decreases self.pages@.len() - i,
        {
            let ghost before = pages@;
            let p = &self.pages[i];
            assert(all[i as int] == self.pages@[i as int]@);
            assert(all.take(i + 1).drop_last() =~= all.take(i as int));
            if let Some(image) = &p.image {
                pages.push((image.clone(), p.dpi));
                assert(pdf::sized_images(pages@) =~= pdf::sized_images(before).push(
                    (image@, p.dpi),
                ));
            }
            unclean = unclean || !p.unpaper_deskewed;
            rotated = rotated || p.rotated;
            i = i + 1;
        }
        assert(all.take(all.len() as int) =~= all);
        BuildPlan {
            pages,
            any_page_needing_cleanup: unclean,
            manually_rotated: rotated,
            langs: self.cfg.langs.clone(),
            out_pdf: self.out_pdf.clone(),
        }
    }

    /// The building of the document begins.
    fn start_finish(&mut self, now: u64) -> (r: Vec<Effect>)
        ensures
            final(self)@ == model::finish(old(self)@, now).0,
            effects(r@) == model::finish(old(self)@, now).1,
    {
        let plan = self.plan();
        self.busy = Busy::Finishing;
        self.busy_since = Some(now);
        let r = vec![
            Effect::Pages,
            Effect::Status("building searchable PDF…".to_owned()),
            Effect::Spawn(Job::Finish { plan }),
        ];
        assert(effects(r@) =~= model::finish(old(self)@, now).1);
        r
    }

    /// The pages are dropped to make room for a new session.
    fn new_session(&mut self) -> (r: Vec<Effect>)
        ensures
            final(self)@ == model::reset(old(self)@).0,
            effects(r@) == model::reset(old(self)@).1,
    {
        broadcast use vstd::std_specs::hash::group_hash_axioms;

        let mut r: Vec<Effect> = no_effects();
        let mut i: usize = 0;
        let ghost all = self@.pages;
        assert(effects(r@) =~= model::removals(model::all_files(all.take(0))));
        while i < self.pages.len()
            invariant
                i <= self.pages@.len(),
                self@ == old(self)@,
                all == self@.pages,
                all == page_models(self.pages@),
                effects(r@) == model::removals(model::all_files(all.take(i as int))),
            decreases self.pages@.len() - i,
        {
            let files = files_of(&self.pages[i].image);
            add_removals(&mut r, files.as_slice());
            proof {
                assert(all[i as int] == self.pages@[i as int]@);
                assert(all.take(i + 1).drop_last() =~= all.take(i as int));
                let a = model::all_files(all.take(i as int));
                let b = crate::path::paths(files@);
                assert(model::removals(a) + model::removals(b) =~= model::removals(a + b));
            }
            i = i + 1;
        }
        assert(all.take(all.len() as int) =~= all);
        add_effect(&mut r, Effect::ReleaseReservation(self.out_pdf.clone()));
        add_effect(&mut r, Effect::Reopen);
        self.pages = Vec::new();
        self.jobs = HashSet::new();
        self.busy = Busy::Idle;
        self.busy_since = None;
        self.scan_page = None;
        self.finished = false;
        assert(self@.pages =~= Seq::empty());
        assert(effects(r@) =~= model::reset(old(self)@).1);
        r
    }

    /// The new session has its own directory and its own document.
    pub fn reopened(&mut self, dir: FilePath, out_pdf: FilePath) -> (r: Vec<Effect>)
        ensures
            final(self)@ == model::reopened(old(self)@, dir@, out_pdf@).0,
            effects(r@) == model::reopened(old(self)@, dir@, out_pdf@).1,
    {
        self.dir = dir;
        self.out_pdf = out_pdf;
        let r = vec![Effect::Pages, Effect::Status("new session started".to_owned())];
        assert(effects(r@) =~= model::reopened(old(self)@, dir@, out_pdf@).1);
        r
    }

    /// Text is made of the page at place `i`, if it is wanted.
    fn start_text(&mut self, i: usize) -> (r: Vec<Effect>)
        requires
            i < old(self)@.pages.len(),
        ensures
            final(self)@ == model::request_text(old(self)@, i as int).0,
            effects(r@) == model::request_text(old(self)@, i as int).1,
    {
        let p = &self.pages[i];
        let id: PageId = p.id;
        let tried = match p.ocr_failed_gen {
            Some(g) => g == p.image_gen,
            None => false,
        };
        let idle = p.status == PageStatus::Ready && p.text.is_none() && !p.text_pending;
        if self.cfg.preview_ocr != PreviewOcr::Lazy || self.busy == Busy::Finishing
            || self.finished || !idle || self.has_job(id) || tried {
            return no_effects();
        }
        match copy_path(&self.pages[i].image) {
            Some(image) => {
                let job = Job::Ocr {
                    id,
                    image,
                    langs: self.cfg.langs.clone(),
                    dir: self.dir.clone(),
                };
                self.pages[i].text_pending = true;
                self.set_job(id);
                let r = vec![Effect::Pages, Effect::Spawn(job)];
                assert(effects(r@) =~= model::request_text(old(self)@, i as int).1);
                r
            },
            None => no_effects(),
        }
    }

    /// Answers a command. A refused one changes nothing and is answered with
    /// the reason.
    pub fn handle(&mut self, cmd: Cmd, now: u64) -> (r: Vec<Effect>)
        requires
            cmd is ScanNext ==> old(self)@.next_id < u32::MAX,
        ensures
            final(self)@ == model::command(old(self)@, cmd@, now).0,
            effects(r@) == model::command(old(self)@, cmd@, now).1,
    {
        if let Err(reason) = self.guard(&cmd) {
            return one_effect(Effect::Status(cat("blocked: ", reason.as_str())));
        }
        match cmd {
            Cmd::ScanNext { dpi, mode } => self.start_scan(dpi, mode, now),
            Cmd::CancelScan => {
                let r = vec![
                    Effect::CancelScan,
                    Effect::Status("cancelling scan…".to_owned()),
                ];
                assert(effects(r@) =~= model::command(old(self)@, cmd@, now).1);
                r
            },
            Cmd::Rescan { id, dpi, mode } => match self.position(id) {
                Some(i) => self.start_rescan(i, dpi, mode, now),
                None => no_effects(),
            },
            Cmd::Rotate(id, cw) => match self.position(id) {
                Some(i) => self.start_rotate(i, cw, now),
                None => no_effects(),
            },
            Cmd::Crop { id, x, y, w, h } => match self.position(id) {
                Some(i) => self.start_crop(i, x, y, w, h, now),
                None => no_effects(),
            },
            Cmd::Delete(id) => match self.position(id) {
                Some(i) => self.delete(i),
                None => no_effects(),
            },
            Cmd::Move { from, to } => self.move_page(from, to),
            Cmd::Finish => self.start_finish(now),
            Cmd::FinishTo { out, overwrite } => one_effect(
                Effect::ReserveTarget { out, overwrite },
            ),
            Cmd::NewSession => self.new_session(),
            Cmd::ListLangs => one_effect(Effect::ListLangs),
            Cmd::SetDevice(name) => {
                if !name.as_str().is_empty() {
                    self.device = name;
                }
                no_effects()
            },
            Cmd::SetLangs(langs) => {
                self.cfg.langs = langs;
                no_effects()
            },
            Cmd::RequestText(id) => match self.position(id) {
                Some(i) => self.start_text(i),
                None => no_effects(),
            },
        }
    }

    /// The place that the user chose for the document was claimed, or not.
    pub fn target_reserved(&mut self, result: Result<FilePath, String>, now: u64) -> (r: Vec<
        Effect,
    >)
        ensures
            final(self)@ == model::target_reserved(old(self)@, target_result(result), now).0,
            effects(r@) == model::target_reserved(old(self)@, target_result(result), now).1,
    {
        match result {
            Ok(out) => {
                let mut r: Vec<Effect> = no_effects();
                if !out.same(&self.out_pdf) {
                    add_effect(&mut r, Effect::ReleaseReservation(self.out_pdf.clone()));
                }
                self.out_pdf = out;
                let ghost mid = self@;
                let mut rest = self.start_finish(now);
                let ghost a = r@;
                let ghost b = rest@;
                r.append(&mut rest);
                assert(effects(r@) =~= effects(a) + effects(b));
                assert(effects(r@) =~= model::target_reserved(
                    old(self)@,
                    target_result(result),
                    now,
                ).1);
                r
            },
            Err(e) => one_effect(Effect::Status(cat("cannot save: ", e.as_str()))),
        }
    }

    /// What is left to do when the program ends.
    pub fn quit(&self) -> (r: Vec<Effect>)
        ensures
            effects(r@) == model::quit(self@),
    {
        if self.busy == Busy::Finishing {
            no_effects()
        } else {
            let r = vec![
                Effect::RemoveDir(self.dir.clone()),
                Effect::ReleaseReservation(self.out_pdf.clone()),
            ];
            assert(effects(r@) =~= model::quit(self@));
            r
        }
    }
}

/// A claimed place, or why it could not be claimed.
pub open spec fn target_result(r: Result<FilePath, String>) -> Result<Seq<u8>, Seq<char>> {
    match r {
        Ok(p) => Ok(p@),
        Err(e) => Err(e@),
    }
}

fn bumped(g: u32) -> (r: u32)
    ensures
        r == model::next_gen(g),
{
    if g == u32::MAX {
        0
    } else {
        g + 1
    }
}

fn no_effects() -> (r: Vec<Effect>)
    ensures
        effects(r@) == Seq::<EffectModel>::empty(),
{
    let r: Vec<Effect> = Vec::new();
    assert(effects(r@) =~= Seq::<EffectModel>::empty());
    r
}

fn one_effect(e: Effect) -> (r: Vec<Effect>)
    ensures
        effects(r@) == seq![e@],
{
    let r = vec![e];
    assert(effects(r@) =~= seq![e@]);
    r
}


impl Session {
    // ------------------------------------------------------ finished jobs

    /// Where the page with number `id` stands, if it waits for its deletion.
    fn pending_position(&self, id: PageId) -> (r: Option<usize>)
        ensures
            match r {
                Some(i) => i < self@.pages.len() && model::pending_at(self@, id) == Some(i as int),
                None => model::pending_at(self@, id) is None,
            },
    {
        match self.position(id) {
            Some(i) => if self.pages[i].status == PageStatus::DeletePending {
                Some(i)
            } else {
                None
            },
            None => None,
        }
    }

    /// The deletion that the page at place `i` waited for.
    fn finish_delete(&mut self, i: usize, note: &str) -> (r: Vec<Effect>)
        requires
            i < old(self)@.pages.len(),
        ensures
            final(self)@ == model::deferred_delete(old(self)@, i as int, note@).0,
            effects(r@) == model::deferred_delete(old(self)@, i as int, note@).1,
    {
        let mut r: Vec<Effect> = no_effects();
        let files = files_of(&self.pages[i].image);
        add_removals(&mut r, files.as_slice());
        self.pages.remove(i);
        add_effect(&mut r, Effect::Status(note.to_owned()));
        add_effect(&mut r, Effect::Pages);
        assert(effects(r@) =~= model::deferred_delete(old(self)@, i as int, note@).1);
        r
    }

    /// The page at place `i` has nothing going on any more.
    fn settle(&mut self, i: usize, status: PageStatus)
        requires
            i < old(self)@.pages.len(),
        ensures
            final(self)@ == (SessionModel {
                pages: old(self)@.pages.update(
                    i as int,
                    model::settled(old(self)@.pages[i as int], status),
                ),
                ..old(self)@
            }),
    {
        self.pages[i].status = status;
        self.pages[i].stage = None;
        self.pages[i].stage_started = None;
    }

    /// The page at place `i` failed.
    fn settle_failed(&mut self, i: usize, error: String)
        requires
            i < old(self)@.pages.len(),
        ensures
            final(self)@ == (SessionModel {
                pages: old(self)@.pages.update(
                    i as int,
                    PageModel {
                        error: Some(error@),
                        ..model::settled(old(self)@.pages[i as int], PageStatus::Failed)
                    },
                ),
                ..old(self)@
            }),
    {
        self.pages[i].status = PageStatus::Failed;
        self.pages[i].stage = None;
        self.pages[i].stage_started = None;
        self.pages[i].error = Some(error);
    }

    /// A capture ended: the scanner is free, and what was captured is cleaned.
    fn on_scan_done(
        &mut self,
        id: PageId,
        is_rescan: bool,
        dpi: u16,
        mode: String,
        path: FilePath,
        result: Result<bool, JobError>,
        now: u64,
    ) -> (r: Vec<Effect>)
        ensures
            final(self)@ == model::scan_done(
                old(self)@,
                id,
                is_rescan,
                dpi,
                mode@,
                path@,
                scan_result(result),
                now,
            ).0,
            effects(r@) == model::scan_done(
                old(self)@,
                id,
                is_rescan,
                dpi,
                mode@,
                path@,
                scan_result(result),
                now,
            ).1,
    {
        self.busy = Busy::Idle;
        self.busy_since = None;
        self.scan_page = None;
        assert(self@ == model::scanner_free(old(self)@));
        if let Some(i) = self.pending_position(id) {
            let called_off = match result {
                Err(JobError::Cancelled) => !is_rescan,
                _ => false,
            };
            return self.finish_delete(
                i,
                if called_off {
                    "scan cancelled"
                } else {
                    "scan cancelled and page deleted"
                },
            );
        }
        match result {
            Ok(used_fallback) => match self.position(id) {
                Some(i) => {
                    let job = Job::Clean {
                        id: self.pages[i].id,
                        is_rescan,
                        dpi,
                        mode,
                        path,
                        used_fallback,
                        cleanup: self.cfg.cleanup,
                        unpaper_extra_args: copy_texts(self.cfg.unpaper_extra_args.as_slice()),
                    };
                    self.start_page_job(i, Stage::Clean, job, now)
                },
                None => one_effect(Effect::Pages),
            },
            Err(JobError::Cancelled) => {
                if is_rescan {
                    if let Some(i) = self.position(id) {
                        let status = if self.pages[i].image.is_some() {
                            PageStatus::Ready
                        } else {
                            PageStatus::Failed
                        };
                        self.settle(i, status);
                    }
                    let r = vec![
                        Effect::Status("rescan cancelled; old page kept".to_owned()),
                        Effect::Pages,
                    ];
                    assert(effects(r@) =~= seq![
                        EffectModel::Status("rescan cancelled; old page kept"@),
                        EffectModel::Pages,
                    ]);
                    r
                } else {
                    if let Some(i) = self.position(id) {
                        self.pages.remove(i);
                    }
                    let r = vec![Effect::Status("scan cancelled".to_owned()), Effect::Pages];
                    assert(effects(r@) =~= seq![
                        EffectModel::Status("scan cancelled"@),
                        EffectModel::Pages,
                    ]);
                    r
                }
            },
            Err(JobError::Failed(e)) => {
                let line = cat3(
                    if is_rescan {
                        "rescan"
                    } else {
                        "scan"
                    },
                    " failed: ",
                    e.as_str(),
                );
                if let Some(i) = self.position(id) {
                    self.settle_failed(i, e);
                }
                let r = vec![Effect::Status(line), Effect::Pages];
                assert(effects(r@) =~= seq![EffectModel::Status(line@), EffectModel::Pages]);
                r
            },
        }
    }

    /// The announcement of the page at place `i`, which is ready.
    fn ready_effect(&self, i: usize) -> (r: Effect)
        requires
            i < self@.pages.len(),
        ensures
            r@ == model::ready_status(self@, self@.pages[i as int]),
    {
        let p = &self.pages[i];
        let note = if p.used_fallback {
            " - scanner rejected resolution/mode; page size may differ"
        } else if p.unpaper_deskewed || (self.cfg.cleanup == Cleanup::Legacy
            && self.cfg.unpaper_extra_args.len() == 0) {
            ""
        } else {
            " - unpaper cleanup unavailable; ocrmypdf deskews at finish"
        };
        Effect::Status(cat(page_line(p.id, " ready").as_str(), note))
    }

    /// The page at place `i` takes over its new image.
    fn adopt(
        &mut self,
        i: usize,
        image: FilePath,
        dpi: u16,
        mode: String,
        unpaper_deskewed: bool,
        used_fallback: bool,
    )
        requires
            i < old(self)@.pages.len(),
        ensures
            final(self)@ == (SessionModel {
                pages: old(self)@.pages.update(
                    i as int,
                    model::adopted(
                        old(self)@.pages[i as int],
                        image@,
                        dpi,
                        mode@,
                        unpaper_deskewed,
                        used_fallback,
                    ),
                ),
                ..old(self)@
            }),
    {
        let gen: u32 = self.pages[i].image_gen;
        self.pages[i].image = Some(image);
        self.pages[i].dpi = dpi;
        self.pages[i].mode = mode;
        self.pages[i].unpaper_deskewed = unpaper_deskewed;
        self.pages[i].used_fallback = used_fallback;
        self.pages[i].text = None;
        self.pages[i].image_gen = bumped(gen);
    }

    /// A page was cleaned: it takes over its new image. The files of the old
    /// one go only now.
    fn on_clean_done(
        &mut self,
        id: PageId,
        is_rescan: bool,
        dpi: u16,
        mode: String,
        image: FilePath,
        unpaper_deskewed: bool,
        used_fallback: bool,
        now: u64,
    ) -> (r: Vec<Effect>)
        ensures
            final(self)@ == model::clean_done(
                old(self)@,
                id,
                is_rescan,
                dpi,
                mode@,
                image@,
                unpaper_deskewed,
                used_fallback,
                now,
            ).0,
            effects(r@) == model::clean_done(
                old(self)@,
                id,
                is_rescan,
                dpi,
                mode@,
                image@,
                unpaper_deskewed,
                used_fallback,
                now,
            ).1,
    {
        self.end_job(id);
        if let Some(i) = self.pending_position(id) {
            return self.finish_delete(i, "page deleted");
        }
        match self.position(id) {
            Some(i) => {
                let ghost s = self@;
                let mut r: Vec<Effect> = no_effects();
                if is_rescan {
                    let old_files = files_of(&self.pages[i].image);
                    let gone = spare(old_files.as_slice(), &image);
                    add_removals(&mut r, gone.as_slice());
                }
                let ghost gone = model::removals(
                    model::replaced_files(s.pages[i as int], is_rescan, image@),
                );
                assert(effects(r@) =~= gone);
                let copy = image.clone();
                self.adopt(i, image, dpi, mode, unpaper_deskewed, used_fallback);
                if self.cfg.preview_ocr == PreviewOcr::Eager {
                    let job = Job::Ocr {
                        id,
                        image: copy,
                        langs: self.cfg.langs.clone(),
                        dir: self.dir.clone(),
                    };
                    let ghost a = r@;
                    let mut rest = self.start_page_job(i, Stage::Ocr, job, now);
                    let ghost b = rest@;
                    r.append(&mut rest);
                    assert(effects(r@) =~= effects(a) + effects(b));
                    r
                } else {
                    self.settle(i, PageStatus::Ready);
                    let e = self.ready_effect(i);
                    add_effect(&mut r, Effect::Pages);
                    add_effect(&mut r, e);
                    assert(effects(r@) =~= gone + seq![EffectModel::Pages, e@]);
                    r
                }
            },
            None => one_effect(Effect::Pages),
        }
    }

    /// The text of a page was made, or not.
    fn on_ocr_done(&mut self, id: PageId, result: Result<String, JobError>) -> (r: Vec<Effect>)
        ensures
            final(self)@ == model::ocr_done(old(self)@, id, text_result(result)).0,
            effects(r@) == model::ocr_done(old(self)@, id, text_result(result)).1,
    {
        self.end_job(id);
        if let Some(i) = self.pending_position(id) {
            return self.finish_delete(i, "page deleted");
        }
        match self.position(id) {
            Some(i) => {
                self.pages[i].text_pending = false;
                match result {
                    Ok(t) => {
                        self.pages[i].text = Some(t);
                    },
                    Err(JobError::Cancelled) => {},
                    Err(JobError::Failed(_)) => {
                        let gen: u32 = self.pages[i].image_gen;
                        self.pages[i].ocr_failed_gen = Some(gen);
                    },
                }
                if self.pages[i].status == PageStatus::Processing {
                    self.settle(i, PageStatus::Ready);
                    let e = self.ready_effect(i);
                    let r = vec![Effect::Pages, e];
                    assert(effects(r@) =~= seq![EffectModel::Pages, e@]);
                    r
                } else {
                    one_effect(Effect::Pages)
                }
            },
            None => one_effect(Effect::Pages),
        }
    }

    /// The image of a page was changed in place, or not.
    fn on_edit_done(
        &mut self,
        id: PageId,
        turned: bool,
        verb: &str,
        result: Result<Option<String>, JobError>,
    ) -> (r: Vec<Effect>)
        ensures
            final(self)@ == model::edit_done(
                old(self)@,
                id,
                turned,
                verb@,
                edit_result(result),
            ).0,
            effects(r@) == model::edit_done(
                old(self)@,
                id,
                turned,
                verb@,
                edit_result(result),
            ).1,
    {
        self.end_job(id);
        if let Some(i) = self.pending_position(id) {
            return self.finish_delete(i, "page deleted");
        }
        if let Some(i) = self.position(id) {
            match result {
                Ok(t) => {
                    let gen: u32 = self.pages[i].image_gen;
                    let before = self.pages[i].rotated;
                    self.pages[i].status = PageStatus::Ready;
                    self.pages[i].stage = None;
                    self.pages[i].stage_started = None;
                    self.pages[i].rotated = before || turned;
                    self.pages[i].image_gen = bumped(gen);
                    if t.is_some() {
                        self.pages[i].text = t;
                    }
                },
                Err(JobError::Cancelled) => {
                    self.settle(i, PageStatus::Ready);
                },
                Err(JobError::Failed(e)) => {
                    self.settle_failed(i, e);
                },
            }
        }
        let line = page_line(id, verb);
        let r = vec![Effect::Pages, Effect::Status(line)];
        assert(effects(r@) =~= seq![EffectModel::Pages, EffectModel::Status(line@)]);
        r
    }

    /// The document was built, or not.
    fn on_finish_done(&mut self, result: Result<(BuildOutcome, u64), String>) -> (r: Vec<Effect>)
        ensures
            final(self)@ == model::finish_done(old(self)@, build_result(result)).0,
            effects(r@) == model::finish_done(old(self)@, build_result(result)).1,
    {
        self.busy = Busy::Idle;
        self.busy_since = None;
        match result {
            Ok((outcome, size_kb)) => {
                self.finished = true;
                let line = cat5(
                    "done: ",
                    self.out_pdf.display().as_str(),
                    " (",
                    u64_text(size_kb).as_str(),
                    " KB) - o to open",
                );
                let r = vec![
                    Effect::RemoveDir(self.dir.clone()),
                    Effect::Status(line),
                    Effect::Finished {
                        outcome: Some(outcome),
                        path: self.out_pdf.clone(),
                        size_kb,
                    },
                    Effect::Pages,
                ];
                assert(effects(r@) =~= model::finish_done(old(self)@, build_result(result)).1);
                r
            },
            Err(e) => {
                let r = vec![
                    Effect::Status(cat("PDF build failed: ", e.as_str())),
                    Effect::Finished { outcome: None, path: self.out_pdf.clone(), size_kb: 0 },
                    Effect::Pages,
                ];
                assert(effects(r@) =~= model::finish_done(old(self)@, build_result(result)).1);
                r
            },
        }
    }

    /// A job ended: the page it worked on goes on to its next stage.
    pub fn handle_job_done(&mut self, done: JobDone, now: u64) -> (r: Vec<Effect>)
        ensures
            final(self)@ == model::job_done(old(self)@, done@, now).0,
            effects(r@) == model::job_done(old(self)@, done@, now).1,
    {
        match done {
            JobDone::Scan { id, is_rescan, dpi, mode, path, result } => self.on_scan_done(
                id,
                is_rescan,
                dpi,
                mode,
                path,
                result,
                now,
            ),
            JobDone::Clean {
                id,
                is_rescan,
                dpi,
                mode,
                image,
                unpaper_deskewed,
                used_fallback,
            } => self.on_clean_done(
                id,
                is_rescan,
                dpi,
                mode,
                image,
                unpaper_deskewed,
                used_fallback,
                now,
            ),
            JobDone::Ocr { id, result } => self.on_ocr_done(id, result),
            JobDone::Rotate { id, result } => self.on_edit_done(id, true, " rotated", result),
            JobDone::Crop { id, result } => self.on_edit_done(id, false, " cropped", result),
            JobDone::Finish { result } => self.on_finish_done(result),
        }
    }
}

} // verus!
