//! What the calls promise their callers, in plain values.

use vstd::prelude::*;

use crate::backend::pdf::{BuildOutcome, BuildRun, Delivery, OutputLadder};
use crate::backend::process::{Output, RunError};
use crate::backend::scan::{ScanAction, ScanRun};
use crate::config;
use crate::config::{Cleanup, Config, ConfigError, LoadedConfig, ScanSection};
use crate::path::FilePath;
use crate::session;
use crate::session::model;
use crate::session::model::CmdModel;
use crate::session::{Cmd, Effect, Job, JobDone, PageStatus, Session};
use crate::tui::app::{App, AppEffect};
use crate::tui::cropping;
use crate::tui::editor::{EditorReply, EditorState, ImageRect};
use crate::tui::input::{Key, KeyCode};
use crate::tui::model::EditorFacts;

verus! {

// ----------------------------------------------------------------------- file

/// Every key that a section of a file sets is what is loaded, and every key
/// that it leaves out stays what it was.
pub proof fn law_call_apply_section(
    base: Config,
    s: ScanSection,
    output: Option<Result<FilePath, ConfigError>>,
    r: Result<LoadedConfig, ConfigError>,
)
    requires
        call_ensures(config::apply_section, (base, s, output), r),
    ensures
        r matches Ok(l) ==> {
            &&& s.dpi matches Some(v) ==> l.dpi == v
            &&& s.dpi is None ==> l.dpi == base.dpi
            &&& s.mode matches Some(v) ==> l.mode@ == v@
            &&& s.mode is None ==> l.mode@ == base.mode@
            &&& s.langs matches Some(v) ==> l.langs@ == v@
            &&& s.langs is None ==> l.langs@ == base.langs@
            &&& s.device matches Some(v) ==> l.device@ == v@
            &&& s.device is None ==> l.device@ == base.device@
            &&& s.notify matches Some(v) ==> l.notify == v
            &&& s.notify is None ==> l.notify == base.notify
            &&& output matches Some(Ok(p)) ==> l.output@ == p@
            &&& output is None ==> l.output@ == base.output@
            &&& s.preview_ocr is None ==> l.preview_ocr == base.preview_ocr
            &&& l.cleanup_explicit == (s.cleanup is Some)
            &&& l.unpaper_legacy == s.unpaper
        },
{
}

/// A superseded `unpaper` key counts only where no strategy was named, and
/// nothing else of the configuration changes with it.
pub proof fn law_call_migrate(l: LoadedConfig, c: Config)
    requires
        call_ensures(config::migrate_unpaper, (l,), c),
    ensures
        c.dpi == l.dpi && c.mode@ == l.mode@ && c.langs@ == l.langs@ && c.device@ == l.device@,
        c.output@ == l.output@ && c.preview_ocr == l.preview_ocr && c.notify == l.notify,
        l.cleanup_explicit || l.unpaper_legacy is None ==> c.cleanup == l.cleanup,
        !l.cleanup_explicit && l.unpaper_legacy == Some(true) ==> c.cleanup
            == Cleanup::Conservative,
        !l.cleanup_explicit && l.unpaper_legacy == Some(false) ==> c.cleanup == Cleanup::Off,
{
    assert(c@ == (config::ConfigView {
        cleanup: config::migrated(l.cleanup, l.cleanup_explicit, l.unpaper_legacy),
        ..l@
    }));
}

// -------------------------------------------------------------------- session

/// The build that is begun is told that a page was turned by hand wherever one
/// was.
pub proof fn law_call_finish(s: &mut Session, now: u64, r: Vec<Effect>, i: int)
    requires
        call_ensures(Session::handle, (s, Cmd::Finish, now), r),
        model::refusal(old(s)@, CmdModel::Finish) is None,
        0 <= i < old(s)@.pages.len(),
        old(s)@.pages[i].rotated,
    ensures
        r@.len() == 3,
        r@[2] matches Effect::Spawn(Job::Finish { plan }) && plan.manually_rotated,
{
    let fx = session::effects(r@);
    assert(fx.len() == r@.len());
    assert(fx[2] == r@[2]@);
    assert(fx[2] is Spawn);
}

/// A page that takes a new image over has no text of the old one.
pub proof fn law_call_clean_done(
    s: &mut Session,
    id: u32,
    is_rescan: bool,
    dpi: u16,
    mode: String,
    image: FilePath,
    unpaper_deskewed: bool,
    used_fallback: bool,
    now: u64,
    r: Vec<Effect>,
)
    requires
        call_ensures(
            Session::handle_job_done,
            (
                s,
                JobDone::Clean {
                    id,
                    is_rescan,
                    dpi,
                    mode,
                    image,
                    unpaper_deskewed,
                    used_fallback,
                },
                now,
            ),
            r,
        ),
        model::find(old(s)@.pages, id) matches Some(i) && old(s)@.pages[i].status
            != PageStatus::DeletePending,
    ensures
        ({
            let i = model::find(old(s)@.pages, id)->0;
            let p = final(s)@.pages[i];
            p.text is None && p.image == Some(image@) && p.dpi == dpi && p.mode == mode@
        }),
{
    session::laws::lemma_find(old(s)@.pages, id);
}

// --------------------------------------------------------------------- editor

/// With room on all sides, the keys take the rectangle where they point.
pub proof fn law_call_editor_keys(
    e: &mut EditorState,
    q: ImageRect,
    key: Key,
    orig: (u32, u32),
    ready: bool,
    r: EditorReply,
)
    requires
        call_ensures(EditorState::handle_key, (e, key, orig, ready), r),
        old(e).crop == Some(q),
        cropping::lies_in(q, orig),
        q.x >= cropping::fiftieth(orig),
        q.y >= cropping::fiftieth(orig),
        q.x + q.w + cropping::fiftieth(orig) <= orig.0,
        q.y + q.h + cropping::fiftieth(orig) <= orig.1,
    ensures
        ({
            let n = final(e).crop->0;
            let step = cropping::fiftieth(orig);
            let plain = !key.alt;
            let down = key.code == KeyCode::Down || (plain && key.code == KeyCode::Char('j'));
            let up = key.code == KeyCode::Up || (plain && key.code == KeyCode::Char('k'));
            let right = key.code == KeyCode::Right || (plain && key.code == KeyCode::Char('l'));
            let left = key.code == KeyCode::Left || (plain && key.code == KeyCode::Char('h'));
            &&& down || up || right || left ==> final(e).crop is Some && n.w == q.w && n.h == q.h
            &&& down ==> n.y == q.y + step && n.x == q.x
            &&& up ==> n.y == q.y - step && n.x == q.x
            &&& right ==> n.x == q.x + step && n.y == q.y
            &&& left ==> n.x == q.x - step && n.y == q.y
        }),
{
    cropping::law_keys_move(*old(e), q, key, orig, ready);
}

// ------------------------------------------------------------------ interface

/// The keys for the selected page send the session the command for just that
/// page.
pub proof fn law_call_page_keys(a: &mut App, key: Key, f: EditorFacts, r: Vec<AppEffect>)
    requires
        call_ensures(App::handle_key, (a, key, f), r),
        old(a)@.overlay is None,
        old(a)@.editor is None,
        old(a)@.selected < old(a)@.pages.len(),
    ensures
        ({
            let id = old(a)@.pages[old(a)@.selected as int].id;
            &&& key.code == KeyCode::Char('R') ==> r@.len() == 1 && (r@[0] matches AppEffect::Send(
                Cmd::Rotate(n, cw),
            ) && n == id && cw)
            &&& key.code == KeyCode::Char('<') ==> r@.len() == 1 && (r@[0] matches AppEffect::Send(
                Cmd::Rotate(n, cw),
            ) && n == id && !cw)
            &&& key.code == KeyCode::Char('r') ==> r@.len() == 1 && (r@[0] matches AppEffect::Send(
                Cmd::Rescan { id: n, dpi, mode },
            ) && n == id && dpi == old(a)@.dpi && mode@ == old(a)@.mode)
        }),
{
    let fx = crate::tui::app::effects(r@);
    assert(fx.len() == r@.len());
    if r@.len() > 0 {
        assert(fx[0] == r@[0]@);
    }
}

// ------------------------------------------------------------------- programs

/// The end of an attempt at a capture: an image is handed over, with the word
/// on whether an earlier attempt had failed; work that was called off ends;
/// and anything else leads to the next attempt.
pub proof fn law_call_attempt_ended(
    run: &mut ScanRun,
    result: Result<Output, RunError>,
    r: Option<ScanAction>,
)
    requires
        call_ensures(ScanRun::ended, (run, result), r),
    ensures
        ({
            let good = result is Ok && result->Ok_0.success && result->Ok_0.stdout@.len() > 0;
            let off = result matches Err(RunError::Cancelled);
            &&& good ==> (r matches Some(ScanAction::Deliver { bytes, outcome }) && bytes@
                == result->Ok_0.stdout@ && outcome.used_fallback == (old(run).tried > 0))
            &&& off ==> (r matches Some(ScanAction::Cancelled))
            &&& !good && !off ==> r is None && final(run).tried == old(run).tried + 1
                && final(run).attempts == old(run).attempts
        }),
{
}

/// The end of a step of a build: the next step is due, the build has failed,
/// or the document is delivered where it was to go, with its text where that
/// could be added and else without.
pub proof fn law_call_step_ended(
    run: &mut BuildRun,
    result: Result<Output, RunError>,
    logfile: &FilePath,
    r: Result<Option<Delivery>, String>,
)
    requires
        call_ensures(BuildRun::ended, (run, result, logfile), r),
    ensures
        ({
            let good = result is Ok && result->Ok_0.success;
            let assembling = old(run).done < old(run).steps@.len();
            &&& assembling && good ==> (r matches Ok(None)) && final(run).done == old(run).done + 1
            &&& assembling && !good ==> r is Err
            &&& !assembling ==> (r matches Ok(Some(d)) && d.out@ == old(run).out@ && d.part@
                == old(run).part@)
            &&& !assembling && good ==> (r matches Ok(Some(d)) && d.copy_from is None && d.outcome
                == BuildOutcome::Searchable)
            &&& !assembling && !good ==> (r matches Ok(Some(d)) && d.outcome
                == BuildOutcome::WithoutTextLayer && (d.copy_from matches Some(p) && p@
                == old(run).raw@))
        }),
{
}

/// A place that is taken leads to the next one of the same moment.
pub proof fn law_call_taken(l: &mut OutputLadder)
    requires
        call_ensures(OutputLadder::taken, (l,), ()),
    ensures
        final(l).n == old(l).n + 1,
        final(l).dir == old(l).dir,
        final(l).stamp == old(l).stamp,
{
}

} // verus!
