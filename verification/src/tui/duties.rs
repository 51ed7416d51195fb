//! What the interface owes its user: what each key and click leads to.

use vstd::prelude::*;

use crate::backend::filedialog::SaveChoiceView;
use crate::backend::pdf::BuildOutcome;
use crate::check;
use crate::check::{ReportSource, ReportView};
use crate::config::{ConfigView, PreviewOcr};
use crate::notify::Urgency;
use crate::path;
use crate::session::model::{CmdModel, MetaModel, PageShown};
use crate::session::{Busy, PageId, PageStatus, Stage};
use crate::text;
use crate::tui::app::{Action, Pane};
use crate::tui::editor::ImageRect;
use crate::tui::input::{Key, KeyCode, Mouse, MouseKind, Rect};
use crate::tui::model;
use crate::tui::model::{AppEffectModel, AppModel, AppStep, EditorFacts};
use crate::tui::overlays;
use crate::tui::overlays::{ConfirmKindView, ConfirmView, LangPickerView, OverlayView};

verus! {

/// Nothing lies over the main view.
pub open spec fn bare(s: AppModel) -> bool {
    s.overlay is None && s.editor is None
}

/// Nothing happened at all.
pub open spec fn idle_step(step: AppStep, s: AppModel) -> bool {
    step.0 == s && step.1.len() == 0
}

/// One command went to the session, and nothing else happened.
pub open spec fn only_sends(step: AppStep, s: AppModel, cmd: CmdModel) -> bool {
    step.0 == s && step.1 == seq![AppEffectModel::Send(cmd)]
}

/// One line was added to the status, and nothing else happened.
pub open spec fn only_says(step: AppStep, s: AppModel, msg: Seq<char>) -> bool {
    &&& step.1.len() == 0
    &&& step.0.status_lines.len() > 0
    &&& step.0.status_lines.last() == msg
    &&& step.0 == (AppModel { status_lines: step.0.status_lines, status_scroll: 0, ..s })
}

/// The session works on nothing exclusive, as far as is known.
pub open spec fn at_rest(s: AppModel) -> bool {
    s.meta is None || s.meta->0.busy == Busy::Idle
}

/// The document of the session has been built, as far as is known.
pub open spec fn built(s: AppModel) -> bool {
    s.meta is Some && s.meta->0.finished
}

/// Some page waits to be deleted.
pub open spec fn deletion_waits(s: AppModel) -> bool {
    exists|i: int|
        0 <= i < s.pages.len() && (#[trigger] s.pages[i]).status == PageStatus::DeletePending
}

proof fn lemma_deletion_waits(s: AppModel)
    ensures
        deletion_waits(s) <==> model::any_pending(s.pages),
{
    if deletion_waits(s) {
        let i = choose|i: int|
            0 <= i < s.pages.len() && (#[trigger] s.pages[i]).status == PageStatus::DeletePending;
        assert(model::shown_delete_pending(s.pages[i]));
    }
    if model::any_pending(s.pages) {
        let i = choose|i: int|
            0 <= i < s.pages.len() && model::shown_delete_pending(#[trigger] s.pages[i]);
        assert(s.pages[i].status == PageStatus::DeletePending);
    }
}

proof fn lemma_said(s: AppModel, msg: Seq<char>)
    ensures
        model::say(s, msg).status_lines.len() > 0,
        model::say(s, msg).status_lines.last() == msg,
{
    let all = s.status_lines.push(msg);
    if all.len() > model::STATUS_MAX {
        assert(all.skip(model::STATUS_DROP as int).last() == msg);
    }
}

// ------------------------------------------------------------------- captures

/// `s` captures the next page with the settings that are shown, as does Enter
/// in the page list, once a scanner is known, nothing else is going on, the
/// document is not built and no page waits to be deleted.
pub proof fn law_scan_key(s: AppModel, key: Key, f: EditorFacts)
    requires
        bare(s),
        key.code == KeyCode::Char('s') || (key.code == KeyCode::Enter && s.focus == Pane::Sidebar),
        s.device_known,
        at_rest(s),
        !built(s),
        !deletion_waits(s),
    ensures
        only_sends(
            model::key_routed(s, key, f),
            s,
            CmdModel::ScanNext { dpi: s.dpi, mode: s.mode },
        ),
{
    lemma_deletion_waits(s);
}

/// While the scanner is still looked for, `s` keeps the wish for later, and
/// says so once.
pub proof fn law_scan_key_waits(s: AppModel, key: Key, f: EditorFacts)
    requires
        bare(s),
        key.code == KeyCode::Char('s'),
        !s.device_known,
    ensures
        s.pending_scan ==> idle_step(model::key_routed(s, key, f), s),
        !s.pending_scan ==> only_says(
            model::key_routed(s, key, f),
            (AppModel { pending_scan: true, ..s }),
            "waiting for scanner - scan will start when detected"@,
        ),
{
    lemma_said(
        AppModel { pending_scan: true, ..s },
        "waiting for scanner - scan will start when detected"@,
    );
}

/// Where a capture is not possible, `s` says why: the document is being
/// built, it is built already, the scanner is busy, or a page waits to be
/// deleted.
pub proof fn law_scan_key_refuses(s: AppModel, key: Key, f: EditorFacts)
    requires
        bare(s),
        key.code == KeyCode::Char('s'),
        s.device_known,
    ensures
        s.meta matches Some(m) && m.busy == Busy::Finishing ==> only_says(
            model::key_routed(s, key, f),
            s,
            "blocked: building PDF - scan once it finishes"@,
        ),
        s.meta matches Some(m) && m.busy != Busy::Finishing && m.finished ==> only_says(
            model::key_routed(s, key, f),
            s,
            "blocked: PDF already built - press n for a new session"@,
        ),
        s.meta matches Some(m) && m.busy == Busy::Scanning && !m.finished ==> only_says(
            model::key_routed(s, key, f),
            s,
            "blocked: scanner busy - press Esc to cancel"@,
        ),
        at_rest(s) && !built(s) && deletion_waits(s) ==> only_says(
            model::key_routed(s, key, f),
            s,
            "blocked: waiting for deferred delete"@,
        ),
{
    lemma_deletion_waits(s);
    lemma_said(s, "blocked: building PDF - scan once it finishes"@);
    lemma_said(s, "blocked: PDF already built - press n for a new session"@);
    lemma_said(s, "blocked: scanner busy - press Esc to cancel"@);
    lemma_said(s, "blocked: waiting for deferred delete"@);
}

/// Esc and `c` cancel a capture that is going on, and do nothing otherwise.
pub proof fn law_cancel_keys(s: AppModel, key: Key, f: EditorFacts)
    requires
        bare(s),
        key.code == KeyCode::Esc || (key.code == KeyCode::Char('c') && !key.ctrl),
    ensures
        s.meta matches Some(m) && m.busy == Busy::Scanning ==> only_sends(
            model::key_routed(s, key, f),
            s,
            CmdModel::CancelScan,
        ),
        !(s.meta matches Some(m) && m.busy == Busy::Scanning) ==> idle_step(
            model::key_routed(s, key, f),
            s,
        ),
{
}

// ---------------------------------------------------------------------- pages

/// `r` captures the selected page again with the settings that are shown, `R`
/// turns it clockwise, `<` turns it the other way. Without a page they do
/// nothing.
pub proof fn law_page_keys(s: AppModel, key: Key, f: EditorFacts)
    requires
        bare(s),
    ensures
        ({
            let step = model::key_routed(s, key, f);
            let id = s.pages[s.selected as int].id;
            &&& s.selected < s.pages.len() ==> {
                &&& key.code == KeyCode::Char('r') ==> only_sends(
                    step,
                    s,
                    CmdModel::Rescan { id, dpi: s.dpi, mode: s.mode },
                )
                &&& key.code == KeyCode::Char('R') ==> only_sends(
                    step,
                    s,
                    CmdModel::Rotate(id, true),
                )
                &&& key.code == KeyCode::Char('<') ==> only_sends(
                    step,
                    s,
                    CmdModel::Rotate(id, false),
                )
            }
            &&& s.selected >= s.pages.len() && (key.code == KeyCode::Char('r') || key.code
                == KeyCode::Char('R') || key.code == KeyCode::Char('<') || key.code
                == KeyCode::Char('d')) ==> idle_step(step, s)
        }),
{
}

/// `d` deletes the selected page: one that is ready or being worked on only
/// after a question that names it, any other at once. Answering the question
/// with `y` or Enter deletes that very page; `n` and Esc delete nothing.
pub proof fn law_delete_key(s: AppModel, key: Key, answer: Key, f: EditorFacts)
    requires
        bare(s),
        key.code == KeyCode::Char('d'),
        s.selected < s.pages.len(),
    ensures
        ({
            let p = s.pages[s.selected as int];
            let step = model::key_routed(s, key, f);
            let then = model::key_routed(step.0, answer, f);
            if p.status == PageStatus::Ready || p.status == PageStatus::Processing {
                &&& step.1.len() == 0
                &&& step.0 == (AppModel { overlay: step.0.overlay, ..s })
                &&& step.0.overlay matches Some(OverlayView::Confirm(c)) && c.title
                    == "Delete page "@ + text::dec(p.id as nat) + "?"@
                &&& answer.code == KeyCode::Char('y') || answer.code == KeyCode::Enter
                    ==> only_sends(then, s, CmdModel::Delete(p.id))
                &&& answer.code == KeyCode::Char('n') || answer.code == KeyCode::Esc ==> idle_step(
                    then,
                    s,
                )
            } else {
                only_sends(step, s, CmdModel::Delete(p.id))
            }
        }),
{
}

/// In the page list `J` and Right move the selected page one place towards
/// the end, `K` and Left one place towards the beginning, and the page stays
/// selected; at the ends they do nothing.
pub proof fn law_move_keys(s: AppModel, key: Key, f: EditorFacts)
    requires
        bare(s),
        s.focus == Pane::Sidebar,
        s.selected < s.pages.len(),
    ensures
        ({
            let step = model::key_routed(s, key, f);
            let n = s.selected as int;
            &&& key.code == KeyCode::Char('J') || key.code == KeyCode::Right ==> if n + 1
                < s.pages.len() {
                only_sends(
                    step,
                    (AppModel { selected: (n + 1) as nat, ..s }),
                    CmdModel::Move { from: n, to: n + 1 },
                )
            } else {
                idle_step(step, s)
            }
            &&& key.code == KeyCode::Char('K') || key.code == KeyCode::Left ==> if n > 0 {
                only_sends(
                    step,
                    (AppModel { selected: (n - 1) as nat, ..s }),
                    CmdModel::Move { from: n, to: n - 1 },
                )
            } else {
                idle_step(step, s)
            }
        }),
{
}

/// In the page list `j` and Down select the next page, `k` and Up the one
/// before; the text begins at its top. In the text pane they scroll by a
/// line. In the preview they do nothing.
pub proof fn law_up_and_down(s: AppModel, key: Key, f: EditorFacts)
    requires
        bare(s),
        s.text_scroll < usize::MAX,
    ensures
        ({
            let step = model::key_routed(s, key, f);
            let down = key.code == KeyCode::Char('j') || key.code == KeyCode::Down;
            let up = key.code == KeyCode::Char('k') || key.code == KeyCode::Up;
            let n = s.selected;
            &&& down || up ==> step.1.len() == 0
            &&& s.focus == Pane::Sidebar && down ==> step.0 == (if n + 1 < s.pages.len() {
                AppModel { selected: n + 1, text_scroll: 0, ..s }
            } else {
                s
            })
            &&& s.focus == Pane::Sidebar && up ==> step.0 == (if n > 0 {
                AppModel { selected: (n - 1) as nat, text_scroll: 0, ..s }
            } else {
                s
            })
            &&& s.focus == Pane::Text && down ==> step.0 == (AppModel {
                text_scroll: s.text_scroll + 1,
                ..s
            })
            &&& s.focus == Pane::Text && up ==> step.0 == (if s.text_scroll > 0 {
                AppModel { text_scroll: (s.text_scroll - 1) as nat, ..s }
            } else {
                s
            })
            &&& s.focus == Pane::Preview && (up || down) ==> step.0 == s
        }),
{
}

/// A digit selects the page at that place, counted from one, where there is
/// one; the text begins at its top.
pub proof fn law_digit_keys(s: AppModel, c: char, key: Key, f: EditorFacts)
    requires
        bare(s),
        key.code == KeyCode::Char(c),
        '1' <= c <= '9',
    ensures
        ({
            let n = c as int - '1' as int;
            let step = model::key_routed(s, key, f);
            &&& n < s.pages.len() ==> step.0 == (AppModel {
                selected: n as nat,
                text_scroll: 0,
                ..s
            })
            &&& n >= s.pages.len() ==> step.0 == s
            &&& step.1.len() == 0
        }),
{
}

/// Tab goes from the page list to the preview, to the text and round again;
/// BackTab goes the other way. The text begins at its top.
pub proof fn law_tab_keys(s: AppModel, key: Key, f: EditorFacts)
    requires
        bare(s),
        key.code == KeyCode::Tab || key.code == KeyCode::BackTab,
    ensures
        ({
            let step = model::key_routed(s, key, f);
            let there = step.0.focus;
            &&& step.0 == (AppModel { focus: there, text_scroll: 0, ..s })
            &&& step.1.len() == 0
            &&& key.code == KeyCode::Tab ==> {
                &&& s.focus == Pane::Sidebar ==> there == Pane::Preview
                &&& s.focus == Pane::Preview ==> there == Pane::Text
                &&& s.focus == Pane::Text ==> there == Pane::Sidebar
            }
            &&& key.code == KeyCode::BackTab ==> {
                &&& s.focus == Pane::Sidebar ==> there == Pane::Text
                &&& s.focus == Pane::Preview ==> there == Pane::Sidebar
                &&& s.focus == Pane::Text ==> there == Pane::Preview
            }
        }),
{
}

// ------------------------------------------------------------------- settings

/// `m` goes from gray to color, from color to lineart, and from anything else
/// to gray, and says so; not while the document is being built.
pub proof fn law_mode_key(s: AppModel, key: Key, f: EditorFacts)
    requires
        bare(s),
        key.code == KeyCode::Char('m'),
    ensures
        ({
            let step = model::key_routed(s, key, f);
            let busy = s.meta matches Some(m) && m.busy == Busy::Finishing;
            &&& busy ==> idle_step(step, s)
            &&& !busy && s.mode == "gray"@ ==> only_says(
                step,
                (AppModel { mode: "color"@, ..s }),
                "mode: "@ + "color"@,
            )
            &&& !busy && s.mode == "color"@ ==> only_says(
                step,
                (AppModel { mode: "lineart"@, ..s }),
                "mode: "@ + "lineart"@,
            )
            &&& !busy && s.mode == "lineart"@ ==> only_says(
                step,
                (AppModel { mode: "gray"@, ..s }),
                "mode: "@ + "gray"@,
            )
        }),
{
    reveal_strlit("gray");
    reveal_strlit("color");
    reveal_strlit("lineart");
    assert("gray"@.len() == 4 && "color"@.len() == 5 && "lineart"@.len() == 7);
    lemma_said(AppModel { mode: "color"@, ..s }, "mode: "@ + "color"@);
    lemma_said(AppModel { mode: "lineart"@, ..s }, "mode: "@ + "lineart"@);
    lemma_said(AppModel { mode: "gray"@, ..s }, "mode: "@ + "gray"@);
}

/// One of the resolutions on offer.
pub open spec fn offered(dpi: int) -> bool {
    dpi == 150 || dpi == 200 || dpi == 300 || dpi == 600
}

/// `+` goes to the smallest resolution on offer that is larger than the
/// current one, `-` to the largest that is smaller, as long as there is one;
/// at the ends the last one on offer is taken. The new resolution is said.
/// Nothing of this happens while the document is being built.
pub proof fn law_dpi_keys(s: AppModel, key: Key, f: EditorFacts, other: int)
    requires
        bare(s),
        key.code == KeyCode::Char('+') || key.code == KeyCode::Char('=') || key.code
            == KeyCode::Char('-') || key.code == KeyCode::Char('_'),
    ensures
        ({
            let step = model::key_routed(s, key, f);
            let busy = s.meta matches Some(m) && m.busy == Busy::Finishing;
            let up = key.code == KeyCode::Char('+') || key.code == KeyCode::Char('=');
            let new = step.0.dpi;
            &&& busy ==> idle_step(step, s)
            &&& !busy ==> {
                &&& offered(new as int)
                &&& only_says(step, (AppModel { dpi: new, ..s }), "dpi: "@ + text::dec(new as nat))
                &&& up && s.dpi < 600 ==> new > s.dpi && !(offered(other) && s.dpi < other < new)
                &&& up && s.dpi >= 600 ==> new == 600
                &&& !up && s.dpi > 150 ==> new < s.dpi && !(offered(other) && new < other < s.dpi)
                &&& !up && s.dpi <= 150 ==> new == 150
            }
        }),
{
    let d: u16 = model::dpi_stepped(
        s.dpi,
        if key.code == KeyCode::Char('+') || key.code == KeyCode::Char('=') {
            1
        } else {
            -1
        },
    );
    lemma_said(AppModel { dpi: d, ..s }, "dpi: "@ + text::dec(d as nat));
}

/// `L` opens the choice of languages, with the current ones chosen and the
/// cursor at the top, and asks which are installed.
pub proof fn law_langs_key(s: AppModel, key: Key, f: EditorFacts)
    requires
        bare(s),
        key.code == KeyCode::Char('L'),
    ensures
        ({
            let step = model::key_routed(s, key, f);
            &&& only_sends(step, (AppModel { overlay: step.0.overlay, ..s }), CmdModel::ListLangs)
            &&& step.0.overlay matches Some(OverlayView::LangPicker(p)) && p.selected
                == text::split(s.cfg.langs, '+') && p.loading && p.cursor == 0 && p.available.len()
                == 0
        }),
{
}

// ------------------------------------------------------------------- document

/// The document can be asked for.
pub open spec fn may_build(s: AppModel) -> bool {
    &&& !s.dialog_in_flight
    &&& s.pages.len() > 0
    &&& at_rest(s)
    &&& !built(s)
    &&& forall|i: int|
        0 <= i < s.pages.len() ==> ((#[trigger] s.pages[i]).status == PageStatus::Ready || (
        s.pages[i].status == PageStatus::Processing && s.pages[i].stage == Some(Stage::Ocr)))
}

/// `f` opens the save dialog where the document would go, with its name
/// filled in, once every page is ready or only its text is still being read;
/// otherwise it does nothing.
pub proof fn law_build_key(s: AppModel, key: Key, f: EditorFacts)
    requires
        bare(s),
        key.code == KeyCode::Char('f'),
    ensures
        ({
            let step = model::key_routed(s, key, f);
            &&& !may_build(s) ==> idle_step(step, s)
            &&& may_build(s) ==> {
                &&& step.0 == (AppModel { dialog_in_flight: true, ..s })
                &&& step.1.len() == 1
                &&& step.1[0] matches AppEffectModel::SaveDialog { dir, filename, title } && title
                    == "Save PDF as"@ && (s.meta matches Some(m) ==> (path::parent(m.output_path)
                    matches Some(d) ==> d.len() > 0 ==> dir == d) && (path::file_name(
                    m.output_path,
                ) matches Some(n) ==> filename == path::lossy(n)))
            }
        }),
{
    if may_build(s) {
        assert forall|i: int| 0 <= i < s.pages.len() implies model::buildable(
            #[trigger] s.pages[i],
        ) by {}
    }
    if model::allowed(s, Action::Finish) {
        assert forall|i: int| 0 <= i < s.pages.len() implies (#[trigger] s.pages[i]).status
            == PageStatus::Ready || (s.pages[i].status == PageStatus::Processing
            && s.pages[i].stage == Some(Stage::Ocr)) by {
            assert(model::buildable(s.pages[i]));
        }
    }
}

/// A place chosen in the save dialog is where the document goes, over
/// whatever is there; a dialog that was cancelled builds nothing. Either way
/// the dialog is over.
pub proof fn law_save_dialog_ends(s: AppModel, choice: SaveChoiceView)
    ensures
        ({
            let step = model::dialog_ended(s, choice);
            let t = AppModel { dialog_in_flight: false, ..s };
            &&& !step.0.dialog_in_flight
            &&& choice matches SaveChoiceView::Chosen(out) ==> {
                &&& step.1 == seq![
                    AppEffectModel::Send(CmdModel::FinishTo { out, overwrite: true }),
                ]
                &&& only_says(
                    (step.0, Seq::empty()),
                    t,
                    "saving to "@ + path::lossy(out),
                )
            }
            &&& choice is Cancelled ==> only_says(
                step,
                t,
                "save dialog cancelled - press f to try again"@,
            )
            &&& choice is Unavailable && s.overlay is Some ==> only_says(
                step,
                t,
                "save dialog unavailable - press f to retry"@,
            )
        }),
{
    let t = AppModel { dialog_in_flight: false, ..s };
    lemma_said(t, "save dialog cancelled - press f to try again"@);
    lemma_said(t, "save dialog unavailable - press f to retry"@);
    if let SaveChoiceView::Chosen(out) = choice {
        lemma_said(t, "saving to "@ + path::lossy(out));
    }
}

/// Where no save dialog can be had, a question takes its place: answered with
/// yes, the document goes where the session wants it, over nothing that is
/// there; answered with no, nothing happens.
pub proof fn law_without_save_dialog(s: AppModel, answer: Key, f: EditorFacts)
    requires
        s.overlay is None,
        s.meta is Some,
    ensures
        ({
            let t = AppModel { dialog_in_flight: false, ..s };
            let step = model::dialog_ended(s, SaveChoiceView::Unavailable);
            let then = model::key_routed(step.0, answer, f);
            &&& step.1.len() == 0
            &&& step.0.overlay is Some
            &&& answer.code == KeyCode::Enter || answer.code == KeyCode::Char('y') ==> only_sends(
                then,
                t,
                CmdModel::FinishTo { out: s.meta->0.output_path, overwrite: false },
            )
            &&& answer.code == KeyCode::Esc || answer.code == KeyCode::Char('n') ==> idle_step(
                then,
                t,
            )
        }),
{
}

/// `o` opens the last document that was built, where there is one.
pub proof fn law_open_key(s: AppModel, key: Key, f: EditorFacts)
    requires
        bare(s),
        key.code == KeyCode::Char('o'),
    ensures
        ({
            let step = model::key_routed(s, key, f);
            &&& step.0 == s
            &&& s.last_result is None ==> step.1.len() == 0
            &&& s.last_result matches Some(r) ==> step.1 == seq![AppEffectModel::OpenResult(r.0)]
        }),
{
}

/// A build that succeeded is what `o` opens from then on, and is announced
/// with where the document is and how large it is; one without text is
/// announced as such and as urgent; one that failed is announced as urgent
/// and leaves the last document as it was.
pub proof fn law_build_is_announced(s: AppModel, out: Seq<u8>, kb: u64)
    ensures
        ({
            let step = model::build_ended(s, Some(BuildOutcome::Searchable), out, kb);
            &&& step.1 == seq![
                AppEffectModel::Notify {
                    summary: "Scan complete"@,
                    body: path::lossy(out),
                    urgency: Urgency::Normal,
                },
            ]
            &&& only_says(
                (step.0, Seq::empty()),
                (AppModel { last_result: Some((out, kb, true)), ..s }),
                "done: "@ + path::lossy(out) + " ("@ + text::dec(kb as nat) + " KB)"@,
            )
        }),
        ({
            let step = model::build_ended(s, Some(BuildOutcome::WithoutTextLayer), out, kb);
            &&& step.1 == seq![
                AppEffectModel::Notify {
                    summary: "Scan complete (no text layer)"@,
                    body: path::lossy(out),
                    urgency: Urgency::Critical,
                },
            ]
            &&& only_says(
                (step.0, Seq::empty()),
                (AppModel { last_result: Some((out, kb, false)), ..s }),
                "done (no text layer - ocrmypdf failed): "@ + path::lossy(out),
            )
        }),
        ({
            let step = model::build_ended(s, None, out, kb);
            &&& step.0 == s
            &&& step.1.len() == 1
            &&& step.1[0] matches AppEffectModel::Notify { summary, urgency, .. } && summary
                == "PDF build failed"@ && urgency == Urgency::Critical
        }),
{
    lemma_said(
        AppModel { last_result: Some((out, kb, true)), ..s },
        "done: "@ + path::lossy(out) + " ("@ + text::dec(kb as nat) + " KB)"@,
    );
    lemma_said(
        AppModel { last_result: Some((out, kb, false)), ..s },
        "done (no text layer - ocrmypdf failed): "@ + path::lossy(out),
    );
}

// -------------------------------------------------------------------- session

/// `n` begins a new session: at once where the document is built, else after
/// a question. With `y` or Enter the new session begins; with `n` or Esc
/// nothing happens.
pub proof fn law_new_session_key(s: AppModel, key: Key, answer: Key, f: EditorFacts)
    requires
        bare(s),
        key.code == KeyCode::Char('n'),
    ensures
        ({
            let step = model::key_routed(s, key, f);
            let then = model::key_routed(step.0, answer, f);
            &&& built(s) ==> only_sends(step, s, CmdModel::NewSession)
            &&& !built(s) ==> {
                &&& step.1.len() == 0
                &&& step.0.overlay is Some
                &&& answer.code == KeyCode::Char('y') || answer.code == KeyCode::Enter
                    ==> only_sends(then, s, CmdModel::NewSession)
                &&& answer.code == KeyCode::Char('n') || answer.code == KeyCode::Esc ==> idle_step(
                    then,
                    s,
                )
            }
        }),
{
}

/// Some page has content that is in no document.
pub open spec fn unsaved(s: AppModel) -> bool {
    !built(s) && exists|i: int|
        0 <= i < s.pages.len() && (#[trigger] s.pages[i]).status != PageStatus::Failed
}

/// `q` and Ctrl-C leave the program: at once where nothing would be lost, else
/// after a question. With `y` or Enter the program ends; with `n` or Esc it
/// goes on as before.
pub proof fn law_leave_keys(s: AppModel, key: Key, answer: Key, f: EditorFacts)
    requires
        bare(s),
        key.code == KeyCode::Char('q') || (key.ctrl && key.code == KeyCode::Char('c')),
    ensures
        ({
            let step = model::key_routed(s, key, f);
            let then = model::key_routed(step.0, answer, f);
            &&& step.1.len() == 0
            &&& !unsaved(s) ==> step.0 == (AppModel { quit_requested: true, ..s })
            &&& unsaved(s) ==> {
                &&& step.0 == (AppModel { overlay: step.0.overlay, ..s })
                &&& step.0.overlay is Some
                &&& answer.code == KeyCode::Char('y') || answer.code == KeyCode::Enter ==> then.0
                    == (AppModel { quit_requested: true, ..s }) && then.1.len() == 0
                &&& answer.code == KeyCode::Char('n') || answer.code == KeyCode::Esc ==> idle_step(
                    then,
                    s,
                )
            }
        }),
{
    if unsaved(s) {
        let i = choose|i: int|
            0 <= i < s.pages.len() && (#[trigger] s.pages[i]).status != PageStatus::Failed;
        assert(model::holds_content(s.pages[i]));
    }
    if model::must_ask(s) {
        let i = choose|i: int|
            0 <= i < s.pages.len() && model::holds_content(#[trigger] s.pages[i]);
        assert(s.pages[i].status != PageStatus::Failed);
    }
}

// --------------------------------------------------------------------- editor

/// Cutting a page down takes the rectangle that is shown in the editor: Enter
/// asks, and the answer yes sends the session this rectangle for the page
/// that is edited, and switches the tool off; no leaves all as it was.
pub proof fn law_crop_is_applied(
    s: AppModel,
    r: ImageRect,
    key: Key,
    answer: Key,
    f: EditorFacts,
)
    requires
        s.overlay is None,
        s.editor is Some,
        s.editor->0.crop == Some(r),
        key.code == KeyCode::Enter,
    ensures
        ({
            let e = s.editor->0;
            let step = model::key_routed(s, key, f);
            let then = model::key_routed(step.0, answer, f);
            &&& step.1.len() == 0
            &&& step.0 == (AppModel { overlay: step.0.overlay, ..s })
            &&& step.0.overlay is Some
            &&& answer.code == KeyCode::Enter || answer.code == KeyCode::Char('y') ==> {
                &&& then.1 == seq![
                    AppEffectModel::Send(
                        CmdModel::Crop { id: e.page_id, x: r.x, y: r.y, w: r.w, h: r.h },
                    ),
                ]
                &&& then.0.overlay is None
                &&& then.0.editor matches Some(e2) && e2.crop is None && e2.page_id == e.page_id
                &&& then.0 == (AppModel { editor: then.0.editor, ..s })
            }
            &&& answer.code == KeyCode::Esc || answer.code == KeyCode::Char('n') ==> idle_step(
                then,
                s,
            )
        }),
{
}

/// While the editor is open, no key reaches the pages: nothing is sent. Its
/// own keys call the help, the diagnostics, and leave it.
pub proof fn law_editor_is_apart(s: AppModel, key: Key, f: EditorFacts)
    requires
        s.overlay is None,
        s.editor is Some,
    ensures
        ({
            let step = model::key_routed(s, key, f);
            &&& step.1.len() == 0
            &&& step.0.pages == s.pages && step.0.selected == s.selected && step.0.dpi == s.dpi
                && step.0.mode == s.mode && step.0.focus == s.focus
            &&& key.code == KeyCode::Char('?') ==> step.0 == (AppModel {
                overlay: Some(OverlayView::Help),
                ..s
            })
            &&& key.code == KeyCode::Char('!') ==> step.0 == (AppModel {
                overlay: Some(OverlayView::Diagnostics),
                ..s
            })
            &&& s.editor->0.crop is None && (key.code == KeyCode::Esc || key.code == KeyCode::Char(
                'q',
            )) ==> step.0 == (AppModel { editor: None, editor_rects: None, ..s })
        }),
{
}

// ------------------------------------------------------------------- overlays

/// `?` shows the help and `!` the diagnostics; each goes with its own key,
/// with Esc and with `q`, and in neither does a key reach the pages.
pub proof fn law_help_and_diagnostics(s: AppModel, key: Key, next: Key, f: EditorFacts)
    requires
        bare(s),
        key.code == KeyCode::Char('?') || key.code == KeyCode::Char('!'),
    ensures
        ({
            let step = model::key_routed(s, key, f);
            let then = model::key_routed(step.0, next, f);
            &&& step.1.len() == 0
            &&& key.code == KeyCode::Char('?') ==> step.0 == (AppModel {
                overlay: Some(OverlayView::Help),
                ..s
            })
            &&& key.code == KeyCode::Char('!') ==> step.0 == (AppModel {
                overlay: Some(OverlayView::Diagnostics),
                ..s
            })
            &&& next.code == key.code || next.code == KeyCode::Esc || next.code == KeyCode::Char(
                'q',
            ) ==> idle_step(then, s)
            &&& key.code == KeyCode::Char('?') && !(next.code == key.code || next.code
                == KeyCode::Esc || next.code == KeyCode::Char('q')) ==> idle_step(then, step.0)
        }),
{
}

/// `r` in the diagnostics makes the checks again, once: while they are being
/// made it does nothing. The diagnostics stay.
pub proof fn law_checks_again(s: AppModel, key: Key, f: EditorFacts)
    requires
        s.overlay == Some(OverlayView::Diagnostics),
        key.code == KeyCode::Char('r') || key.code == KeyCode::Char('R'),
    ensures
        ({
            let step = model::key_routed(s, key, f);
            &&& s.checks_in_flight ==> idle_step(step, s)
            &&& !s.checks_in_flight ==> {
                &&& step.1 == seq![AppEffectModel::RunChecks]
                &&& step.0.checks_in_flight
                &&& only_says(
                    (step.0, Seq::empty()),
                    (AppModel { checks_in_flight: true, ..s }),
                    "re-running checks..."@,
                )
            }
        }),
{
    lemma_said(AppModel { checks_in_flight: true, ..s }, "re-running checks..."@);
}

/// A question stays until it is answered: `y`, `Y` and Enter say yes, `n`, `q`
/// and Esc say no, and every other key does nothing.
pub proof fn law_questions_wait(s: AppModel, c: ConfirmView, key: Key, f: EditorFacts)
    requires
        s.overlay == Some(OverlayView::Confirm(c)),
    ensures
        ({
            let step = model::key_routed(s, key, f);
            let yes = key.code == KeyCode::Char('y') || key.code == KeyCode::Char('Y') || key.code
                == KeyCode::Enter;
            let no = key.code == KeyCode::Char('n') || key.code == KeyCode::Char('q') || key.code
                == KeyCode::Esc;
            let t = AppModel { overlay: None, ..s };
            &&& !yes && !no ==> idle_step(step, s)
            &&& no ==> idle_step(step, t)
            &&& yes ==> step.0.overlay is None
            &&& yes && c.kind is NewSession ==> only_sends(step, t, CmdModel::NewSession)
            &&& yes && (c.kind matches ConfirmKindView::DeletePage(id)) ==> only_sends(
                step,
                t,
                CmdModel::Delete(c.kind->DeletePage_0),
            )
            &&& yes && c.kind is Finish ==> only_sends(
                step,
                t,
                CmdModel::FinishTo { out: c.kind->out, overwrite: c.kind->overwrite },
            )
            &&& yes && c.kind is Quit ==> step.0 == (AppModel { quit_requested: true, ..t })
                && step.1.len() == 0
            &&& yes && c.kind is DeleteBusy ==> idle_step(step, t)
        }),
{
}

/// In the choice of languages `j` and Down move the cursor down, `k` and Up
/// move it up, no further than the list goes; nothing else changes.
pub proof fn law_picker_cursor(s: AppModel, p: LangPickerView, key: Key, f: EditorFacts)
    requires
        s.overlay == Some(OverlayView::LangPicker(p)),
        p.cursor < p.available.len(),
        key.code == KeyCode::Char('j') || key.code == KeyCode::Down || key.code == KeyCode::Char(
            'k',
        ) || key.code == KeyCode::Up,
    ensures
        ({
            let step = model::key_routed(s, key, f);
            let down = key.code == KeyCode::Char('j') || key.code == KeyCode::Down;
            let n = p.cursor as int;
            let there = if down && n + 1 < p.available.len() {
                n + 1
            } else if !down && n > 0 {
                n - 1
            } else {
                n
            };
            &&& step.1.len() == 0
            &&& step.0 == (AppModel {
                overlay: Some(
                    OverlayView::LangPicker(LangPickerView { cursor: there as nat, ..p }),
                ),
                ..s
            })
        }),
{
}

proof fn lemma_first_at(list: Seq<Seq<char>>, x: Seq<char>)
    ensures
        match text::first_at(list, x) {
            Some(i) => 0 <= i < list.len() && list[i] == x,
            None => !list.contains(x),
        },
    decreases list.len(),
{
    if list.len() > 0 {
        let init = list.drop_last();
        lemma_first_at(init, x);
        if text::first_at(init, x) is None && list.last() != x {
            assert forall|j: int| 0 <= j < list.len() implies list[j] != x by {
                if j < list.len() - 1 {
                    assert(init[j] == list[j]);
                    assert(init.contains(init[j]));
                }
            }
        }
    }
}

/// Space chooses the language under the cursor, behind those that are chosen
/// already, or takes it out where it is chosen once; the others stay, in their
/// order.
pub proof fn law_picker_choice(s: AppModel, p: LangPickerView, key: Key, f: EditorFacts)
    requires
        s.overlay == Some(OverlayView::LangPicker(p)),
        p.cursor < p.available.len(),
        key.code == KeyCode::Char(' '),
    ensures
        ({
            let step = model::key_routed(s, key, f);
            let lang = p.available[p.cursor as int];
            &&& step.1.len() == 0
            &&& step.0.overlay matches Some(OverlayView::LangPicker(q)) && {
                &&& q.available == p.available && q.cursor == p.cursor && q.loading == p.loading
                &&& !p.selected.contains(lang) ==> q.selected == p.selected.push(lang)
                &&& p.selected.contains(lang) ==> exists|i: int|
                    0 <= i < p.selected.len() && #[trigger] p.selected[i] == lang && q.selected
                        == p.selected.subrange(0, i) + p.selected.subrange(
                        i + 1,
                        p.selected.len() as int,
                    )
            }
            &&& step.0 == (AppModel { overlay: step.0.overlay, ..s })
        }),
{
    let lang = p.available[p.cursor as int];
    lemma_first_at(p.selected, lang);
    if p.selected.contains(lang) {
        let i = text::first_at(p.selected, lang)->0;
        assert(p.selected[i] == lang);
        assert(p.selected.remove(i) =~= p.selected.subrange(0, i) + p.selected.subrange(
            i + 1,
            p.selected.len() as int,
        ));
    }
}

/// With no language under the cursor, Space chooses none.
pub proof fn law_picker_without_language(s: AppModel, p: LangPickerView, key: Key, f: EditorFacts)
    requires
        s.overlay == Some(OverlayView::LangPicker(p)),
        p.cursor >= p.available.len(),
        key.code == KeyCode::Char(' '),
    ensures
        idle_step(model::key_routed(s, key, f), s),
{
}

/// Enter takes the chosen languages over, in the order in which they were
/// chosen, with a plus between them: they are what is shown, said and sent.
/// Nothing is taken over where none is chosen, nor with Esc or `q`.
pub proof fn law_picker_taken_over(s: AppModel, p: LangPickerView, key: Key, f: EditorFacts)
    requires
        s.overlay == Some(OverlayView::LangPicker(p)),
    ensures
        ({
            let step = model::key_routed(s, key, f);
            let t = AppModel { overlay: None, ..s };
            let langs = text::join(p.selected, "+"@);
            &&& key.code == KeyCode::Enter && p.selected.len() > 0 ==> {
                &&& step.1 == seq![AppEffectModel::Send(CmdModel::SetLangs(langs))]
                &&& only_says(
                    (step.0, Seq::empty()),
                    (AppModel { cfg: ConfigView { langs, ..s.cfg }, ..t }),
                    "langs: "@ + langs,
                )
            }
            &&& (key.code == KeyCode::Enter && p.selected.len() == 0) || key.code == KeyCode::Esc
                || key.code == KeyCode::Char('q') ==> idle_step(step, t)
        }),
{
    let t = AppModel { overlay: None, ..s };
    let langs = text::join(p.selected, "+"@);
    lemma_said(AppModel { cfg: ConfigView { langs, ..s.cfg }, ..t }, "langs: "@ + langs);
}

/// Once the installed languages are known they are kept, and the open choice
/// offers each of them; what was chosen stays chosen.
pub proof fn law_langs_are_offered(
    s: AppModel,
    langs: Seq<Seq<char>>,
    p: LangPickerView,
    t: AppModel,
    k: int,
)
    requires
        model::langs_arrived(s, langs, t),
        0 <= k < langs.len(),
    ensures
        t.langs_cache == langs,
        s.overlay != Some(OverlayView::LangPicker(p)) || (t.overlay matches Some(
            OverlayView::LangPicker(q),
        ) && q.available.contains(langs[k]) && q.selected == p.selected && !q.loading),
{
    if s.overlay == Some(OverlayView::LangPicker(p)) {
        let q = t.overlay->0->LangPicker_0;
        let all = overlays::with_missing(langs, p.selected);
        lemma_kept(langs, p.selected, k);
        assert(all.to_multiset().count(langs[k]) > 0) by {
            all.to_multiset_ensures();
            assert(all.contains(langs[k]));
        }
        q.available.to_multiset_ensures();
    }
}

/// Once the installed languages are known, the cursor of the open choice is on
/// the first chosen language.
pub proof fn law_cursor_is_on_chosen(
    s: AppModel,
    langs: Seq<Seq<char>>,
    p: LangPickerView,
    t: AppModel,
)
    requires
        model::langs_arrived(s, langs, t),
        s.overlay == Some(OverlayView::LangPicker(p)),
        p.selected.len() > 0,
    ensures
        t.overlay matches Some(OverlayView::LangPicker(q)) && q.cursor < q.available.len()
            && q.available[q.cursor as int] == p.selected[0],
{
    let q = t.overlay->0->LangPicker_0;
    overlays::law_chosen_is_offered(p, langs, q, 0);
    lemma_first_at(q.available, p.selected[0]);
}

proof fn lemma_kept(langs: Seq<Seq<char>>, wanted: Seq<Seq<char>>, k: int)
    requires
        0 <= k < langs.len(),
    ensures
        overlays::with_missing(langs, wanted).len() >= langs.len(),
        overlays::with_missing(langs, wanted)[k] == langs[k],
    decreases wanted.len(),
{
    if wanted.len() > 0 {
        lemma_kept(langs, wanted.drop_last(), k);
    }
}

/// A click outside closes what lies over the view, but for the diagnostics; a
/// click inside, and everything else that the mouse does, closes nothing. The
/// view below never sees the mouse.
pub proof fn law_clicks_and_overlays(s: AppModel, o: OverlayView, r: Rect, m: Mouse, f: EditorFacts)
    requires
        s.overlay == Some(o),
        s.overlay_rect == Some(r),
        r.width > 0,
        r.height > 0,
    ensures
        ({
            let within = r.x <= m.column < r.x + r.width && r.y <= m.row < r.y + r.height;
            let t = model::mouse_routed(s, m, f);
            &&& m.kind == MouseKind::DownLeft && !within && !(o is Diagnostics) ==> t == (AppModel {
                overlay: None,
                ..s
            })
            &&& m.kind != MouseKind::DownLeft || within || o is Diagnostics ==> t == s
        }),
{
}

// ---------------------------------------------------------------------- mouse

/// Whether a place of the terminal lies in a rectangle.
pub open spec fn at(r: Rect, m: Mouse) -> bool {
    r.x <= m.column < r.x + r.width && r.y <= m.row < r.y + r.height
}

/// A click goes to the pane under the mouse. In the page list the first row
/// inside the border selects the first page, the row below it the second, and
/// so on.
pub proof fn law_clicks_in_list(s: AppModel, m: Mouse, f: EditorFacts)
    requires
        bare(s),
        m.kind == MouseKind::DownLeft,
        s.pane_rects is Some,
        at(s.pane_rects->0.sidebar, m),
    ensures
        ({
            let r = s.pane_rects->0.sidebar;
            let t = model::mouse_routed(s, m, f);
            let row = m.row - r.y - 1;
            &&& 0 <= row < r.height - 2 ==> t == (AppModel {
                focus: Pane::Sidebar,
                selected: row as nat,
                text_scroll: 0,
                ..s
            })
            &&& !(0 <= row < r.height - 2) ==> t == (AppModel { focus: Pane::Sidebar, ..s })
        }),
{
}

proof fn lemma_cell(cells: Seq<(PageId, Rect)>, m: Mouse, k: int)
    requires
        0 <= k < cells.len(),
        at(cells[k].1, m),
        forall|j: int| 0 <= j < cells.len() && j != k ==> !at((#[trigger] cells[j]).1, m),
    ensures
        model::cell_at(cells, m.column, m.row) == Some(cells[k].0),
    decreases cells.len(),
{
    let init = cells.drop_last();
    assert forall|j: int| 0 <= j < init.len() implies #[trigger] init[j] == cells[j] by {}
    if k < cells.len() - 1 {
        lemma_cell(init, m, k);
    } else {
        lemma_no_cell(init, m);
    }
}

proof fn lemma_no_cell(cells: Seq<(PageId, Rect)>, m: Mouse)
    requires
        forall|j: int| 0 <= j < cells.len() ==> !at((#[trigger] cells[j]).1, m),
    ensures
        model::cell_at(cells, m.column, m.row) is None,
    decreases cells.len(),
{
    if cells.len() > 0 {
        let init = cells.drop_last();
        assert forall|j: int| 0 <= j < init.len() implies #[trigger] init[j] == cells[j] by {}
        lemma_no_cell(init, m);
        assert(!at(cells[cells.len() - 1].1, m));
    }
}

proof fn lemma_placed(pages: Seq<PageShown>, i: int)
    requires
        0 <= i < pages.len(),
        forall|j: int| 0 <= j < pages.len() && j != i ==> (#[trigger] pages[j]).id != pages[i].id,
    ensures
        model::place_of(pages, pages[i].id) == Some(i),
    decreases pages.len(),
{
    let init = pages.drop_last();
    assert forall|j: int| 0 <= j < init.len() implies #[trigger] init[j] == pages[j] by {}
    if i < pages.len() - 1 {
        lemma_placed(init, i);
    } else {
        lemma_not_placed(init, pages[i].id);
    }
}

proof fn lemma_not_placed(pages: Seq<PageShown>, id: PageId)
    requires
        forall|j: int| 0 <= j < pages.len() ==> (#[trigger] pages[j]).id != id,
    ensures
        model::place_of(pages, id) is None,
    decreases pages.len(),
{
    if pages.len() > 0 {
        let init = pages.drop_last();
        assert forall|j: int| 0 <= j < init.len() implies #[trigger] init[j] == pages[j] by {}
        lemma_not_placed(init, id);
        assert(pages[pages.len() - 1].id != id);
    }
}

/// A click on a picture in the preview selects the page that it shows.
pub proof fn law_clicks_on_pictures(s: AppModel, m: Mouse, f: EditorFacts, k: int, i: int)
    requires
        bare(s),
        m.kind == MouseKind::DownLeft,
        s.pane_rects is Some,
        !at(s.pane_rects->0.sidebar, m),
        at(s.pane_rects->0.preview, m),
        0 <= k < s.preview_cells.len(),
        at(s.preview_cells[k].1, m),
        forall|j: int|
            0 <= j < s.preview_cells.len() && j != k ==> !at((#[trigger] s.preview_cells[j]).1, m),
        0 <= i < s.pages.len(),
        s.pages[i].id == s.preview_cells[k].0,
        forall|j: int|
            0 <= j < s.pages.len() && j != i ==> (#[trigger] s.pages[j]).id != s.pages[i].id,
    ensures
        model::mouse_routed(s, m, f) == (AppModel {
            focus: Pane::Preview,
            selected: i as nat,
            text_scroll: 0,
            ..s
        }),
{
    lemma_cell(s.preview_cells, m, k);
    lemma_placed(s.pages, i);
}

/// A click in the text only goes there; one outside all panes does nothing.
pub proof fn law_other_clicks(s: AppModel, m: Mouse, f: EditorFacts)
    requires
        bare(s),
        m.kind == MouseKind::DownLeft,
        s.pane_rects is Some,
        !at(s.pane_rects->0.sidebar, m),
        !at(s.pane_rects->0.preview, m),
    ensures
        at(s.pane_rects->0.text, m) ==> model::mouse_routed(s, m, f) == (AppModel {
            focus: Pane::Text,
            ..s
        }),
        !at(s.pane_rects->0.text, m) ==> model::mouse_routed(s, m, f) == s,
{
}

/// The wheel selects the page before or after over the page list and over the
/// preview, and scrolls the text over the text; elsewhere it does nothing.
pub proof fn law_wheel(s: AppModel, m: Mouse, f: EditorFacts)
    requires
        bare(s),
        s.pane_rects is Some,
        s.text_scroll < usize::MAX,
        m.kind == MouseKind::ScrollUp || m.kind == MouseKind::ScrollDown,
    ensures
        ({
            let r = s.pane_rects->0;
            let t = model::mouse_routed(s, m, f);
            let up = m.kind == MouseKind::ScrollUp;
            let pages = at(r.sidebar, m) || at(r.preview, m);
            let n = s.selected as int;
            &&& pages && up ==> t == (AppModel {
                selected: (if n > 0 {
                    n - 1
                } else {
                    n
                }) as nat,
                ..s
            })
            &&& pages && !up ==> t == (AppModel {
                selected: (if n + 1 < s.pages.len() {
                    n + 1
                } else {
                    n
                }) as nat,
                ..s
            })
            &&& !pages && at(r.text, m) ==> t == (AppModel {
                text_scroll: (if !up {
                    s.text_scroll as int + 1
                } else if s.text_scroll > 0 {
                    s.text_scroll - 1
                } else {
                    0
                }) as nat,
                ..s
            })
            &&& !pages && !at(r.text, m) ==> t == s
        }),
{
}

// -------------------------------------------------------------------- reports

/// A report whose question of the scanner is settled makes the scanner that
/// it found the one that the session uses, and shows its name; where it found
/// none, none is known any more and nothing is sent.
pub proof fn law_report_gives_scanner(s: AppModel, r: ReportView)
    requires
        !(r.source != ReportSource::ReRun && s.rerun_seen),
        check::report_settled(r.items),
    ensures
        ({
            let step = model::report_arrived(s, r);
            &&& step.0.report == Some(r)
            &&& step.0.device_known <==> r.device is Some
            &&& r.device is None ==> step.1.len() == 0
            &&& r.device matches Some(d) ==> step.1 == seq![
                AppEffectModel::Send(CmdModel::SetDevice(d.name)),
            ]
            &&& r.device matches Some(d) ==> step.0.device_label == check::label_or_name(r.device)
            &&& step.0.pages == s.pages && step.0.dpi == s.dpi && step.0.mode == s.mode
                && step.0.cfg == s.cfg
        }),
{
}

/// The diagnostics come up by themselves with a report in which a check has
/// failed, where nothing else lies over the view, and with no other.
pub proof fn law_failures_come_up(s: AppModel, r: ReportView)
    requires
        !(r.source != ReportSource::ReRun && s.rerun_seen),
        s.overlay is None,
    ensures
        !check::report_ok(r.items) ==> model::report_arrived(s, r).0.overlay == Some(
            OverlayView::Diagnostics,
        ),
        check::report_ok(r.items) ==> model::report_arrived(s, r).0.overlay is None,
{
}

/// A wish to capture that was waiting is told what becomes of it: it is about
/// to be carried out where a scanner was found, and dropped where none was.
/// That none was found is told too where the diagnostics come up for it.
pub proof fn law_waiting_capture_is_told(s: AppModel, r: ReportView)
    requires
        !(r.source != ReportSource::ReRun && s.rerun_seen),
        check::report_settled(r.items),
    ensures
        ({
            let lines = model::report_arrived(s, r).0.status_lines;
            &&& s.pending_scan && r.device is Some ==> lines.len() > 0 && lines.last()
                == "scanner ready - starting buffered scan"@
            &&& s.pending_scan && r.device is None ==> lines.len() > 0 && lines.last()
                == "no scanner found - buffered scan dropped"@
            &&& !s.pending_scan && r.device is None && s.overlay is None && !check::report_ok(
                r.items,
            ) ==> lines.len() > 0 && lines.last()
                == "no scanner found - see diagnostics (press ! to reopen)"@
            &&& !s.pending_scan && r.device is Some ==> lines == s.status_lines
        }),
{
    let t = AppModel {
        checks_in_flight: s.checks_in_flight && r.source != ReportSource::ReRun,
        rerun_seen: s.rerun_seen || r.source == ReportSource::ReRun,
        report: Some(r),
        ..s
    };
    let u = model::failures_shown(model::device_answered(t, r), r);
    lemma_said(u, "scanner ready - starting buffered scan"@);
    lemma_said(AppModel { pending_scan: false, ..u }, "no scanner found - buffered scan dropped"@);
    lemma_said(
        AppModel {
            overlay: Some(OverlayView::Diagnostics),
            ..model::device_answered(t, r)
        },
        "no scanner found - see diagnostics (press ! to reopen)"@,
    );
}

/// The verdict on the start is that a scanner was found and no check has
/// failed, as the last report of the start says; the program's exit status
/// says that the start failed exactly where that verdict was bad.
pub proof fn law_verdict_on_start(s: AppModel, r: ReportView)
    requires
        r.source == ReportSource::StartupFinal,
        !s.rerun_seen,
        s.startup_report_ok is None,
        check::report_settled(r.items),
    ensures
        ({
            let t = model::report_arrived(s, r).0;
            let good = r.device is Some && check::report_ok(r.items);
            t.startup_report_ok == Some(good) && model::exit_ok(t) == good
        }),
{
}

/// A wish to capture that was waiting for the scanner is carried out as soon
/// as the capture is possible, and only once.
pub proof fn law_waiting_capture_begins(s: AppModel)
    requires
        s.pending_scan,
    ensures
        ({
            let step = model::pending_scan_fired(s);
            let possible = s.device_known && at_rest(s) && !built(s) && !deletion_waits(s);
            &&& possible ==> only_sends(
                step,
                (AppModel { pending_scan: false, ..s }),
                CmdModel::ScanNext { dpi: s.dpi, mode: s.mode },
            )
            &&& !possible ==> idle_step(step, s)
        }),
{
    lemma_deletion_waits(s);
}

/// With lazy reading, the text of the selected page is asked for as soon as
/// the page is ready and has none, unless reading this very image has failed;
/// no other page's text is asked for, and none with another setting.
pub proof fn law_text_is_asked_for(s: AppModel)
    ensures
        ({
            let list = model::text_request(s);
            let p = s.pages[s.selected as int];
            let wanted = s.selected < s.pages.len() && s.cfg.preview_ocr == PreviewOcr::Lazy
                && !(s.meta matches Some(m) && m.busy == Busy::Finishing) && !built(s) && p.status
                == PageStatus::Ready && p.text is None && !p.text_pending && p.ocr_failed_gen
                != Some(p.image_gen);
            &&& wanted ==> list == seq![AppEffectModel::Send(CmdModel::RequestText(p.id))]
            &&& !wanted ==> list.len() == 0
        }),
{
}

/// The interface begins with the settings of the configuration, no pages, and
/// no scanner known.
pub proof fn law_interface_begins(cfg: ConfigView)
    ensures
        ({
            let s = model::started(cfg);
            &&& s.cfg == cfg && s.dpi == cfg.dpi && s.mode == cfg.mode
            &&& s.pages.len() == 0 && s.selected == 0 && s.focus == Pane::Sidebar
            &&& !s.device_known && !s.pending_scan && !s.checks_in_flight && !s.quit_requested
            &&& bare(s)
            &&& s.last_result is None && s.report is None && s.startup_report_ok is None
            &&& s.status_lines.len() >= 1 && s.status_lines[0]
                == "detecting scanner - press ? for help"@
        }),
{
}

/// A line is added behind the others; where there are five hundred already,
/// the oldest hundred go.
pub proof fn law_status_lines(s: AppModel, msg: Seq<char>)
    ensures
        s.status_lines.len() < 500 ==> model::say(s, msg).status_lines == s.status_lines.push(msg),
        s.status_lines.len() == 500 ==> model::say(s, msg).status_lines == s.status_lines.subrange(
            100,
            500,
        ).push(msg),
        model::say(s, msg).status_scroll == 0,
{
    let all = s.status_lines.push(msg);
    if s.status_lines.len() == 500 {
        assert(all.skip(100) =~= s.status_lines.subrange(100, 500).push(msg));
    }
}

/// With two languages the interface begins with a warning, unless one of them
/// is the script model; with one language, or one and an empty one, it does
/// not.
pub proof fn law_mixed_languages_warn(cfg: ConfigView, a: Seq<char>, b: Seq<char>)
    requires
        a.len() > 0,
        b.len() > 0,
        !a.contains('+'),
        !b.contains('+'),
    ensures
        cfg.langs == a ==> model::started(cfg).status_lines.len() == 1,
        cfg.langs == a.push('+') ==> model::started(cfg).status_lines.len() == 1,
        cfg.langs == a.push('+') + b && a != "Latin"@ && b != "Latin"@ ==> {
            &&& model::started(cfg).status_lines.len() == 2
            &&& model::started(cfg).status_lines[1]
                == "hint: mixed OCR languages can garble umlauts (für→fiir) - press L to pick a single language"@
        },
        cfg.langs == a.push('+') + b && (a == "Latin"@ || b == "Latin"@) ==> model::started(
            cfg,
        ).status_lines.len() == 1,
{
    text::lemma_split_single(a, '+');
    text::lemma_split_pair(a, '+', b);
    text::lemma_split_pair(a, '+', Seq::empty());
    assert(a.push('+') + Seq::<char>::empty() =~= a.push('+'));
    reveal_with_fuel(model::language_count, 3);
    assert(seq![a, Seq::<char>::empty()].drop_last() =~= seq![a]);
    assert(seq![a].drop_last() =~= Seq::empty());
    assert(seq![a, b].drop_last() =~= seq![a]);
}

/// Where the selected page is gone, the selection stays at its place, or goes
/// to the last page where there are fewer.
pub proof fn law_selection_without_page(s: AppModel, pages: Seq<PageShown>, meta: MetaModel)
    requires
        s.selected < s.pages.len(),
        forall|j: int|
            0 <= j < pages.len() ==> (#[trigger] pages[j]).id != s.pages[s.selected as int].id,
        pages.len() > 0,
    ensures
        model::pages_changed(s, pages, meta).selected == (if s.selected < pages.len() {
            s.selected as int
        } else {
            pages.len() - 1
        }),
        model::pages_changed(s, pages, meta).pages == pages,
        model::pages_changed(s, pages, meta).meta == Some(meta),
{
    lemma_not_placed(pages, s.pages[s.selected as int].id);
}

/// The moments are counted, and in each the capture that waits is begun where
/// it can be, and text is asked for where it is wanted.
pub proof fn law_moments(s: AppModel)
    requires
        !s.pending_scan,
        s.tick < u64::MAX,
    ensures
        model::ticked(s).0 == (AppModel { tick: (s.tick + 1) as u64, ..s }),
        model::ticked(s).1 == model::text_request(s),
{
    let t = AppModel { tick: (s.tick + 1) as u64, ..s };
    assert(model::text_request(t) == model::text_request(s));
    assert(Seq::<AppEffectModel>::empty() + model::text_request(t) =~= model::text_request(t));
}

} // verus!
