//! What the outside programs come to: which step is due, what is reported, and
//! what is read of what they write.

use vstd::prelude::*;
use vstd::utf8::*;

use crate::backend::filedialog;
use crate::backend::filedialog::{DialogEvent, SaveChoiceView, SaveTool};
use crate::backend::pdf;
use crate::backend::pdf::{
    BuildOutcome, BuildPlanView, BuildRun, CleanActionView, CleanEvent, FileFacts, TargetAction,
};
use crate::backend::process;
use crate::backend::process::{ExitStatus, Output, RunError, RunErrorView, RunEvent};
use crate::backend::scan;
use crate::backend::scan::{DeviceView, ScanAction, ScanRun};
use crate::config::Cleanup;
use crate::notation;
use crate::path;
use crate::text;

verus! {

// ---------------------------------------------------------------------- build

/// A build begins with its first step, holds the step that adds the text, and
/// knows where the raw document, the unfinished one and the finished one are.
pub proof fn law_build_is_prepared(
    plan: BuildPlanView,
    tmp: Seq<u8>,
    pdfunite: bool,
    unpaper: bool,
    b: BuildRun,
)
    requires
        pdf::build_started(plan, tmp, pdfunite, unpaper, Ok(b)),
    ensures
        pdf::assembly(plan.pages, tmp, pdfunite) == Ok::<
            Seq<pdf::PdfStepView>,
            Seq<char>,
        >(pdf::steps_view(b.steps@)),
        b.done == 0,
        b.steps@.len() > 0 ==> b.current() == b.steps@[0]@,
        b.ocr@ == pdf::ocr_step(plan, tmp, unpaper),
        b.raw@ == path::join_path(tmp, encode_utf8("raw.pdf"@)),
        b.part@ == plan.out_pdf + encode_utf8(".part"@),
        b.out@ == plan.out_pdf,
{
}

/// A build that cannot begin says why: how many resolutions are mixed, and
/// what to install.
pub proof fn law_build_cannot_begin(
    plan: BuildPlanView,
    tmp: Seq<u8>,
    pdfunite: bool,
    unpaper: bool,
    e: String,
)
    requires
        pdf::build_started(plan, tmp, pdfunite, unpaper, Err(e)),
    ensures
        !pdfunite,
        e@ == "session mixes page DPIs ("@ + text::dec(pdf::by_dpi(plan.pages).len())
            + " groups) and pdfunite is not installed - install poppler (pacman) or poppler-utils (apt), or rescan all pages at one DPI"@,
{
}

/// The steps are due one after the other, and then the one that adds the text.
pub proof fn law_steps_are_due_in_order(b: BuildRun)
    ensures
        b.done < b.steps@.len() ==> b.current() == b.steps@[b.done as int]@,
        b.done >= b.steps@.len() ==> b.current() == b.ocr@,
{
}

/// What the steps are called, and how many seconds they may take.
pub proof fn law_steps_are_named(
    pages: Seq<(Seq<u8>, u16)>,
    tmp: Seq<u8>,
    plan: BuildPlanView,
    unpaper: bool,
    k: int,
)
    requires
        pages.len() > 0,
    ensures
        pdf::ocr_step(plan, tmp, unpaper).what == "OCR (ocrmypdf)"@,
        pdf::ocr_step(plan, tmp, unpaper).timeout == 1800,
        pdf::assembly(pages, tmp, true) matches Ok(steps) ==> {
            &&& 0 <= k < steps.len() && (k < steps.len() - 1 || steps.len() == 1) ==> steps[k].what
                == "PDF assembly (img2pdf)"@ && steps[k].timeout == 300
            &&& k == steps.len() - 1 && steps.len() > 1 ==> steps[k].what
                == "PDF merge (pdfunite)"@ && steps[k].timeout == 300
        },
{
    pdf::law_groups(pages);
    if pdf::by_dpi(pages).len() == 0 {
        assert(pdf::flattened(pdf::by_dpi(pages)) =~= Seq::empty());
    }
}

/// The parts of a document with several resolutions are numbered, beside the
/// raw document.
pub proof fn law_parts_are_numbered(tmp: Seq<u8>, n: nat, i: int)
    requires
        0 <= i < n,
    ensures
        pdf::part_names(tmp, n).len() == n,
        pdf::part_names(tmp, n)[i] == path::lossy(
            path::join_path(tmp, encode_utf8("part"@ + text::dec(i as nat) + ".pdf"@)),
        ),
{
}

/// What is reported of a step that failed begins with what the step is called,
/// and names the program where it could not be found.
pub proof fn law_failed_step_is_named(
    r: BuildRun,
    result: Result<Output, RunError>,
    logfile: Seq<u8>,
)
    requires
        r.done < r.steps@.len(),
        r.steps@[r.done as int]@.args.len() > 0,
    ensures
        ({
            let s = r.steps@[r.done as int]@;
            let next = pdf::build_next(r, result, logfile);
            &&& next matches Err(m) ==> s.what.is_prefix_of(m)
            &&& result matches Err(RunError::NotFound) ==> next == Err::<
                Option<(Option<Seq<u8>>, BuildOutcome)>,
                Seq<char>,
            >(
                s.what + " failed: Required command not found: "@ + s.args[0] + ("\nFull log: "@
                    + path::lossy(logfile)),
            )
        }),
{
    let s = r.steps@[r.done as int]@;
    if let Err(m) = pdf::build_next(r, result, logfile) {
        assert(m.take(s.what.len() as int) =~= s.what);
    }
}

/// What is said of a place that cannot be claimed.
pub proof fn law_refused_places(p: Seq<u8>, f: FileFacts, allow: bool, a: TargetAction)
    requires
        pdf::target_claim(p, Some(f), allow, a),
    ensures
        f.is_dir ==> (a matches TargetAction::Reject(m) && m@ == path::lossy(p)
            + " is a directory"@),
        !f.is_dir && f.is_file && f.len > 0 && !allow ==> (a matches TargetAction::Reject(m) && m@
            == path::lossy(p) + " already exists (choose a different name or allow overwrite)"@),
        !f.is_dir && (!f.is_file || f.len == 0 || allow) ==> a is Adopt,
{
}

/// No page is reported where there is no report, or none with a number.
pub proof fn law_no_progress(whole: Option<Seq<char>>, s: Seq<char>)
    ensures
        pdf::progress_of(pdf::last_of(Seq::empty())) is None,
        pdf::progress_of(Some(seq![whole])) is None,
        pdf::progress_of(Some(seq![whole, None::<Seq<char>>])) is None,
        text::parse_dec(s, u32::MAX as nat) is None ==> pdf::progress_of(
            Some(seq![whole, Some(s)]),
        ) is None,
{
}

/// An image that begins like a PNG is left as it is; any other is made one.
pub proof fn law_png_is_kept(b: Seq<u8>)
    ensures
        b.len() >= 4 && b[0] == 0x89 && b[1] == 0x50 && b[2] == 0x4e && b[3] == 0x47
            ==> pdf::png_rewrite(b) == Ok::<Option<Seq<u8>>, Seq<char>>(None),
        b.len() < 4 || b[0] != 0x89 || b[1] != 0x50 || b[2] != 0x4e || b[3] != 0x47 ==> match (
        pdf::png_rewrite(b),
        pdf::as_png(b),
        ) {
            (Ok(Some(p)), Ok(q)) => p == q,
            (Err(e), Err(f)) => e == f,
            _ => false,
        },
{
}

/// However the cleaning of a page fails, the page keeps its image, it does not
/// count as straightened, and only unpaper's own file goes.
pub proof fn law_cleaning_fails(
    page: Seq<u8>,
    tmp: Seq<u8>,
    cleaned: Seq<u8>,
    cleanup: Cleanup,
    e: CleanEvent,
)
    requires
        e matches CleanEvent::Ran { success, wrote } ==> !success || !wrote,
        e matches CleanEvent::Reencoded(ok) ==> !ok,
        e matches CleanEvent::Renamed(ok) ==> !ok,
    ensures
        pdf::clean_next(page, tmp, cleaned, cleanup, e) == (CleanActionView::Done {
            remove: Some(tmp),
            image: page,
            deskewed: false,
        }),
{
}

/// The words that every run of unpaper begins with.
pub proof fn law_unpaper_begins(cleanup: Cleanup, extra: Seq<Seq<char>>)
    ensures
        ({
            let a = pdf::unpaper_options(cleanup, extra);
            &&& a[0] == "--layout"@ && a[1] == "single"@
            &&& a[2] == "--deskew-scan-direction"@ && a[3] == "left,right"@
        }),
{
}

// -------------------------------------------------------------------- capture

/// What is due of a capture: the next attempt as long as there is one, nothing
/// more once it was called off, and a report once all attempts have failed.
pub proof fn law_attempts_are_due(r: ScanRun, cancelled: bool, logfile: Seq<u8>, a: ScanAction)
    requires
        scan::next_action(r, cancelled, logfile, a),
    ensures
        r.tried < r.attempts@.len() && !cancelled ==> (a matches ScanAction::Run(c) && text::texts(
            c@,
        ) == text::texts(r.attempts@[r.tried as int]@)),
        r.tried < r.attempts@.len() && cancelled ==> a is Cancelled,
        r.tried >= r.attempts@.len() ==> a is Failed,
        r.tried >= r.attempts@.len() && (r.last_output matches Some(out)) ==> (
        a matches ScanAction::Failed(m) && m@ == process::step_failure(
            "Scanning"@,
            r.last_output->0.stderr@,
            logfile,
        )),
        r.tried >= r.attempts@.len() && r.last_output is None && (r.last_err matches Some(e)) ==> (
        a matches ScanAction::Failed(m) && m@ == process::step_error(
            "Scanning"@,
            "scanimage"@,
            r.last_err->0@,
            logfile,
        )),
{
}

/// In a mode that is not known, a capture is asked for in gray.
pub proof fn law_unknown_mode_is_gray(device: Seq<char>, dpi: u16, mode: Seq<char>)
    requires
        mode != "gray"@,
        mode != "color"@,
        mode != "lineart"@,
    ensures
        scan::attempts(device, dpi, mode)[0][5] == "--mode="@ + "Gray"@,
{
}

/// An attempt has succeeded exactly where the program did and wrote something.
pub proof fn law_when_attempt_succeeds(result: Result<Output, RunError>)
    ensures
        scan::attempt_succeeded(result) <==> (result matches Ok(out) && out.success
            && out.stdout@.len() > 0),
{
}

proof fn lemma_trim_solid(s: Seq<char>)
    requires
        s.len() > 0,
        !text::is_white(s[0]),
        !text::is_white(s.last()),
    ensures
        text::trim(s) == s,
        text::trim(seq![' '] + s) == s,
        text::trim(s.push(' ')) == s,
{
    let a = seq![' '] + s;
    assert(a.drop_first() =~= s);
    assert(text::trim_start(a) == text::trim_start(s));
    let b = s.push(' ');
    assert(text::trim_start(b) == b);
    assert(b.drop_last() =~= s);
    assert(text::trim_end(b) == text::trim_end(s));
}

/// A scanner is labelled with what the listing says of it, without the words
/// before and behind.
pub proof fn law_label_of_scanner(n: Seq<char>)
    requires
        n.len() > 0,
        !text::is_white(n[0]),
        !text::is_white(n.last()),
    ensures
        scan::label_of("is a"@ + (seq![' '] + (n.push(' ') + "flatbed scanner"@))) == n,
{
    reveal_strlit("is a");
    reveal_strlit("is an");
    reveal_strlit("is");
    reveal_strlit("flatbed scanner");
    let tail = n.push(' ') + "flatbed scanner"@;
    let rest = seq![' '] + tail;
    notation::law_strip_pattern(rest, "is a"@);
    notation::law_strip_pattern(rest, "is an"@);
    notation::law_strip_pattern(rest, "is"@);
    assert(rest[0] == ' ');
    assert("is a"@[0] == 'i' && "is an"@[0] == 'i' && "is"@[0] == 'i');
    assert(!"is a"@.is_prefix_of(rest)) by {
        if "is a"@.is_prefix_of(rest) {
            assert(rest.take(4)[0] == rest[0]);
            assert("is a"@[0] == rest[0]);
        }
    }
    assert(!"is an"@.is_prefix_of(rest)) by {
        if "is an"@.is_prefix_of(rest) {
            assert("is an"@[0] == rest[0]);
        }
    }
    assert(!"is"@.is_prefix_of(rest)) by {
        if "is"@.is_prefix_of(rest) {
            assert("is"@[0] == rest[0]);
        }
    }
    assert(tail[0] == n[0]);
    assert(tail.last() == 'r');
    lemma_trim_solid(tail);
    let m = n.push(' ');
    notation::law_strip_pattern(m, "flatbed scanner"@);
    assert(!"flatbed scanner"@.is_suffix_of(m)) by {
        if "flatbed scanner"@.is_suffix_of(m) {
            let p = "flatbed scanner"@;
            assert(m.skip(m.len() - p.len())[p.len() - 1] == m[m.len() - 1]);
            assert(p[p.len() - 1] == 'r');
            assert(p[p.len() - 1] == m.last());
        }
    }
    lemma_trim_solid(n);
}

/// A line without a name stands for no scanner.
pub proof fn law_no_scanner_without_name(g: Seq<Option<Seq<char>>>)
    ensures
        scan::device_of(None) is None,
        g.len() <= 1 ==> scan::device_of(Some(g)) is None,
        g.len() > 1 && g[1] is None ==> scan::device_of(Some(g)) is None,
        g.len() > 2 && g[1] is Some && g[2] is Some ==> scan::device_of(Some(g)) == Some(
            DeviceView { name: g[1]->0, label: scan::label_of(g[2]->0) },
        ),
        scan::device_pattern() == "device `([^']+)' (.*)"@,
{
}

// ----------------------------------------------------------------------- text

/// Text is made in a file that is named after the process and the call, in the
/// given directory.
pub proof fn law_text_files_are_named(dir: Seq<u8>, pid: u32, count: u64)
    ensures
        scan::text_base(dir, pid, count) == path::join_path(
            dir,
            encode_utf8("tess_"@ + text::dec(pid as nat) + "_"@ + text::dec(count as nat)),
        ),
{
}

/// What is reported where no text could be made: what the program said last,
/// or what kept it from running.
pub proof fn law_failed_text_is_explained(result: Result<Output, RunError>, cancelled: bool)
    ensures
        result is Ok && !result->Ok_0.success ==> scan::text_failure(result, cancelled) == Some(
            "tesseract failed: "@ + process::last_lines(path::lossy(result->Ok_0.stderr@), 3),
        ),
        result matches Err(RunError::NotFound) ==> scan::text_failure(result, cancelled) == Some(
            "not found"@,
        ),
{
}

/// The heading of the list of languages, however it is written, and blank
/// lines name no language; any other line does.
pub proof fn law_what_names_language(line: Seq<char>)
    ensures
        text::trim(line).len() == 0 ==> !scan::names_language(line),
        text::starts_with(text::lower(text::trim(line)), "list of available languages"@)
            ==> !scan::names_language(line),
        text::trim(line).len() > 0 && !text::starts_with(
            text::lower(text::trim(line)),
            "list of available languages"@,
        ) ==> scan::names_language(line),
{
}

// ------------------------------------------------------------------ processes

/// What is reported of a program that did not run to its end.
pub proof fn law_failures_are_told(cmd: Seq<char>, s: u64, rc: i32, m: Seq<char>)
    ensures
        process::friendly(cmd, RunErrorView::NotFound) == "Required command not found: "@ + cmd,
        process::friendly(cmd, RunErrorView::Timeout(s)) == "Command timed out after "@ + text::dec(
            s as nat,
        ) + "s: "@ + cmd,
        process::friendly(cmd, RunErrorView::Cancelled) == "cancelled"@,
        process::friendly(cmd, RunErrorView::Failed(rc)) == cmd + " failed (rc="@ + text::dec_int(
            rc as int,
        ) + ")"@,
        process::friendly(cmd, RunErrorView::Io(m)) == cmd + " failed: "@ + m,
        process::run_error_text(RunErrorView::NotFound) == "not found"@,
        process::run_error_text(RunErrorView::Timeout(s)) == "timed out after "@ + text::dec(
            s as nat,
        ) + "s"@,
        process::run_error_text(RunErrorView::Cancelled) == "cancelled"@,
        process::run_error_text(RunErrorView::Failed(rc)) == "exit status "@ + text::dec_int(
            rc as int,
        ),
        process::run_error_text(RunErrorView::Io(m)) == "io error: "@ + m,
        rc < 0 ==> text::dec_int(rc as int) == seq!['-'] + text::dec((-rc) as nat),
        rc >= 0 ==> text::dec_int(rc as int) == text::dec(rc as nat),
{
}

/// What is reported of a step whose program did not run to its end, or failed:
/// the step, the program where that helps, what the program said last, and the
/// log.
pub proof fn law_failed_steps_are_told(
    context: Seq<char>,
    cmd: Seq<char>,
    s: u64,
    stderr: Seq<u8>,
    logfile: Seq<u8>,
)
    ensures
        ({
            let log = "\nFull log: "@ + path::lossy(logfile);
            let tail = process::last_lines(path::lossy(stderr), 5);
            &&& process::step_error(context, cmd, RunErrorView::NotFound, logfile) == context
                + " failed: Required command not found: "@ + cmd + log
            &&& process::step_error(context, cmd, RunErrorView::Timeout(s), logfile) == context
                + " failed: "@ + cmd + " timed out after "@ + text::dec(s as nat) + "s"@ + log
            &&& process::step_error(context, cmd, RunErrorView::Cancelled, logfile) == context
                + " cancelled"@ + log
            &&& tail.len() > 0 ==> process::step_failure(context, stderr, logfile) == context
                + " failed"@ + (":\n"@ + tail) + log
            &&& tail.len() == 0 ==> process::step_failure(context, stderr, logfile) == context
                + " failed"@ + log
        }),
{
    reveal_strlit("");
    assert(context + " failed"@ + ""@ =~= context + " failed"@);
}

/// A program that has to succeed hands over its output where it did; where it
/// failed, what it said last is reported, and where it did not run, why.
pub proof fn law_required_program(cmd: Seq<char>, r: Result<Output, RunError>)
    ensures
        match r {
            Ok(out) => if out.success {
                process::required_ok(cmd, r) == Ok::<Output, Seq<char>>(out)
            } else {
                process::required_ok(cmd, r) == Err::<Output, Seq<char>>(
                    cmd + " failed: "@ + process::last_lines(path::lossy(out.stderr@), 5),
                )
            },
            Err(e) => process::required_ok(cmd, r) == Err::<Output, Seq<char>>(
                process::friendly(cmd, e@),
            ),
        },
{
}

/// A program is killed exactly where it may still be running: when its output
/// could not be read, its time was up, or it was called off.
pub proof fn law_who_is_killed(e: RunEvent)
    ensures
        process::must_kill(e) <==> !(e is SpawnNotFound || e is SpawnFailed || e is Exited),
{
}

/// What a run comes to: an output for a program that exited, with success
/// exactly where its status says so; else the failure that fits.
pub proof fn law_what_runs_come_to(e: RunEvent, r: Result<Output, RunError>)
    requires
        process::run_outcome(e, r),
    ensures
        match e {
            RunEvent::SpawnNotFound => r matches Err(RunError::NotFound),
            RunEvent::SpawnFailed(m) => r matches Err(RunError::Io(n)) && n@ == m@,
            RunEvent::ReadFailed(m) => r matches Err(RunError::Io(n)) && n@ == m@,
            RunEvent::TimedOut(s) => r matches Err(RunError::Timeout(t)) && t == s,
            RunEvent::Cancelled => r matches Err(RunError::Cancelled),
            RunEvent::Exited { stdout, stderr, status } => r matches Ok(out) && out.stdout@
                == stdout@ && out.stderr@ == stderr@ && (out.success <==> status is Some
                && status->0.success),
        },
{
}

// -------------------------------------------------------------------- dialogs

/// The tools for the dialog are called what they are, and kdialog is asked for
/// no title where there is none.
pub proof fn law_dialog_tools(dir: Seq<u8>, filename: Seq<char>)
    ensures
        SaveTool::Zenity.name() == "zenity"@,
        SaveTool::Kdialog.name() == "kdialog"@,
        SaveTool::Yad.name() == "yad"@,
        SaveTool::Kdialog.arguments(dir, filename, Seq::empty()).len() == 3,
        SaveTool::Kdialog.arguments(dir, filename, Seq::empty())[2] == "PDF files (*.pdf)"@,
        SaveTool::Zenity.arguments(dir, filename, Seq::empty()).len() == 6,
        SaveTool::Zenity.arguments(dir, filename, Seq::empty())[5] == "--file-filter="@
            + "PDF files (*.pdf) | *.pdf"@,
        SaveTool::Yad.arguments(dir, filename, Seq::empty()) == SaveTool::Zenity.arguments(
            dir,
            filename,
            Seq::empty(),
        ),
{
}

/// A dialog that exited with a code and not well was dismissed, unless it
/// complained that it has no display; then it could not run.
pub proof fn law_dismissed_or_impossible(status: ExitStatus, stdout: Vec<u8>, stderr: Vec<u8>)
    requires
        !status.success,
        status.code is Some,
    ensures
        ({
            let said = text::lower(path::lossy(stderr@));
            let c = filedialog::dialog_choice(DialogEvent::Exited { status, stdout, stderr });
            let trouble = text::contains_text(said, "cannot open display"@) || text::contains_text(
                said,
                "failed to open display"@,
            ) || text::contains_text(said, "cannot open wayland"@) || text::contains_text(
                said,
                "gtk cannot open display"@,
            ) || text::contains_text(said, "cannot connect to x server"@) || text::contains_text(
                said,
                "qt.qpa.plugin"@,
            );
            c == (if trouble {
                SaveChoiceView::Unavailable
            } else {
                SaveChoiceView::Cancelled
            })
        }),
{
}

// ---------------------------------------------------------------------- small

/// The size that is told of a document is its size in whole KB, and none where
/// it is not known.
pub proof fn law_told_size(len: Option<u64>, r: u64)
    requires
        call_ensures(pdf::size_kb, (len,), r),
    ensures
        len matches Some(n) ==> 1024 * r <= n < 1024 * (r + 1),
        len is None ==> r == 0,
{
}

/// Of the tools for the dialog that are there, zenity is taken first, then
/// kdialog, then yad; without any there is none.
pub proof fn law_tool_is_taken(zenity: bool, kdialog: bool, yad: bool, r: Option<SaveTool>)
    requires
        call_ensures(filedialog::available_tool, (zenity, kdialog, yad), r),
    ensures
        zenity ==> r == Some(SaveTool::Zenity),
        !zenity && kdialog ==> r == Some(SaveTool::Kdialog),
        !zenity && !kdialog && yad ==> r == Some(SaveTool::Yad),
        !zenity && !kdialog && !yad ==> r is None,
{
}

/// The exit code of a program is the one that it has, and minus one where it
/// has none.
pub proof fn law_exit_codes(success: bool, code: i32, a: i32, b: i32, c: i32)
    requires
        call_ensures(
            process::exit_code,
            (Some(ExitStatus { success, code: Some(code) }),),
            a,
        ),
        call_ensures(process::exit_code, (Some(ExitStatus { success, code: None }),), b),
        call_ensures(process::exit_code, (None,), c),
    ensures
        a == code,
        b == -1,
        c == -1,
{
}

/// The programs that list the scanners and the languages.
pub proof fn law_listing_programs(a: Vec<String>, b: Vec<String>)
    requires
        call_ensures(scan::list_devices_command, (), a),
        call_ensures(scan::list_langs_command, (), b),
    ensures
        text::texts(a@) == seq!["scanimage"@, "-L"@],
        text::texts(b@) == seq!["tesseract"@, "--list-langs"@],
{
}

} // verus!
