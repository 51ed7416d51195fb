//! The desktop's own save dialogs: zenity, kdialog and yad.
//!
//! Where none of them is installed the plain confirmation with the default
//! path takes their place, so that a document can always be finished.

use vstd::prelude::*;
use vstd::utf8::*;

use crate::backend::process::ExitStatus;
use crate::path;
use crate::path::{bytes_of, lossy_text, FilePath};
use crate::text;
use crate::text::{cat, has_substring, to_lower};

verus! {

/// A program that shows a save dialog.
#[derive(Debug, Clone, Copy, PartialEq, Eq, Structural)]
pub enum SaveTool {
    Zenity,
    Kdialog,
    Yad,
}

/// The files that a dialog offers, in the notation of zenity and yad.
pub const PDF_FILTER: &'static str = "PDF files (*.pdf) | *.pdf";

/// The files that a dialog offers, in the notation of kdialog, which would
/// take a bar for the start of another entry.
pub const KDIALOG_FILTER: &'static str = "PDF files (*.pdf)";

/// The arguments that zenity and yad take.
pub open spec fn gtk_args(seed: Seq<char>, title: Seq<char>) -> Seq<Seq<char>> {
    seq![
        "--file-selection"@,
        "--save"@,
        "--confirm-overwrite"@,
        "--filename="@ + seed,
        "--title="@ + title,
        "--file-filter="@ + PDF_FILTER@,
    ]
}

/// The arguments that kdialog takes.
pub open spec fn kdialog_args(seed: Seq<char>, title: Seq<char>) -> Seq<Seq<char>> {
    seq!["--getsavefilename"@, seed, KDIALOG_FILTER@] + (if title.len() == 0 {
        Seq::empty()
    } else {
        seq!["--title"@, title]
    })
}

impl SaveTool {
    /// What a tool is called.
    pub open spec fn name(self) -> Seq<char> {
        match self {
            SaveTool::Zenity => "zenity"@,
            SaveTool::Kdialog => "kdialog"@,
            SaveTool::Yad => "yad"@,
        }
    }

    pub fn binary(self) -> (r: &'static str)
        ensures
            r@ == self.name(),
    {
        match self {
            SaveTool::Zenity => "zenity",
            SaveTool::Kdialog => "kdialog",
            SaveTool::Yad => "yad",
        }
    }

    /// The arguments with which a tool opens in `dir` with `filename` filled
    /// in. All of them want the full path for that.
    pub open spec fn arguments(self, dir: Seq<u8>, filename: Seq<char>, title: Seq<char>) -> Seq<
        Seq<char>,
    > {
        let seed = path::lossy(path::join_path(dir, encode_utf8(filename)));
        match self {
            SaveTool::Kdialog => kdialog_args(seed, title),
            _ => gtk_args(seed, title),
        }
    }

    /// The arguments with which a tool opens in `dir` with `filename` filled
    /// in.
    pub fn args(self, dir: &FilePath, filename: &str, title: &str) -> (r: Vec<String>)
        ensures
            text::texts(r@) == self.arguments(dir@, filename@, title@),
    {
        let seed = dir.join(filename).display();
        match self {
            SaveTool::Kdialog => {
                let mut r = vec!["--getsavefilename".to_owned(), seed, KDIALOG_FILTER.to_owned()];
                if !title.is_empty() {
                    r.push("--title".to_owned());
                    r.push(title.to_owned());
                }
                assert(text::texts(r@) =~= kdialog_args(seed@, title@));
                r
            },
            _ => {
                let r = vec![
                    "--file-selection".to_owned(),
                    "--save".to_owned(),
                    "--confirm-overwrite".to_owned(),
                    cat("--filename=", seed.as_str()),
                    cat("--title=", title),
                    cat("--file-filter=", PDF_FILTER),
                ];
                assert(text::texts(r@) =~= gtk_args(seed@, title@));
                r
            },
        }
    }
}

/// The tool to use, given which ones are installed: zenity before kdialog
/// before yad.
pub fn available_tool(zenity: bool, kdialog: bool, yad: bool) -> (r: Option<SaveTool>)
    ensures
        r == (if zenity {
            Some(SaveTool::Zenity)
        } else if kdialog {
            Some(SaveTool::Kdialog)
        } else if yad {
            Some(SaveTool::Yad)
        } else {
            None
        }),
{
    if zenity {
        Some(SaveTool::Zenity)
    } else if kdialog {
        Some(SaveTool::Kdialog)
    } else if yad {
        Some(SaveTool::Yad)
    } else {
        None
    }
}

/// What came of a save dialog.
#[derive(Debug, PartialEq, Eq)]
pub enum SaveChoice {
    Chosen(FilePath),
    /// The dialog ran and the user dismissed it.
    Cancelled,
    /// There is no tool, or it could not run.
    Unavailable,
}

/// A choice, with the path as bytes.
#[verifier::ext_equal]
pub enum SaveChoiceView {
    Chosen(Seq<u8>),
    Cancelled,
    Unavailable,
}

impl View for SaveChoice {
    type V = SaveChoiceView;

    open spec fn view(&self) -> SaveChoiceView {
        match *self {
            SaveChoice::Chosen(p) => SaveChoiceView::Chosen(p@),
            SaveChoice::Cancelled => SaveChoiceView::Cancelled,
            SaveChoice::Unavailable => SaveChoiceView::Unavailable,
        }
    }
}

/// Whether an error message speaks of a missing display.
pub open spec fn display_trouble(stderr: Seq<char>) -> bool {
    let m = text::lower(stderr);
    ||| text::contains_text(m, "cannot open display"@)
    ||| text::contains_text(m, "failed to open display"@)
    ||| text::contains_text(m, "cannot open wayland"@)
    ||| text::contains_text(m, "gtk cannot open display"@)
    ||| text::contains_text(m, "cannot connect to x server"@)
    ||| text::contains_text(m, "qt.qpa.plugin"@)
}

/// Whether a dialog could not run at all, rather than being dismissed: it
/// was killed by a signal, or its message speaks of a missing display.
pub fn looks_unavailable(code: Option<i32>, stderr: &str) -> (r: bool)
    ensures
        r == (code is None || display_trouble(stderr@)),
{
    if code.is_none() {
        return true;
    }
    let msg = to_lower(stderr);
    let m = msg.as_str();
    has_substring(m, "cannot open display") || has_substring(m, "failed to open display")
        || has_substring(m, "cannot open wayland") || has_substring(m, "gtk cannot open display")
        || has_substring(m, "cannot connect to x server") || has_substring(m, "qt.qpa.plugin")
}

/// ASCII white space.
pub open spec fn blank_byte(b: u8) -> bool {
    b == 0x20 || b == 0x09 || b == 0x0a || b == 0x0c || b == 0x0d
}

/// Bytes without the white space at their end.
pub open spec fn trimmed(b: Seq<u8>) -> Seq<u8>
    decreases b.len(),
{
    if b.len() > 0 && blank_byte(b.last()) {
        trimmed(b.drop_last())
    } else {
        b
    }
}

/// The path that a dialog has written: its bytes as they are, without the
/// white space at their end.
pub fn os_string_from_capped(bytes: &[u8]) -> (r: FilePath)
    ensures
        r@ == trimmed(bytes@),
{
    let mut n: usize = bytes.len();
    assert(bytes@.take(n as int) =~= bytes@);
    while n > 0 && (bytes[n - 1] == 0x20 || bytes[n - 1] == 0x09 || bytes[n - 1] == 0x0a || bytes[n
        - 1] == 0x0c || bytes[n - 1] == 0x0d)
        invariant
            n <= bytes@.len(),
            trimmed(bytes@) == trimmed(bytes@.take(n as int)),
        decreases n,
    {
        assert(bytes@.take(n as int).drop_last() =~= bytes@.take(n - 1));
        n = n - 1;
    }
    let r = bytes_of(bytes, 0, n);
    assert(r@ =~= bytes@.take(n as int));
    FilePath::from_bytes(r)
}

/// How a dialog ended.
#[derive(Debug)]
pub enum DialogEvent {
    /// No tool is installed.
    NoTool,
    /// The tool could not be started.
    SpawnFailed,
    /// The tool ended.
    Exited { status: ExitStatus, stdout: Vec<u8>, stderr: Vec<u8> },
}

/// What came of a save dialog.
pub open spec fn dialog_choice(e: DialogEvent) -> SaveChoiceView {
    match e {
        DialogEvent::NoTool => SaveChoiceView::Unavailable,
        DialogEvent::SpawnFailed => SaveChoiceView::Unavailable,
        DialogEvent::Exited { status, stdout, stderr } => if !status.success {
            if status.code is None || display_trouble(path::lossy(stderr@)) {
                SaveChoiceView::Unavailable
            } else {
                SaveChoiceView::Cancelled
            }
        } else if trimmed(stdout@).len() == 0 {
            SaveChoiceView::Cancelled
        } else {
            SaveChoiceView::Chosen(trimmed(stdout@))
        },
    }
}

/// What came of a save dialog.
pub fn save_dialog(e: DialogEvent) -> (r: SaveChoice)
    ensures
        r@ == dialog_choice(e),
{
    match e {
        DialogEvent::NoTool => SaveChoice::Unavailable,
        DialogEvent::SpawnFailed => SaveChoice::Unavailable,
        DialogEvent::Exited { status, stdout, stderr } => {
            if !status.success {
                let msg = lossy_text(stderr.as_slice());
                if looks_unavailable(status.code, msg.as_str()) {
                    return SaveChoice::Unavailable;
                }
                return SaveChoice::Cancelled;
            }
            let chosen = os_string_from_capped(stdout.as_slice());
            if chosen.is_empty() {
                return SaveChoice::Cancelled;
            }
            SaveChoice::Chosen(chosen)
        },
    }
}

/// A path is chosen only when the tool ended well, and it is then not empty
/// and does not end in white space.
pub proof fn law_chosen_path(e: DialogEvent)
    ensures
        dialog_choice(e) matches SaveChoiceView::Chosen(p) ==> {
            &&& e matches DialogEvent::Exited { status, .. } && status.success
            &&& p.len() > 0
            &&& !blank_byte(p.last())
        },
{
    if let DialogEvent::Exited { stdout, .. } = e {
        lemma_trimmed(stdout@);
    }
}

proof fn lemma_trimmed(b: Seq<u8>)
    ensures
        trimmed(b).len() > 0 ==> !blank_byte(trimmed(b).last()),
    decreases b.len(),
{
    if b.len() > 0 && blank_byte(b.last()) {
        lemma_trimmed(b.drop_last());
    }
}

} // verus!
