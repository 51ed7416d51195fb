//! Checks of the environment: which tools, languages and devices are there,
//! and what is to be said about those that are not.

use vstd::prelude::*;

use crate::backend::process::{Output, RunError};
use crate::backend::scan;
use crate::backend::scan::{list_devices, select_device, Device, DeviceView};
use crate::config;
use crate::config::{script_lang_package, Cleanup, Config, ConfigView, PROGRAM, VERSION};
use crate::path;
use crate::path::FilePath;
use crate::session::copy_text;
use crate::text;
use crate::text::{cat, cat3, cat5, has_text, lines_of, split_text};

verus! {

#[derive(Debug, Clone, Copy, PartialEq, Eq, Structural)]
pub enum Status {
    Pass,
    Warn,
    Fail,
    Skip,
    /// Still being found out, which is no failure.
    Pending,
}

impl Status {
    /// How a status is written: four characters at most.
    pub open spec fn label(self) -> Seq<char> {
        match self {
            Status::Pass => " OK"@,
            Status::Warn => "WARN"@,
            Status::Fail => "FAIL"@,
            Status::Skip => "SKIP"@,
            Status::Pending => " ..."@,
        }
    }

    /// How a status is written.
    pub fn as_str(self) -> (r: &'static str)
        ensures
            r@ == self.label(),
    {
        match self {
            Status::Pass => " OK",
            Status::Warn => "WARN",
            Status::Fail => "FAIL",
            Status::Skip => "SKIP",
            Status::Pending => " ...",
        }
    }
}

/// The outcome of one check.
#[derive(Debug)]
pub struct CheckItem {
    pub what: String,
    pub status: Status,
    /// More about it, such as the name of a device.
    pub detail: String,
    /// How to install what is missing.
    pub hint: Option<String>,
    /// What is shown while the check is pending.
    pub pending_detail: Option<String>,
}

/// The outcome of one check, with text as sequences of characters.
#[verifier::ext_equal]
pub struct CheckItemView {
    pub what: Seq<char>,
    pub status: Status,
    pub detail: Seq<char>,
    pub hint: Option<Seq<char>>,
    pub pending_detail: Option<Seq<char>>,
}

impl View for CheckItem {
    type V = CheckItemView;

    open spec fn view(&self) -> CheckItemView {
        CheckItemView {
            what: self.what@,
            status: self.status,
            detail: self.detail@,
            hint: config::opt_text(self.hint),
            pending_detail: config::opt_text(self.pending_detail),
        }
    }
}

impl Clone for CheckItem {
    fn clone(&self) -> (r: Self)
        ensures
            r@ == self@,
    {
        CheckItem {
            what: self.what.clone(),
            status: self.status,
            detail: self.detail.clone(),
            hint: copy_text(&self.hint),
            pending_detail: copy_text(&self.pending_detail),
        }
    }
}

/// The outcomes of several checks.
pub open spec fn item_views(v: Seq<CheckItem>) -> Seq<CheckItemView> {
    v.map_values(|i: CheckItem| i@)
}

/// When a report was made.
#[derive(Debug, Clone, Copy, PartialEq, Eq, Structural)]
pub enum ReportSource {
    /// At the start, before the slow checks.
    StartupFast,
    /// At the start, with the slow checks.
    StartupFinal,
    /// When the user asked for it.
    ReRun,
}

/// The outcomes of all checks, and the device that was found.
#[derive(Debug)]
pub struct Report {
    pub items: Vec<CheckItem>,
    pub device: Option<Device>,
    pub source: ReportSource,
}

/// A report, with text as sequences of characters.
#[verifier::ext_equal]
pub struct ReportView {
    pub items: Seq<CheckItemView>,
    pub device: Option<DeviceView>,
    pub source: ReportSource,
}

/// An optional device, with text as sequences of characters.
pub open spec fn opt_device(d: Option<Device>) -> Option<DeviceView> {
    match d {
        Some(d) => Some(d@),
        None => None,
    }
}

impl View for Report {
    type V = ReportView;

    open spec fn view(&self) -> ReportView {
        ReportView {
            items: item_views(self.items@),
            device: opt_device(self.device),
            source: self.source,
        }
    }
}

impl Default for Report {
    /// A report about nothing.
    fn default() -> (r: Self)
        ensures
            r@ == (ReportView {
                items: Seq::empty(),
                device: None,
                source: ReportSource::StartupFast,
            }),
    {
        let r = Report { items: Vec::new(), device: None, source: ReportSource::StartupFast };
        assert(r@.items =~= Seq::empty());
        r
    }
}

impl Clone for Report {
    fn clone(&self) -> (r: Self)
        ensures
            r@ == self@,
    {
        let items = copy_items(self.items.as_slice());
        let device = match &self.device {
            Some(d) => Some(d.clone()),
            None => None,
        };
        Report { items, device, source: self.source }
    }
}

/// Copies of outcomes.
fn copy_items(items: &[CheckItem]) -> (r: Vec<CheckItem>)
    ensures
        item_views(r@) == item_views(items@),
{
    let mut r: Vec<CheckItem> = Vec::new();
    let mut i: usize = 0;
    while i < items.len()
        invariant
            i <= items@.len(),
            r@.len() == i,
            forall|j: int| 0 <= j < i ==> (#[trigger] r@[j])@ == items@[j]@,
        decreases items@.len() - i,
    {
        r.push(items[i].clone());
        i = i + 1;
    }
    assert(item_views(r@) =~= item_views(items@));
    r
}

/// The outcomes with a status, in order.
pub open spec fn with_status(items: Seq<CheckItemView>, status: Status) -> Seq<CheckItemView>
    decreases items.len(),
{
    if items.len() == 0 {
        Seq::empty()
    } else if items.last().status == status {
        with_status(items.drop_last(), status).push(items.last())
    } else {
        with_status(items.drop_last(), status)
    }
}

/// The outcomes of several checks, behind references.
pub open spec fn ref_views(v: Seq<&CheckItem>) -> Seq<CheckItemView> {
    v.map_values(|i: &CheckItem| i@)
}

/// Whether nothing has failed.
pub open spec fn report_ok(items: Seq<CheckItemView>) -> bool {
    forall|i: int| 0 <= i < items.len() ==> (#[trigger] items[i]).status != Status::Fail
}

/// Whether nothing is pending.
pub open spec fn report_settled(items: Seq<CheckItemView>) -> bool {
    forall|i: int| 0 <= i < items.len() ==> (#[trigger] items[i]).status != Status::Pending
}

fn select_items(items: &Vec<CheckItem>, status: Status) -> (r: Vec<&CheckItem>)
    ensures
        ref_views(r@) == with_status(item_views(items@), status),
{
    let mut r: Vec<&CheckItem> = Vec::new();
    let mut i: usize = 0;
    let ghost all = item_views(items@);
    assert(ref_views(r@) =~= with_status(all.take(0), status));
    while i < items.len()
        invariant
            i <= items@.len(),
            all == item_views(items@),
            ref_views(r@) == with_status(all.take(i as int), status),
        decreases items@.len() - i,
    {
        let ghost before = r@;
        assert(all.take(i + 1).drop_last() =~= all.take(i as int));
        assert(all.take(i + 1).last() == items@[i as int]@);
        if items[i].status == status {
            r.push(&items[i]);
            assert(ref_views(r@) =~= ref_views(before).push(items@[i as int]@));
        }
        i = i + 1;
    }
    assert(all.take(all.len() as int) =~= all);
    r
}

fn none_with(items: &Vec<CheckItem>, status: Status) -> (r: bool)
    ensures
        r <==> forall|i: int|
            0 <= i < items@.len() ==> (#[trigger] item_views(items@)[i]).status != status,
{
    let ghost all = item_views(items@);
    let mut i: usize = 0;
    while i < items.len()
        invariant
            i <= items@.len(),
            all == item_views(items@),
            forall|j: int| 0 <= j < i ==> (#[trigger] all[j]).status != status,
        decreases items@.len() - i,
    {
        assert(all[i as int] == items@[i as int]@);
        if items[i].status == status {
            return false;
        }
        i = i + 1;
    }
    true
}

impl Report {
    /// The checks that failed.
    pub fn errors(&self) -> (r: Vec<&CheckItem>)
        ensures
            ref_views(r@) == with_status(self@.items, Status::Fail),
    {
        select_items(&self.items, Status::Fail)
    }

    /// The checks that ended with a warning.
    pub fn warnings(&self) -> (r: Vec<&CheckItem>)
        ensures
            ref_views(r@) == with_status(self@.items, Status::Warn),
    {
        select_items(&self.items, Status::Warn)
    }

    /// Whether nothing is pending.
    pub fn settled(&self) -> (r: bool)
        ensures
            r == report_settled(self@.items),
    {
        none_with(&self.items, Status::Pending)
    }

    /// Whether nothing has failed.
    pub fn ok(&self) -> (r: bool)
        ensures
            r == report_ok(self@.items),
    {
        none_with(&self.items, Status::Fail)
    }
}

/// A report is in order exactly when it has no errors; what is pending does
/// not count.
pub proof fn law_ok_iff_no_errors(items: Seq<CheckItemView>)
    ensures
        report_ok(items) <==> with_status(items, Status::Fail).len() == 0,
    decreases items.len(),
{
    if items.len() > 0 {
        let init = items.drop_last();
        law_ok_iff_no_errors(init);
        assert forall|i: int| 0 <= i < init.len() implies init[i] == items[i] by {}
        if report_ok(init) && items.last().status != Status::Fail {
            assert forall|i: int| 0 <= i < items.len() implies (#[trigger] items[i]).status
                != Status::Fail by {
                if i < init.len() {
                    assert(items[i] == init[i]);
                }
            }
        }
        if report_ok(items) {
            assert(items[items.len() - 1].status != Status::Fail);
            assert forall|i: int| 0 <= i < init.len() implies (#[trigger] init[i]).status
                != Status::Fail by {
                assert(items[i] == init[i]);
            }
        }
    }
}

// --------------------------------------------------------------------- tools

/// The tools: each with what it is for and how it is installed.
pub const HINTS: [(&'static str, &'static str, &'static str); 7] = [
    (
        "scanimage",
        "SANE (scanner access)",
        "pacman: sudo pacman -S sane hplip / apt: sudo apt install sane hplip",
    ),
    (
        "ocrmypdf",
        "OCRmyPDF (searchable PDFs)",
        "Arch: yay -S ocrmypdf (AUR) or: uv tool install ocrmypdf / apt: sudo apt install ocrmypdf",
    ),
    (
        "tesseract",
        "Tesseract OCR engine",
        "pacman: sudo pacman -S tesseract / apt: sudo apt install tesseract",
    ),
    (
        "img2pdf",
        "img2pdf (lossless image-to-PDF)",
        "pacman: sudo pacman -S img2pdf / apt: sudo apt install img2pdf",
    ),
    (
        "pdfunite",
        "pdfunite (merges pages of mixed DPI, optional)",
        "pacman: sudo pacman -S poppler / apt: sudo apt install poppler-utils",
    ),
    (
        "unpaper",
        "unpaper (legacy cleanup; optional)",
        "pacman: sudo pacman -S unpaper / apt: sudo apt install unpaper",
    ),
    (
        "notify-send",
        "libnotify (desktop notifications, optional)",
        "pacman: sudo pacman -S libnotify / apt: sudo apt install libnotify",
    ),
];

/// How much the program depends on a tool.
#[derive(Debug, Clone, Copy, PartialEq, Eq, Structural)]
pub enum Need {
    /// Nothing works without it.
    Required,
    /// Something does not work without it; see the note.
    Optional,
    /// It depends on the cleanup strategy.
    Cleanup,
}

/// How much the program depends on the tools, in their order.
pub open spec fn need_of(i: int) -> Need {
    if i == 5 {
        Need::Cleanup
    } else if i == 4 || i == 6 {
        Need::Optional
    } else {
        Need::Required
    }
}

/// What does not work without an optional tool.
pub open spec fn lack_of(i: int) -> Seq<char> {
    if i == 4 {
        "mixed-DPI sessions will fail to build"@
    } else if i == 6 {
        "notifications disabled"@
    } else {
        ""@
    }
}

/// What becomes of the cleanup without unpaper.
pub open spec fn cleanup_detail(cleanup: Cleanup, found: bool) -> Seq<char> {
    if cleanup == Cleanup::Off {
        "cleanup = "@ + cleanup.name()
    } else if found {
        ""@
    } else if cleanup == Cleanup::Conservative {
        "not installed; ocrmypdf deskews/cleans at finish"@
    } else {
        "not installed; pages fall back to ocrmypdf cleanup"@
    }
}

/// Whether a tool is there, by how much the program depends on it.
pub open spec fn tool_status(need: Need, cleanup: Cleanup, found: bool) -> Status {
    match need {
        Need::Required => if found {
            Status::Pass
        } else {
            Status::Fail
        },
        Need::Optional => if found {
            Status::Pass
        } else {
            Status::Warn
        },
        Need::Cleanup => if cleanup == Cleanup::Off {
            Status::Skip
        } else if found {
            Status::Pass
        } else {
            Status::Warn
        },
    }
}

/// The check of the tool at place `i`.
pub open spec fn tool_item(i: int, cleanup: Cleanup, found: bool) -> CheckItemView {
    let status = tool_status(need_of(i), cleanup, found);
    CheckItemView {
        what: HINTS@[i].0@ + " ("@ + HINTS@[i].1@ + ")"@,
        status,
        detail: match need_of(i) {
            Need::Cleanup => cleanup_detail(cleanup, found),
            _ => if found {
                ""@
            } else {
                lack_of(i)
            },
        },
        hint: if status == Status::Warn || status == Status::Fail {
            Some(HINTS@[i].2@)
        } else {
            None
        },
        pending_detail: None,
    }
}

/// The checks of all tools.
pub open spec fn tool_items(cleanup: Cleanup, found: Seq<bool>) -> Seq<CheckItemView> {
    Seq::new(7, |i: int| tool_item(i, cleanup, found[i]))
}

fn need(i: usize) -> (r: Need)
    ensures
        r == need_of(i as int),
{
    if i == 5 {
        Need::Cleanup
    } else if i == 4 || i == 6 {
        Need::Optional
    } else {
        Need::Required
    }
}

fn tool_check(i: usize, cleanup: Cleanup, found: bool) -> (r: CheckItem)
    requires
        i < 7,
    ensures
        r@ == tool_item(i as int, cleanup, found),
{
    let hints = HINTS;
    let (bin, what, hint) = hints[i];
    let need = need(i);
    let status = match need {
        Need::Required => if found {
            Status::Pass
        } else {
            Status::Fail
        },
        Need::Optional => if found {
            Status::Pass
        } else {
            Status::Warn
        },
        Need::Cleanup => if cleanup == Cleanup::Off {
            Status::Skip
        } else if found {
            Status::Pass
        } else {
            Status::Warn
        },
    };
    let detail = match need {
        Need::Cleanup => if cleanup == Cleanup::Off {
            cat("cleanup = ", cleanup.as_str())
        } else if found {
            "".to_owned()
        } else if cleanup == Cleanup::Conservative {
            "not installed; ocrmypdf deskews/cleans at finish".to_owned()
        } else {
            "not installed; pages fall back to ocrmypdf cleanup".to_owned()
        },
        _ => if found {
            "".to_owned()
        } else if i == 4 {
            "mixed-DPI sessions will fail to build".to_owned()
        } else if i == 6 {
            "notifications disabled".to_owned()
        } else {
            "".to_owned()
        },
    };
    CheckItem {
        what: cat(cat3(bin, " (", what).as_str(), ")"),
        status,
        detail,
        hint: if status == Status::Warn || status == Status::Fail {
            Some(hint.to_owned())
        } else {
            None
        },
        pending_detail: None,
    }
}

fn add_item(items: &mut Vec<CheckItem>, item: CheckItem)
    ensures
        item_views(final(items)@) == item_views(old(items)@).push(item@),
{
    items.push(item);
    assert(item_views(items@) =~= item_views(old(items)@).push(item@));
}

/// Adds the checks of all tools, given which of them were found.
pub fn push_bin_checks(cleanup: Cleanup, found: &[bool], items: &mut Vec<CheckItem>)
    requires
        found@.len() == 7,
    ensures
        item_views(final(items)@) == item_views(old(items)@) + tool_items(cleanup, found@),
{
    let ghost start = item_views(items@);
    let ghost all = tool_items(cleanup, found@);
    assert(item_views(items@) =~= start + all.take(0));
    let mut i: usize = 0;
    while i < 7
        invariant
            i <= 7,
            found@.len() == 7,
            all == tool_items(cleanup, found@),
            item_views(items@) == start + all.take(i as int),
        decreases 7 - i,
    {
        let item = tool_check(i, cleanup, found[i]);
        add_item(items, item);
        assert(all.take(i + 1) =~= all.take(i as int).push(all[i as int]));
        assert(item_views(items@) =~= start + all.take(i + 1));
        i = i + 1;
    }
    assert(all.take(7) =~= all);
}

/// A missing tool is a failure only where nothing works without it. unpaper
/// is never one, whatever the cleanup strategy.
pub proof fn law_optional_tools_never_fail(i: int, cleanup: Cleanup, found: bool)
    requires
        0 <= i < 7,
    ensures
        tool_item(i, cleanup, found).status == Status::Fail <==> !found && 0 <= i < 4,
        cleanup == Cleanup::Off ==> tool_item(5, cleanup, found).status == Status::Skip,
{
}

// ----------------------------------------------------------------- languages

/// How a missing language is installed.
pub open spec fn lang_hint(lang: Seq<char>) -> Seq<char> {
    if config::script_lang(lang) {
        "apt: sudo apt install "@ + "tesseract-ocr-script-latn"@
            + "\n  arch/other (tessdata dir may differ; see `tesseract --list-langs -v`):\n  curl -fsSL https://github.com/tesseract-ocr/tessdata_fast/raw/main/script/"@
            + lang + ".traineddata | sudo tee /usr/share/tessdata/"@ + lang
            + ".traineddata >/dev/null"@
    } else {
        "pacman: sudo pacman -S tesseract-data-"@ + lang + " / apt: sudo apt install tesseract-ocr-"@
            + lang
    }
}

/// The check of one language.
pub open spec fn lang_item(lang: Seq<char>, ok: bool) -> CheckItemView {
    CheckItemView {
        what: "tesseract language '"@ + lang + "'"@,
        status: if ok {
            Status::Pass
        } else {
            Status::Fail
        },
        detail: ""@,
        hint: if ok {
            None
        } else {
            Some(lang_hint(lang))
        },
        pending_detail: None,
    }
}

/// The checks of some languages; empty parts do not count.
pub open spec fn lang_items(parts: Seq<Seq<char>>, have: Seq<Seq<char>>) -> Seq<CheckItemView>
    decreases parts.len(),
{
    if parts.len() == 0 {
        Seq::empty()
    } else if parts.last().len() == 0 {
        lang_items(parts.drop_last(), have)
    } else {
        lang_items(parts.drop_last(), have).push(
            lang_item(parts.last(), have.contains(parts.last())),
        )
    }
}

/// The checks of the configured languages: none without tesseract.
pub open spec fn langs_checked(langs: Seq<char>, tesseract: bool, have: Seq<Seq<char>>) -> Seq<
    CheckItemView,
> {
    if tesseract {
        lang_items(text::split(langs, '+'), have)
    } else {
        Seq::empty()
    }
}

fn lang_check(lang: &str, ok: bool) -> (r: CheckItem)
    ensures
        r@ == lang_item(lang@, ok),
{
    let hint = if ok {
        None
    } else {
        match script_lang_package(lang) {
            Some(pkg) => {
                let head = cat3(
                    "apt: sudo apt install ",
                    pkg.as_str(),
                    "\n  arch/other (tessdata dir may differ; see `tesseract --list-langs -v`):\n  curl -fsSL https://github.com/tesseract-ocr/tessdata_fast/raw/main/script/",
                );
                Some(
                    cat5(
                        head.as_str(),
                        lang,
                        ".traineddata | sudo tee /usr/share/tessdata/",
                        lang,
                        ".traineddata >/dev/null",
                    ),
                )
            },
            None => Some(
                cat(
                    cat3(
                        "pacman: sudo pacman -S tesseract-data-",
                        lang,
                        " / apt: sudo apt install tesseract-ocr-",
                    ).as_str(),
                    lang,
                ),
            ),
        }
    };
    CheckItem {
        what: cat3("tesseract language '", lang, "'"),
        status: if ok {
            Status::Pass
        } else {
            Status::Fail
        },
        detail: "".to_owned(),
        hint,
        pending_detail: None,
    }
}

/// The checks of the configured languages, given those that are installed.
pub fn lang_checks(langs: &str, tesseract: bool, have: &[String]) -> (r: Vec<CheckItem>)
    ensures
        item_views(r@) == langs_checked(langs@, tesseract, text::texts(have@)),
{
    let mut r: Vec<CheckItem> = Vec::new();
    if !tesseract {
        assert(item_views(r@) =~= Seq::empty());
        return r;
    }
    let parts = split_text(langs, '+');
    let ghost ps = text::split(langs@, '+');
    let ghost hs = text::texts(have@);
    let mut i: usize = 0;
    assert(item_views(r@) =~= lang_items(ps.take(0), hs));
    while i < parts.len()
        invariant
            i <= parts@.len(),
            ps == text::texts(parts@),
            hs == text::texts(have@),
            item_views(r@) == lang_items(ps.take(i as int), hs),
        decreases parts@.len() - i,
    {
        assert(ps.take(i + 1).drop_last() =~= ps.take(i as int));
        assert(ps.take(i + 1).last() == parts@[i as int]@);
        let lang = parts[i].as_str();
        if !lang.is_empty() {
            let ok = has_text(have, lang);
            let item = lang_check(lang, ok);
            add_item(&mut r, item);
        }
        i = i + 1;
    }
    assert(ps.take(ps.len() as int) =~= ps);
    r
}

// -------------------------------------------------------- scanner and output

/// The check of the scanner.
pub open spec fn scanner_item(device: Option<DeviceView>) -> CheckItemView {
    match device {
        Some(d) => CheckItemView {
            what: "scanner"@,
            status: Status::Pass,
            detail: d.name,
            hint: None,
            pending_detail: None,
        },
        None => CheckItemView {
            what: "scanner"@,
            status: Status::Fail,
            detail: "no device found (scanimage -L)"@,
            hint: Some(
                "is the scanner plugged in and powered on?\nHP devices: run `sudo hp-setup -i` once, then `scanimage -L`\ntest manually: scanimage -L"@,
            ),
            pending_detail: None,
        },
    }
}

/// The device that a listing leads to: none where it failed.
pub open spec fn device_found(wanted: Seq<char>, listing: Result<Output, RunError>) -> Option<
    DeviceView,
> {
    match scan::devices_listed(listing) {
        Ok(devices) => match scan::selected(devices, wanted) {
            Some(i) => Some(devices[i]),
            None => None,
        },
        Err(_) => None,
    }
}

/// The scanner that the configuration asks for, out of a listing.
pub fn detect_scanner(wanted: &str, listing: Result<Output, RunError>) -> (r: Option<Device>)
    ensures
        opt_device(r) == device_found(wanted@, listing),
{
    match list_devices(listing) {
        Ok(devices) => match select_device(devices.as_slice(), wanted) {
            Some(d) => Some(d.clone()),
            None => None,
        },
        Err(_) => None,
    }
}

/// The check of the scanner.
pub fn detect_device(device: &Option<Device>) -> (r: CheckItem)
    ensures
        r@ == scanner_item(opt_device(*device)),
{
    match device {
        Some(d) => CheckItem {
            what: "scanner".to_owned(),
            status: Status::Pass,
            detail: d.name.clone(),
            hint: None,
            pending_detail: None,
        },
        None => CheckItem {
            what: "scanner".to_owned(),
            status: Status::Fail,
            detail: "no device found (scanimage -L)".to_owned(),
            hint: Some(
                "is the scanner plugged in and powered on?\nHP devices: run `sudo hp-setup -i` once, then `scanimage -L`\ntest manually: scanimage -L".to_owned(),
            ),
            pending_detail: None,
        },
    }
}

/// What was found out about the output directory.
#[derive(Debug)]
pub enum OutputDir {
    /// It could not be created, for this reason.
    NotCreated(String),
    /// It exists, but nothing can be written to it.
    NotWritable,
    Writable,
}

/// The status of the output directory, with a note behind its name.
pub open spec fn output_state(o: OutputDir) -> (Status, Seq<char>) {
    match o {
        OutputDir::NotCreated(e) => (Status::Fail, " ("@ + e@ + ")"@),
        OutputDir::NotWritable => (Status::Fail, " (not writable)"@),
        OutputDir::Writable => (Status::Pass, ""@),
    }
}

/// The check of the output directory.
pub open spec fn output_item(dir: Seq<u8>, o: OutputDir) -> CheckItemView {
    CheckItemView {
        what: "output directory"@,
        status: output_state(o).0,
        detail: path::lossy(dir) + output_state(o).1,
        hint: None,
        pending_detail: None,
    }
}

/// The status of the output directory, with a note behind its name.
pub fn ensure_output_dir(o: &OutputDir) -> (r: (Status, String))
    ensures
        r.0 == output_state(*o).0,
        r.1@ == output_state(*o).1,
{
    match o {
        OutputDir::NotCreated(e) => (Status::Fail, cat3(" (", e.as_str(), ")")),
        OutputDir::NotWritable => (Status::Fail, " (not writable)".to_owned()),
        OutputDir::Writable => (Status::Pass, "".to_owned()),
    }
}

fn output_check(dir: &FilePath, o: &OutputDir) -> (r: CheckItem)
    ensures
        r@ == output_item(dir@, *o),
{
    let (status, note) = ensure_output_dir(o);
    CheckItem {
        what: "output directory".to_owned(),
        status,
        detail: cat(dir.display().as_str(), note.as_str()),
        hint: None,
        pending_detail: None,
    }
}

/// The check of the scanner before it is known.
pub open spec fn pending_scanner() -> CheckItemView {
    CheckItemView {
        what: "scanner"@,
        status: Status::Pending,
        detail: ""@,
        hint: None,
        pending_detail: Some("detecting..."@),
    }
}

// ------------------------------------------------------------------- reports

/// What the slow checks found out.
#[derive(Debug)]
pub struct SlowFacts {
    /// The installed languages.
    pub langs: Vec<String>,
    /// The scanner that the configuration asks for.
    pub device: Option<Device>,
}

/// Tesseract's place among the tools.
pub const TESSERACT: usize = 2;

/// All checks.
pub open spec fn all_checks(
    cfg: ConfigView,
    found: Seq<bool>,
    output: OutputDir,
    langs: Seq<Seq<char>>,
    device: Option<DeviceView>,
) -> ReportView {
    ReportView {
        items: tool_items(cfg.cleanup, found) + langs_checked(
            cfg.langs,
            found[TESSERACT as int],
            langs,
        ) + seq![scanner_item(device), output_item(cfg.output, output)],
        device,
        source: ReportSource::ReRun,
    }
}

/// The checks that take no time; the scanner is pending.
pub open spec fn fast_checks(cfg: ConfigView, found: Seq<bool>, output: OutputDir) -> ReportView {
    ReportView {
        items: tool_items(cfg.cleanup, found) + seq![
            output_item(cfg.output, output),
            pending_scanner(),
        ],
        device: None,
        source: ReportSource::StartupFast,
    }
}

/// The checks that take time.
pub open spec fn slow_checks(
    cfg: ConfigView,
    tesseract: bool,
    langs: Seq<Seq<char>>,
    device: Option<DeviceView>,
) -> ReportView {
    ReportView {
        items: langs_checked(cfg.langs, tesseract, langs) + seq![scanner_item(device)],
        device,
        source: ReportSource::StartupFinal,
    }
}

/// The outcomes that are not pending, in order.
pub open spec fn settled_items(items: Seq<CheckItemView>) -> Seq<CheckItemView>
    decreases items.len(),
{
    if items.len() == 0 {
        Seq::empty()
    } else if items.last().status == Status::Pending {
        settled_items(items.drop_last())
    } else {
        settled_items(items.drop_last()).push(items.last())
    }
}

/// The final report of the start: what the fast checks found out, and in
/// place of what they left pending what the slow ones found out.
pub open spec fn merged(fast: ReportView, slow: ReportView) -> ReportView {
    ReportView {
        items: settled_items(fast.items) + slow.items,
        device: slow.device,
        source: ReportSource::StartupFinal,
    }
}

/// All checks, as a user asks for them.
pub fn run_checks(cfg: &Config, found: &[bool], output: &OutputDir, slow: SlowFacts) -> (r: Report)
    requires
        found@.len() == 7,
    ensures
        r@ == all_checks(
            cfg@,
            found@,
            *output,
            text::texts(slow.langs@),
            opt_device(slow.device),
        ),
{
    let mut items: Vec<CheckItem> = Vec::new();
    assert(item_views(items@) =~= Seq::empty());
    push_bin_checks(cfg.cleanup, found, &mut items);
    let ghost a = item_views(items@);
    assert(a =~= tool_items(cfg.cleanup, found@));
    let mut langs = lang_checks(cfg.langs.as_str(), found[TESSERACT], slow.langs.as_slice());
    let ghost x = items@;
    let ghost y = langs@;
    items.append(&mut langs);
    assert(item_views(items@) =~= item_views(x) + item_views(y));
    add_item(&mut items, detect_device(&slow.device));
    add_item(&mut items, output_check(&cfg.output, output));
    let r = Report { items, device: slow.device, source: ReportSource::ReRun };
    assert(r@.items =~= all_checks(
        cfg@,
        found@,
        *output,
        text::texts(slow.langs@),
        opt_device(slow.device),
    ).items);
    r
}

/// The checks that take no time.
pub fn run_checks_fast(cfg: &Config, found: &[bool], output: &OutputDir) -> (r: Report)
    requires
        found@.len() == 7,
    ensures
        r@ == fast_checks(cfg@, found@, *output),
{
    let mut items: Vec<CheckItem> = Vec::new();
    assert(item_views(items@) =~= Seq::empty());
    push_bin_checks(cfg.cleanup, found, &mut items);
    add_item(&mut items, output_check(&cfg.output, output));
    add_item(
        &mut items,
        CheckItem {
            what: "scanner".to_owned(),
            status: Status::Pending,
            detail: "".to_owned(),
            hint: None,
            pending_detail: Some("detecting...".to_owned()),
        },
    );
    let r = Report { items, device: None, source: ReportSource::StartupFast };
    assert(r@.items =~= fast_checks(cfg@, found@, *output).items);
    r
}

/// The checks that take time.
pub fn run_checks_slow(cfg: &Config, tesseract: bool, slow: SlowFacts) -> (r: Report)
    ensures
        r@ == slow_checks(cfg@, tesseract, text::texts(slow.langs@), opt_device(slow.device)),
{
    let mut items = lang_checks(cfg.langs.as_str(), tesseract, slow.langs.as_slice());
    add_item(&mut items, detect_device(&slow.device));
    let r = Report { items, device: slow.device, source: ReportSource::StartupFinal };
    assert(r@.items =~= slow_checks(
        cfg@,
        tesseract,
        text::texts(slow.langs@),
        opt_device(slow.device),
    ).items);
    r
}

/// The final report of the start.
pub fn merge_fast_slow(fast: &Report, slow: Report) -> (r: Report)
    ensures
        r@ == merged(fast@, slow@),
{
    let mut items: Vec<CheckItem> = Vec::new();
    let ghost all = fast@.items;
    let mut i: usize = 0;
    assert(item_views(items@) =~= settled_items(all.take(0)));
    while i < fast.items.len()
        invariant
            i <= fast.items@.len(),
            all == item_views(fast.items@),
            item_views(items@) == settled_items(all.take(i as int)),
        decreases fast.items@.len() - i,
    {
        assert(all.take(i + 1).drop_last() =~= all.take(i as int));
        assert(all.take(i + 1).last() == fast.items@[i as int]@);
        if fast.items[i].status != Status::Pending {
            add_item(&mut items, fast.items[i].clone());
        }
        i = i + 1;
    }
    assert(all.take(all.len() as int) =~= all);
    let mut more = slow.items;
    let ghost x = items@;
    let ghost y = more@;
    items.append(&mut more);
    assert(item_views(items@) =~= item_views(x) + item_views(y));
    let r = Report { items, device: slow.device, source: ReportSource::StartupFinal };
    assert(r@.items =~= merged(fast@, slow@).items);
    r
}

proof fn lemma_settled(items: Seq<CheckItemView>)
    ensures
        report_settled(settled_items(items)),
    decreases items.len(),
{
    if items.len() > 0 {
        lemma_settled(items.drop_last());
        let init = settled_items(items.drop_last());
        let all = settled_items(items);
        assert forall|i: int| 0 <= i < all.len() implies (#[trigger] all[i]).status
            != Status::Pending by {
            if i < init.len() {
                assert(all[i] == init[i]);
            }
        }
    }
}

proof fn lemma_lang_items_settled(parts: Seq<Seq<char>>, have: Seq<Seq<char>>)
    ensures
        report_settled(lang_items(parts, have)),
    decreases parts.len(),
{
    if parts.len() > 0 {
        lemma_lang_items_settled(parts.drop_last(), have);
        let init = lang_items(parts.drop_last(), have);
        let all = lang_items(parts, have);
        assert forall|i: int| 0 <= i < all.len() implies (#[trigger] all[i]).status
            != Status::Pending by {
            if i < init.len() {
                assert(all[i] == init[i]);
            }
        }
    }
}

/// The final report of the start leaves nothing pending, and it has a device
/// exactly where the scanner's check, which comes last, is in order.
pub proof fn law_merged_is_settled(
    fast: ReportView,
    cfg: ConfigView,
    tesseract: bool,
    langs: Seq<Seq<char>>,
    device: Option<DeviceView>,
)
    ensures
        report_settled(merged(fast, slow_checks(cfg, tesseract, langs, device)).items),
        merged(fast, slow_checks(cfg, tesseract, langs, device)).device == device,
        merged(fast, slow_checks(cfg, tesseract, langs, device)).items.last() == scanner_item(
            device,
        ),
        merged(fast, slow_checks(cfg, tesseract, langs, device)).items.last().status == Status::Pass
            <==> device is Some,
{
    lemma_settled(fast.items);
    let slow = slow_checks(cfg, tesseract, langs, device);
    lemma_lang_items_settled(text::split(cfg.langs, '+'), langs);
    let a = settled_items(fast.items);
    let m = merged(fast, slow).items;
    let ls = langs_checked(cfg.langs, tesseract, langs);
    assert forall|i: int| 0 <= i < m.len() implies (#[trigger] m[i]).status != Status::Pending by {
        if i < a.len() {
            assert(m[i] == a[i]);
        } else if i < a.len() + ls.len() {
            assert(m[i] == ls[i - a.len()]);
        }
    }
}

/// The checks at the start and those that a user asks for find the same
/// things out: the same tools, the same languages, the same scanner and the
/// same output directory.
pub proof fn law_startup_equals_rerun(
    cfg: ConfigView,
    found: Seq<bool>,
    output: OutputDir,
    langs: Seq<Seq<char>>,
    device: Option<DeviceView>,
)
    ensures
        ({
            let start = merged(
                fast_checks(cfg, found, output),
                slow_checks(cfg, found[TESSERACT as int], langs, device),
            );
            let again = all_checks(cfg, found, output, langs, device);
            &&& start.items.to_multiset() == again.items.to_multiset()
            &&& start.device == again.device
        }),
{
    let tools = tool_items(cfg.cleanup, found);
    let out = output_item(cfg.output, output);
    let ls = langs_checked(cfg.langs, found[TESSERACT as int], langs);
    let sc = scanner_item(device);
    let fast = fast_checks(cfg, found, output).items;
    assert(fast.drop_last() =~= tools.push(out));
    assert(settled_items(fast) == settled_items(tools.push(out)));
    assert(tools.push(out).drop_last() =~= tools);
    lemma_settled_tools(cfg.cleanup, found, 7);
    assert(tools.take(7) =~= tools);
    assert(settled_items(tools.push(out)) =~= tools.push(out));
    let start = tools.push(out) + (ls + seq![sc]);
    let again = tools + ls + seq![sc, out];
    let mid = tools + ls + seq![sc];
    vstd::seq_lib::to_multiset_insert(mid, tools.len() as int, out);
    vstd::seq_lib::to_multiset_insert(mid, mid.len() as int, out);
    assert(mid.insert(tools.len() as int, out) =~= start);
    assert(mid.insert(mid.len() as int, out) =~= again);
}

proof fn lemma_settled_tools(cleanup: Cleanup, found: Seq<bool>, n: int)
    requires
        0 <= n <= 7,
    ensures
        settled_items(tool_items(cleanup, found).take(n)) == tool_items(cleanup, found).take(n),
    decreases n,
{
    let t = tool_items(cleanup, found);
    if n > 0 {
        lemma_settled_tools(cleanup, found, n - 1);
        assert(t.take(n).drop_last() =~= t.take(n - 1));
        assert(t.take(n - 1).push(t[n - 1]) =~= t.take(n));
    } else {
        assert(t.take(0) =~= Seq::empty());
    }
}

/// A report, and the scanner that it found.
pub fn preflight(report: Report) -> (r: (Report, Option<Device>))
    ensures
        r.0@ == report@,
        opt_device(r.1) == report@.device,
{
    let device = match &report.device {
        Some(d) => Some(d.clone()),
        None => None,
    };
    (report, device)
}

/// What people read of a device.
pub open spec fn label_or_name(d: Option<DeviceView>) -> Seq<char> {
    match d {
        Some(d) => if d.label.len() > 0 {
            d.label
        } else {
            d.name
        },
        None => "no scanner"@,
    }
}

/// What people read of a device: its label, else its name.
pub fn device_label(d: Option<&Device>) -> (r: String)
    ensures
        r@ == label_or_name(
            match d {
                Some(d) => Some(d@),
                None => None,
            },
        ),
{
    match d {
        Some(d) => if !d.label.as_str().is_empty() {
            d.label.clone()
        } else {
            d.name.clone()
        },
        None => "no scanner".to_owned(),
    }
}

// -------------------------------------------------------------------- doctor

/// A line of an installation hint, as it is printed.
pub open spec fn install_line(line: Seq<char>) -> Seq<char> {
    "    install: "@ + line + "\n"@
}

/// The lines of an installation hint.
pub open spec fn hint_lines(lines: Seq<Seq<char>>) -> Seq<char>
    decreases lines.len(),
{
    if lines.len() == 0 {
        ""@
    } else {
        hint_lines(lines.drop_last()) + install_line(lines.last())
    }
}

/// What is printed of how to install what a check found missing.
pub open spec fn install_text(i: CheckItemView) -> Seq<char> {
    match i.hint {
        Some(h) => if i.status == Status::Fail || i.status == Status::Warn {
            hint_lines(text::lines(h))
        } else {
            ""@
        },
        None => ""@,
    }
}

/// What is printed of one check.
pub open spec fn item_text(i: CheckItemView) -> Seq<char> {
    if i.status == Status::Fail {
        "  ["@ + i.status.label() + "] "@ + i.what + "\n"@ + install_text(i)
    } else {
        "  ["@ + i.status.label() + "] "@ + i.what + " "@ + i.detail + "\n"@ + install_text(i)
    }
}

/// What is printed of several checks.
pub open spec fn items_text(items: Seq<CheckItemView>) -> Seq<char>
    decreases items.len(),
{
    if items.len() == 0 {
        ""@
    } else {
        items_text(items.drop_last()) + item_text(items.last())
    }
}

/// What `--doctor` prints.
pub open spec fn doctor_report(output: Seq<u8>, rust: Seq<char>, r: ReportView) -> Seq<char> {
    PROGRAM@ + " "@ + VERSION@ + " - dependency and environment check\n"@ + "\nRust: "@ + rust
        + "\n"@ + "\nTools:\n"@ + items_text(r.items) + (match r.device {
        Some(d) => "\nScanner: "@ + d.name + "\n"@,
        None => ""@,
    }) + (if output.len() == 0 {
        ""@
    } else {
        "Output: "@ + path::lossy(output) + "\n"@
    })
}

fn hint_text(hint: &str) -> (r: String)
    ensures
        r@ == hint_lines(text::lines(hint@)),
{
    let all = lines_of(hint);
    let ghost ls = text::lines(hint@);
    let mut r = "".to_owned();
    let mut i: usize = 0;
    assert(r@ =~= hint_lines(ls.take(0)));
    while i < all.len()
        invariant
            i <= all@.len(),
            ls == text::texts(all@),
            r@ == hint_lines(ls.take(i as int)),
        decreases all@.len() - i,
    {
        assert(ls.take(i + 1).drop_last() =~= ls.take(i as int));
        assert(ls.take(i + 1).last() == all@[i as int]@);
        r = cat(r.as_str(), cat3("    install: ", all[i].as_str(), "\n").as_str());
        i = i + 1;
    }
    assert(ls.take(ls.len() as int) =~= ls);
    r
}

fn item_line(i: &CheckItem) -> (r: String)
    ensures
        r@ == item_text(i@),
{
    let head = cat3("  [", i.status.as_str(), "] ");
    let hints = match &i.hint {
        Some(h) => if i.status == Status::Fail || i.status == Status::Warn {
            hint_text(h.as_str())
        } else {
            "".to_owned()
        },
        None => "".to_owned(),
    };
    let line = if i.status == Status::Fail {
        cat3(head.as_str(), i.what.as_str(), "\n")
    } else {
        cat5(head.as_str(), i.what.as_str(), " ", i.detail.as_str(), "\n")
    };
    cat(line.as_str(), hints.as_str())
}

/// What `--doctor` prints, given the version of Rust that the program was
/// built with.
pub fn print_doctor(cfg: &Config, rust: &str, report: &Report) -> (r: String)
    ensures
        r@ == doctor_report(cfg@.output, rust@, report@),
{
    let head = cat(
        cat3(PROGRAM, " ", VERSION).as_str(),
        " - dependency and environment check\n",
    );
    let mut out = cat(
        cat(cat3(head.as_str(), "\nRust: ", rust).as_str(), "\n").as_str(),
        "\nTools:\n",
    );
    let ghost start = out@;
    let ghost all = report@.items;
    let mut i: usize = 0;
    proof {
        reveal_strlit("");
    }
    assert(out@ =~= start + items_text(all.take(0)));
    while i < report.items.len()
        invariant
            i <= report.items@.len(),
            all == item_views(report.items@),
            out@ == start + items_text(all.take(i as int)),
        decreases report.items@.len() - i,
    {
        assert(all.take(i + 1).drop_last() =~= all.take(i as int));
        assert(all.take(i + 1).last() == report.items@[i as int]@);
        out = cat(out.as_str(), item_line(&report.items[i]).as_str());
        assert(out@ =~= start + items_text(all.take(i + 1)));
        i = i + 1;
    }
    assert(all.take(all.len() as int) =~= all);
    let scanner = match &report.device {
        Some(d) => cat3("\nScanner: ", d.name.as_str(), "\n"),
        None => "".to_owned(),
    };
    let place = if cfg.output.is_empty() {
        "".to_owned()
    } else {
        cat3("Output: ", cfg.output.display().as_str(), "\n")
    };
    cat3(out.as_str(), scanner.as_str(), place.as_str())
}

proof fn lemma_contains_within(a: Seq<char>, m: Seq<char>, b: Seq<char>, pat: Seq<char>)
    requires
        text::contains_text(m, pat),
    ensures
        text::contains_text(a + m + b, pat),
{
    let i = choose|i: int| text::matches_at(m, pat, i);
    let s = a + m + b;
    assert(s.subrange(a.len() + i, a.len() + i + pat.len()) =~= m.subrange(i, i + pat.len()));
    assert(text::matches_at(s, pat, a.len() + i));
}

proof fn lemma_hint_line(lines: Seq<Seq<char>>, j: int)
    requires
        0 <= j < lines.len(),
    ensures
        text::contains_text(hint_lines(lines), install_line(lines[j])),
    decreases lines.len(),
{
    let pat = install_line(lines[j]);
    let before = hint_lines(lines.drop_last());
    if j == lines.len() - 1 {
        assert(text::matches_at(pat, pat, 0)) by {
            assert(pat.subrange(0, pat.len() as int) =~= pat);
        }
        lemma_contains_within(before, pat, Seq::empty(), pat);
        assert(before + pat + Seq::empty() =~= hint_lines(lines));
    } else {
        lemma_hint_line(lines.drop_last(), j);
        assert(lines.drop_last()[j] == lines[j]);
        let last = install_line(lines.last());
        lemma_contains_within(Seq::empty(), before, last, pat);
        assert(Seq::<char>::empty() + before + last =~= hint_lines(lines));
    }
}

proof fn lemma_item_printed(items: Seq<CheckItemView>, k: int, pat: Seq<char>)
    requires
        0 <= k < items.len(),
        text::contains_text(item_text(items[k]), pat),
    ensures
        text::contains_text(items_text(items), pat),
    decreases items.len(),
{
    let before = items_text(items.drop_last());
    let last = item_text(items.last());
    if k == items.len() - 1 {
        lemma_contains_within(before, last, Seq::empty(), pat);
        assert(before + last + Seq::empty() =~= items_text(items));
    } else {
        assert(items.drop_last()[k] == items[k]);
        lemma_item_printed(items.drop_last(), k, pat);
        lemma_contains_within(Seq::empty(), before, last, pat);
        assert(Seq::<char>::empty() + before + last =~= items_text(items));
    }
}

/// `--doctor` says how to install anything that is missing: every line of the
/// hint of a check that failed or warns is printed.
pub proof fn law_missing_has_hint(
    output: Seq<u8>,
    rust: Seq<char>,
    r: ReportView,
    k: int,
    j: int,
)
    requires
        0 <= k < r.items.len(),
        r.items[k].status == Status::Fail || r.items[k].status == Status::Warn,
        r.items[k].hint matches Some(h) && 0 <= j < text::lines(h).len(),
    ensures
        text::contains_text(
            doctor_report(output, rust, r),
            install_line(text::lines(r.items[k].hint->0)[j]),
        ),
{
    let i = r.items[k];
    let lines = text::lines(i.hint->0);
    let pat = install_line(lines[j]);
    lemma_hint_line(lines, j);
    let head = if i.status == Status::Fail {
        "  ["@ + i.status.label() + "] "@ + i.what + "\n"@
    } else {
        "  ["@ + i.status.label() + "] "@ + i.what + " "@ + i.detail + "\n"@
    };
    lemma_contains_within(head, hint_lines(lines), Seq::empty(), pat);
    assert(head + hint_lines(lines) + Seq::empty() =~= item_text(i));
    lemma_item_printed(r.items, k, pat);
    let start = PROGRAM@ + " "@ + VERSION@ + " - dependency and environment check\n"@
        + "\nRust: "@ + rust + "\n"@ + "\nTools:\n"@;
    let device = match r.device {
        Some(d) => "\nScanner: "@ + d.name + "\n"@,
        None => ""@,
    };
    let place = if output.len() == 0 {
        ""@
    } else {
        "Output: "@ + path::lossy(output) + "\n"@
    };
    lemma_contains_within(start, items_text(r.items), device + place, pat);
    assert(start + items_text(r.items) + (device + place) =~= doctor_report(output, rust, r));
}

/// The exit status of `--doctor`: zero where nothing has failed.
pub fn doctor_status(report: &Report) -> (r: i32)
    ensures
        r == (if report_ok(report@.items) {
            0i32
        } else {
            1i32
        }),
{
    if report.ok() {
        0
    } else {
        1
    }
}

proof fn lemma_all_languages_there(parts: Seq<Seq<char>>, have: Seq<Seq<char>>)
    ensures
        report_ok(lang_items(parts, have)) <==> forall|i: int|
            0 <= i < parts.len() && (#[trigger] parts[i]).len() > 0 ==> have.contains(parts[i]),
    decreases parts.len(),
{
    if parts.len() > 0 {
        let init = parts.drop_last();
        lemma_all_languages_there(init, have);
        assert forall|i: int| 0 <= i < init.len() implies init[i] == parts[i] by {}
        let rest = lang_items(init, have);
        let all = lang_items(parts, have);
        let n = parts.len() - 1;
        if parts.last().len() > 0 {
            assert forall|i: int| 0 <= i < rest.len() implies all[i] == rest[i] by {}
            assert(all[all.len() - 1] == lang_item(parts.last(), have.contains(parts.last())));
            if report_ok(all) {
                assert(all[all.len() - 1].status != Status::Fail);
                assert forall|i: int| 0 <= i < rest.len() implies (#[trigger] rest[i]).status
                    != Status::Fail by {
                    assert(all[i].status != Status::Fail);
                }
            }
        }
        if forall|i: int|
            0 <= i < parts.len() && (#[trigger] parts[i]).len() > 0 ==> have.contains(parts[i]) {
            assert forall|i: int| 0 <= i < init.len() && (#[trigger] init[i]).len() > 0 implies
                have.contains(init[i]) by {
                assert(parts[i] == init[i]);
            }
            if parts[n].len() > 0 {
                assert(have.contains(parts[n]));
            }
        }
        if report_ok(all) {
            assert forall|i: int| 0 <= i < parts.len() && (#[trigger] parts[i]).len() > 0 implies
                have.contains(parts[i]) by {
                if i < n {
                    assert(init[i] == parts[i]);
                }
            }
        }
    }
}

/// The checks pass exactly where everything is there that the program cannot
/// do without: scanimage, ocrmypdf, tesseract and img2pdf, data for every
/// configured language, a scanner, and an output directory to write to.
pub proof fn law_what_is_needed(
    cfg: ConfigView,
    found: Seq<bool>,
    output: OutputDir,
    langs: Seq<Seq<char>>,
    device: Option<DeviceView>,
)
    requires
        found.len() == 7,
    ensures
        report_ok(all_checks(cfg, found, output, langs, device).items) <==> {
            &&& found[0] && found[1] && found[2] && found[3]
            &&& device is Some
            &&& output is Writable
            &&& forall|i: int|
                0 <= i < text::split(cfg.langs, '+').len() && (#[trigger] text::split(
                    cfg.langs,
                    '+',
                )[i]).len() > 0 ==> langs.contains(text::split(cfg.langs, '+')[i])
        },
{
    let parts = text::split(cfg.langs, '+');
    let tools = tool_items(cfg.cleanup, found);
    let ls = langs_checked(cfg.langs, found[2], langs);
    let all = all_checks(cfg, found, output, langs, device).items;
    lemma_all_languages_there(parts, langs);
    assert forall|i: int| 0 <= i < 7 implies all[i] == tools[i] by {}
    assert forall|i: int| 0 <= i < ls.len() implies all[7 + i] == ls[i] by {}
    assert(all[all.len() - 2] == scanner_item(device));
    assert(all[all.len() - 1] == output_item(cfg.output, output));
    if report_ok(all) {
        assert(all[0].status != Status::Fail && all[1].status != Status::Fail && all[2].status
            != Status::Fail && all[3].status != Status::Fail);
        assert(all[all.len() - 2].status != Status::Fail && all[all.len() - 1].status
            != Status::Fail);
        assert forall|i: int| 0 <= i < ls.len() implies (#[trigger] ls[i]).status
            != Status::Fail by {
            assert(all[7 + i].status != Status::Fail);
        }
    }
    if found[0] && found[1] && found[2] && found[3] && device is Some && output is Writable
        && report_ok(ls) {
        assert forall|i: int| 0 <= i < all.len() implies (#[trigger] all[i]).status
            != Status::Fail by {
            if i < 7 {
                assert(all[i] == tools[i]);
            } else if i < 7 + ls.len() {
                assert(all[i] == ls[i - 7]);
            }
        }
    }
}

/// The check of a tool names the tool, and says how to install it exactly
/// where it is missing and wanted.
pub proof fn law_tools_are_named(i: int, cleanup: Cleanup, found: bool)
    requires
        0 <= i < 7,
    ensures
        ({
            let t = tool_item(i, cleanup, found);
            let name = if i == 0 {
                "scanimage"@
            } else if i == 1 {
                "ocrmypdf"@
            } else if i == 2 {
                "tesseract"@
            } else if i == 3 {
                "img2pdf"@
            } else if i == 4 {
                "pdfunite"@
            } else if i == 5 {
                "unpaper"@
            } else {
                "notify-send"@
            };
            &&& name.is_prefix_of(t.what)
            &&& t.hint is Some <==> !found && (i != 5 || cleanup != Cleanup::Off)
            &&& found && i != 5 ==> t.status == Status::Pass
            &&& !found && (i == 4 || i == 6) ==> t.status == Status::Warn
            &&& i == 5 && cleanup != Cleanup::Off ==> t.status == (if found {
                Status::Pass
            } else {
                Status::Warn
            })
        }),
{
    let t = tool_item(i, cleanup, found);
    let name = HINTS@[i].0@;
    assert(t.what.take(name.len() as int) =~= name);
}

/// The scanner that is used is one of the listing: the first one, or the first
/// one whose name holds the wanted text.
pub proof fn law_scanner_is_listed(wanted: Seq<char>, listing: Result<Output, RunError>)
    ensures
        device_found(wanted, listing) matches Some(d) ==> {
            &&& scan::devices_listed(listing) is Ok
            &&& scan::devices_listed(listing)->Ok_0.contains(d)
            &&& wanted == "auto"@ ==> d == scan::devices_listed(listing)->Ok_0[0]
            &&& wanted != "auto"@ ==> text::contains_text(d.name, wanted)
        },
        scan::devices_listed(listing) matches Ok(ds) && ds.len() > 0 && wanted == "auto"@
            ==> device_found(wanted, listing) is Some,
{
    if let Ok(ds) = scan::devices_listed(listing) {
        scan::law_selection(ds, wanted);
    }
}

/// A scanner is shown by its label, or by its name where it has none.
pub proof fn law_scanner_label(d: DeviceView)
    ensures
        d.label.len() > 0 ==> label_or_name(Some(d)) == d.label,
        d.label.len() == 0 ==> label_or_name(Some(d)) == d.name,
        label_or_name(None) == "no scanner"@,
{
}

/// A scanner that was found passes its check, and the check names it; without
/// one the check fails and says what to do. While it is looked for, the check
/// is pending and says so.
pub proof fn law_check_of_scanner(d: DeviceView)
    ensures
        scanner_item(Some(d)).what == "scanner"@,
        scanner_item(Some(d)).status == Status::Pass,
        scanner_item(Some(d)).detail == d.name,
        scanner_item(Some(d)).hint is None,
        scanner_item(None).what == "scanner"@,
        scanner_item(None).status == Status::Fail,
        scanner_item(None).hint is Some,
        pending_scanner().what == "scanner"@,
        pending_scanner().status == Status::Pending,
        pending_scanner().pending_detail == Some("detecting..."@),
{
}

/// The output directory passes its check exactly where it can be written to;
/// the check names the directory, and behind it the reason for a failure.
pub proof fn law_check_of_output(dir: Seq<u8>, o: OutputDir)
    ensures
        output_item(dir, o).what == "output directory"@,
        output_item(dir, o).status == Status::Pass <==> o is Writable,
        output_item(dir, o).status == Status::Fail <==> !(o is Writable),
        path::lossy(dir).is_prefix_of(output_item(dir, o).detail),
        o is Writable ==> output_item(dir, o).detail == path::lossy(dir),
        o is NotWritable ==> output_item(dir, o).detail == path::lossy(dir) + " (not writable)"@,
        o matches OutputDir::NotCreated(e) ==> output_item(dir, o).detail == path::lossy(dir) + (
        " ("@ + e@ + ")"@),
{
    reveal_strlit("");
    let d = output_item(dir, o).detail;
    assert(d.take(path::lossy(dir).len() as int) =~= path::lossy(dir));
    if o is Writable {
        assert(d =~= path::lossy(dir));
    }
}

/// A language passes its check exactly where it is installed; the check names
/// it, and a missing one is named in how to install it too.
pub proof fn law_check_of_language(lang: Seq<char>, ok: bool)
    ensures
        ({
            let i = lang_item(lang, ok);
            &&& i.what == "tesseract language '"@ + lang + "'"@
            &&& ok ==> i.status == Status::Pass && i.hint is None
            &&& !ok ==> i.status == Status::Fail && i.hint is Some
            &&& !ok && lang != "Latin"@ ==> i.hint->0 == "pacman: sudo pacman -S tesseract-data-"@
                + lang + " / apt: sudo apt install tesseract-ocr-"@ + lang
        }),
{
}

/// The configured languages are checked in their order, and empty ones are
/// not; without tesseract none is.
pub proof fn law_languages_are_checked(
    parts: Seq<Seq<char>>,
    lang: Seq<char>,
    have: Seq<Seq<char>>,
    langs: Seq<char>,
)
    ensures
        lang_items(Seq::empty(), have).len() == 0,
        lang.len() > 0 ==> lang_items(parts.push(lang), have) == lang_items(parts, have).push(
            lang_item(lang, have.contains(lang)),
        ),
        lang.len() == 0 ==> lang_items(parts.push(lang), have) == lang_items(parts, have),
        langs_checked(langs, true, have) == lang_items(text::split(langs, '+'), have),
        langs_checked(langs, false, have).len() == 0,
{
    assert(parts.push(lang).drop_last() =~= parts);
}

/// The report of a rerun holds the device that was found and says that it was
/// asked for; at the start the fast part holds none, and the final report
/// holds the one of the slow part.
pub proof fn law_reports_hold_device(
    cfg: ConfigView,
    found: Seq<bool>,
    output: OutputDir,
    langs: Seq<Seq<char>>,
    device: Option<DeviceView>,
)
    ensures
        all_checks(cfg, found, output, langs, device).device == device,
        all_checks(cfg, found, output, langs, device).source == ReportSource::ReRun,
        fast_checks(cfg, found, output).device is None,
        fast_checks(cfg, found, output).source == ReportSource::StartupFast,
        fast_checks(cfg, found, output).items.last() == pending_scanner(),
        fast_checks(cfg, found, output).items.len() == 9,
        slow_checks(cfg, found[2], langs, device).device == device,
        merged(
            fast_checks(cfg, found, output),
            slow_checks(cfg, found[2], langs, device),
        ).source == ReportSource::StartupFinal,
{
}

/// What the doctor prints of a check: its outcome in a word and its name, and
/// behind that what was found out, except of one that failed. Checks are
/// printed in their order.
pub proof fn law_doctor_prints_checks(items: Seq<CheckItemView>, i: CheckItemView)
    requires
        i.hint is None,
    ensures
        items_text(items.push(i)) == items_text(items) + item_text(i),
        items_text(Seq::empty()).len() == 0,
        i.status == Status::Pass ==> item_text(i) =~= "  ["@ + " OK"@ + "] "@ + i.what + " "@
            + i.detail + "\n"@,
        i.status == Status::Warn ==> item_text(i) =~= "  ["@ + "WARN"@ + "] "@ + i.what + " "@
            + i.detail + "\n"@,
        i.status == Status::Skip ==> item_text(i) =~= "  ["@ + "SKIP"@ + "] "@ + i.what + " "@
            + i.detail + "\n"@,
        i.status == Status::Fail ==> item_text(i) =~= "  ["@ + "FAIL"@ + "] "@ + i.what + "\n"@,
{
    reveal_strlit("");
    assert(items.push(i).drop_last() =~= items);
}

/// What is said of unpaper: that cleaning is off where it is, nothing where it
/// is installed, and else what becomes of the pages without it. What is said
/// of the other tools that can be done without is what does not work then.
pub proof fn law_tool_details(cleanup: Cleanup)
    ensures
        tool_item(5, Cleanup::Off, true).detail == "cleanup = "@ + "off"@,
        tool_item(5, Cleanup::Off, false).detail == "cleanup = "@ + "off"@,
        cleanup != Cleanup::Off ==> tool_item(5, cleanup, true).detail == ""@,
        tool_item(5, Cleanup::Conservative, false).detail
            == "not installed; ocrmypdf deskews/cleans at finish"@,
        tool_item(5, Cleanup::Legacy, false).detail
            == "not installed; pages fall back to ocrmypdf cleanup"@,
        tool_item(4, cleanup, false).detail == "mixed-DPI sessions will fail to build"@,
        tool_item(6, cleanup, false).detail == "notifications disabled"@,
        tool_item(4, cleanup, true).detail == ""@,
        tool_item(6, cleanup, true).detail == ""@,
        tool_item(5, Cleanup::Off, false).status == Status::Skip,
        lang_hint("Latin"@) == "apt: sudo apt install "@ + "tesseract-ocr-script-latn"@
            + "\n  arch/other (tessdata dir may differ; see `tesseract --list-langs -v`):\n  curl -fsSL https://github.com/tesseract-ocr/tessdata_fast/raw/main/script/"@
            + "Latin"@ + ".traineddata | sudo tee /usr/share/tessdata/"@ + "Latin"@
            + ".traineddata >/dev/null"@,
{
}

/// Nothing has failed, or is pending, exactly where no check has or is; and of
/// a report with pending checks the others stay, in their order.
pub proof fn law_settled_checks(items: Seq<CheckItemView>, i: CheckItemView, k: int)
    ensures
        0 <= k < items.len() && items[k].status == Status::Fail ==> !report_ok(items),
        0 <= k < items.len() && items[k].status == Status::Pending ==> !report_settled(items),
        report_ok(Seq::empty()) && report_settled(Seq::empty()),
        report_ok(items.push(i)) <==> report_ok(items) && i.status != Status::Fail,
        report_settled(items.push(i)) <==> report_settled(items) && i.status != Status::Pending,
        i.status == Status::Pending ==> settled_items(items.push(i)) == settled_items(items),
        i.status != Status::Pending ==> settled_items(items.push(i)) == settled_items(items).push(
            i,
        ),
        with_status(items.push(i), i.status) == with_status(items, i.status).push(i),
        i.status != Status::Fail ==> with_status(items.push(i), Status::Fail) == with_status(
            items,
            Status::Fail,
        ),
{
    let all = items.push(i);
    assert(all.drop_last() =~= items);
    assert(all[items.len() as int] == i);
    assert forall|j: int| 0 <= j < items.len() implies #[trigger] all[j] == items[j] by {}
    if report_ok(all) {
        assert forall|j: int| 0 <= j < items.len() implies (#[trigger] items[j]).status
            != Status::Fail by {
            assert(all[j].status != Status::Fail);
        }
    }
    if report_settled(all) {
        assert forall|j: int| 0 <= j < items.len() implies (#[trigger] items[j]).status
            != Status::Pending by {
            assert(all[j].status != Status::Pending);
        }
    }
}

} // verus!
