//! The scanner, driven through SANE's `scanimage`, and text recognition with
//! `tesseract`.

use vstd::prelude::*;
use vstd::utf8::*;

use crate::backend::process;
use crate::backend::process::{
    fail_with_log, fail_with_log_err, Output, RunError, RunErrorView,
};
use crate::config;
use crate::path;
use crate::path::{lossy_text, FilePath};
use crate::text;
use crate::text::{
    cat, cat3, copy_texts, has_prefix, has_substring, lines_of, same, strip_all_prefixes, strip_all_suffixes,
    to_lower, trim_text, u64_text,
};

verus! {

/// Seconds that the listing of devices may take.
pub const LIST_TIMEOUT: u64 = 30;

/// Seconds that the listing of languages may take.
pub const LIST_LANGS_TIMEOUT: u64 = 15;

/// A scanner.
#[derive(Debug, PartialEq, Eq)]
pub struct Device {
    /// The full SANE name.
    pub name: String,
    /// The part that people read.
    pub label: String,
}

/// A scanner, with text as sequences of characters.
#[verifier::ext_equal]
pub struct DeviceView {
    pub name: Seq<char>,
    pub label: Seq<char>,
}

impl View for Device {
    type V = DeviceView;

    open spec fn view(&self) -> DeviceView {
        DeviceView { name: self.name@, label: self.label@ }
    }
}

impl Clone for Device {
    fn clone(&self) -> (r: Self)
        ensures
            r@ == self@,
    {
        Device { name: self.name.clone(), label: self.label.clone() }
    }
}

/// The scanners of a list.
pub open spec fn device_views(v: Seq<Device>) -> Seq<DeviceView> {
    v.map_values(|d: Device| d@)
}

/// What a scan mode is called in `scanimage --mode=...`.
pub open spec fn mode_argument(mode: Seq<char>) -> Option<Seq<char>> {
    if mode == "gray"@ {
        Some("Gray"@)
    } else if mode == "color"@ {
        Some("Color"@)
    } else if mode == "lineart"@ {
        Some("Lineart"@)
    } else {
        None
    }
}

/// What a scan mode is called in `scanimage --mode=...`.
pub fn scanimage_mode(mode: &str) -> (r: Option<&'static str>)
    ensures
        match r {
            Some(m) => mode_argument(mode@) == Some(m@),
            None => mode_argument(mode@) is None,
        },
{
    if same(mode, "gray") {
        Some("Gray")
    } else if same(mode, "color") {
        Some("Color")
    } else if same(mode, "lineart") {
        Some("Lineart")
    } else {
        None
    }
}

/// Exactly the modes that a user can choose have a name for `scanimage`.
pub proof fn law_modes_known(mode: Seq<char>)
    ensures
        mode_argument(mode) is Some <==> config::scan_modes().contains(mode),
{
    let m = config::scan_modes();
    assert(m[0] == "gray"@ && m[1] == "color"@ && m[2] == "lineart"@);
}

// ------------------------------------------------------------------- devices

/// What the groups of a regular expression's first match in a text hold, the
/// whole match first; nothing where the text does not match.
pub uninterp spec fn first_match(pattern: Seq<char>, s: Seq<char>) -> Option<
    Seq<Option<Seq<char>>>,
>;

/// The groups of a match, with text as sequences of characters.
pub open spec fn groups(m: Option<Vec<Option<String>>>) -> Option<Seq<Option<Seq<char>>>> {
    match m {
        Some(v) => Some(v@.map_values(|g: Option<String>| config::opt_text(g))),
        None => None,
    }
}

/// `regex::Regex::captures`: the groups of the first match of a pattern in a
/// text. A pattern that is no regular expression matches nothing.
#[verifier::external_body]
pub(crate) fn first_captures(pattern: &str, s: &str) -> (r: Option<Vec<Option<String>>>)
    ensures
        groups(r) == first_match(pattern@, s@),
{
    let re = regex::Regex::new(pattern).ok()?;
    let caps = re.captures(s)?;
    Some(caps.iter().map(|g| g.map(|m| m.as_str().to_string())).collect())
}

/// The lines that `scanimage -L` writes for a device.
pub open spec fn device_pattern() -> Seq<char> {
    "device `([^']+)' (.*)"@
}

/// What people read of a device, out of `is a HP Deskjet flatbed scanner`.
pub open spec fn label_of(rest: Seq<char>) -> Seq<char> {
    text::trim(
        text::trim_end_matches(
            text::trim(
                text::trim_start_matches(
                    text::trim_start_matches(
                        text::trim_start_matches(rest, "is a"@),
                        "is an"@,
                    ),
                    "is"@,
                ),
            ),
            "flatbed scanner"@,
        ),
    )
}

/// The device that a line with these groups stands for.
pub open spec fn device_of(m: Option<Seq<Option<Seq<char>>>>) -> Option<DeviceView> {
    match m {
        Some(g) => if g.len() > 1 && g[1] is Some {
            Some(
                DeviceView {
                    name: g[1]->0,
                    label: label_of(
                        if g.len() > 2 && g[2] is Some {
                            g[2]->0
                        } else {
                            ""@
                        },
                    ),
                },
            )
        } else {
            None
        },
        None => None,
    }
}

/// What people read of a device.
pub fn device_label(rest: &str) -> (r: String)
    ensures
        r@ == label_of(rest@),
{
    proof {
        reveal_strlit("is a");
        reveal_strlit("is an");
        reveal_strlit("is");
        reveal_strlit("flatbed scanner");
    }
    let a = strip_all_prefixes(rest, "is a");
    let b = strip_all_prefixes(a.as_str(), "is an");
    let c = strip_all_prefixes(b.as_str(), "is");
    let d = trim_text(c.as_str());
    let e = strip_all_suffixes(d.as_str(), "flatbed scanner");
    trim_text(e.as_str())
}

/// The device that a line with these groups stands for.
pub fn device_from(m: Option<Vec<Option<String>>>) -> (r: Option<Device>)
    ensures
        match r {
            Some(d) => device_of(groups(m)) == Some(d@),
            None => device_of(groups(m)) is None,
        },
{
    match m {
        Some(g) => {
            let ghost gs = groups(Some(g))->0;
            if g.len() <= 1 {
                return None;
            }
            assert(gs[1] == config::opt_text(g@[1]));
            match &g[1] {
                Some(name) => {
                    let label = if g.len() > 2 {
                        assert(gs[2] == config::opt_text(g@[2]));
                        match &g[2] {
                            Some(rest) => device_label(rest.as_str()),
                            None => device_label(""),
                        }
                    } else {
                        device_label("")
                    };
                    Some(Device { name: name.clone(), label })
                },
                None => None,
            }
        },
        None => None,
    }
}

/// The devices that lines of `scanimage -L` name.
pub open spec fn devices_in(lines: Seq<Seq<char>>) -> Seq<DeviceView>
    decreases lines.len(),
{
    if lines.len() == 0 {
        Seq::empty()
    } else {
        let rest = devices_in(lines.drop_last());
        match device_of(first_match(device_pattern(), text::trim(lines.last()))) {
            Some(d) => rest.push(d),
            None => rest,
        }
    }
}

/// The devices that the output of `scanimage -L` names.
pub fn parse_devices(out: &str) -> (r: Vec<Device>)
    ensures
        device_views(r@) == devices_in(text::lines(out@)),
{
    let all = lines_of(out);
    let mut r: Vec<Device> = Vec::new();
    let mut i: usize = 0;
    let ghost ls = text::lines(out@);
    assert(device_views(r@) =~= devices_in(ls.take(0)));
    while i < all.len()
        invariant
            i <= all@.len(),
            ls == text::texts(all@),
            device_views(r@) == devices_in(ls.take(i as int)),
        decreases all@.len() - i,
    {
        let ghost before = r@;
        assert(ls.take(i + 1).drop_last() =~= ls.take(i as int));
        assert(ls.take(i + 1).last() == all@[i as int]@);
        let line = trim_text(all[i].as_str());
        let m = first_captures("device `([^']+)' (.*)", line.as_str());
        if let Some(d) = device_from(m) {
            r.push(d);
            assert(device_views(r@) =~= device_views(before).push(d@));
        }
        i = i + 1;
    }
    assert(ls.take(ls.len() as int) =~= ls);
    r
}

/// The program that lists the devices.
pub fn list_devices_command() -> (r: Vec<String>)
    ensures
        text::texts(r@) == seq!["scanimage"@, "-L"@],
{
    let r = vec!["scanimage".to_owned(), "-L".to_owned()];
    assert(text::texts(r@) =~= seq!["scanimage"@, "-L"@]);
    r
}

/// What the listing of the devices came to: a listing that names devices
/// counts, whatever the exit status.
pub open spec fn devices_listed(r: Result<Output, RunError>) -> Result<
    Seq<DeviceView>,
    RunErrorView,
> {
    match r {
        Err(e) => Err(e@),
        Ok(out) => {
            let devices = devices_in(text::lines(path::lossy(out.stdout@)));
            if !out.success && devices.len() == 0 {
                Err(RunErrorView::Failed(-1i32))
            } else {
                Ok(devices)
            }
        },
    }
}

/// The devices that a listing names.
pub fn list_devices(result: Result<Output, RunError>) -> (r: Result<Vec<Device>, RunError>)
    ensures
        match r {
            Ok(v) => devices_listed(result) == Ok::<Seq<DeviceView>, RunErrorView>(
                device_views(v@),
            ),
            Err(e) => devices_listed(result) == Err::<Seq<DeviceView>, RunErrorView>(e@),
        },
{
    match result {
        Err(e) => Err(e),
        Ok(out) => {
            let s = lossy_text(out.stdout.as_slice());
            let devices = parse_devices(s.as_str());
            if !out.success && devices.len() == 0 {
                Err(RunError::Failed(-1))
            } else {
                Ok(devices)
            }
        },
    }
}

/// The device that a user wants: the first one for `auto`, else the first
/// one whose name holds the given text.
pub open spec fn selected(devices: Seq<DeviceView>, wanted: Seq<char>) -> Option<int>
    decreases devices.len(),
{
    if devices.len() == 0 {
        None
    } else {
        match selected(devices.drop_last(), wanted) {
            Some(i) => Some(i),
            None => if wanted == "auto"@ || text::contains_text(devices.last().name, wanted) {
                Some(devices.len() - 1)
            } else {
                None
            },
        }
    }
}

proof fn lemma_selected_none(devices: Seq<DeviceView>, wanted: Seq<char>)
    requires
        wanted != "auto"@,
        forall|j: int|
            0 <= j < devices.len() ==> !text::contains_text((#[trigger] devices[j]).name, wanted),
    ensures
        selected(devices, wanted) is None,
    decreases devices.len(),
{
    if devices.len() > 0 {
        let init = devices.drop_last();
        assert forall|j: int| 0 <= j < init.len() implies !text::contains_text(
            (#[trigger] init[j]).name,
            wanted,
        ) by {
            assert(init[j] == devices[j]);
        }
        lemma_selected_none(init, wanted);
    }
}

proof fn lemma_selected_at(devices: Seq<DeviceView>, wanted: Seq<char>, i: int)
    requires
        0 <= i < devices.len(),
        wanted == "auto"@ ==> i == 0,
        wanted == "auto"@ || text::contains_text(devices[i].name, wanted),
        forall|j: int|
            0 <= j < i ==> !text::contains_text((#[trigger] devices[j]).name, wanted),
    ensures
        selected(devices, wanted) == Some(i),
    decreases devices.len(),
{
    let init = devices.drop_last();
    if i < devices.len() - 1 {
        assert forall|j: int| 0 <= j < i implies !text::contains_text(
            (#[trigger] init[j]).name,
            wanted,
        ) by {
            assert(init[j] == devices[j]);
        }
        lemma_selected_at(init, wanted, i);
    } else if wanted == "auto"@ {
        assert(init.len() == 0);
    } else {
        assert forall|j: int| 0 <= j < init.len() implies !text::contains_text(
            (#[trigger] init[j]).name,
            wanted,
        ) by {
            assert(init[j] == devices[j]);
        }
        lemma_selected_none(init, wanted);
    }
}

/// The device that a user wants, if there is one.
pub fn select_device<'a>(devices: &'a [Device], wanted: &str) -> (r: Option<&'a Device>)
    ensures
        match r {
            Some(d) => selected(device_views(devices@), wanted@) is Some && d@ == device_views(
                devices@,
            )[selected(device_views(devices@), wanted@)->0],
            None => selected(device_views(devices@), wanted@) is None,
        },
{
    let ghost ds = device_views(devices@);
    if same(wanted, "auto") {
        if devices.len() == 0 {
            return None;
        }
        proof {
            lemma_selected_at(ds, wanted@, 0);
        }
        return Some(&devices[0]);
    }
    let mut i: usize = 0;
    while i < devices.len()
        invariant
            i <= devices@.len(),
            ds == device_views(devices@),
            wanted@ != "auto"@,
            forall|j: int|
                0 <= j < i ==> !text::contains_text((#[trigger] ds[j]).name, wanted@),
        decreases devices@.len() - i,
    {
        assert(ds[i as int] == devices@[i as int]@);
        if has_substring(devices[i].name.as_str(), wanted) {
            proof {
                lemma_selected_at(ds, wanted@, i as int);
            }
            return Some(&devices[i]);
        }
        i = i + 1;
    }
    proof {
        lemma_selected_none(ds, wanted@);
    }
    None
}

/// `auto` finds a device wherever there is one, and it is the first. A text
/// that no name holds finds none: there is no falling back to another device.
pub proof fn law_selection(devices: Seq<DeviceView>, wanted: Seq<char>)
    ensures
        wanted == "auto"@ ==> selected(devices, wanted) == (if devices.len() > 0 {
            Some(0int)
        } else {
            None
        }),
        wanted != "auto"@ ==> match selected(devices, wanted) {
            Some(i) => 0 <= i < devices.len() && text::contains_text(devices[i].name, wanted)
                && forall|j: int|
                0 <= j < i ==> !text::contains_text((#[trigger] devices[j]).name, wanted),
            None => forall|j: int|
                0 <= j < devices.len() ==> !text::contains_text(
                    (#[trigger] devices[j]).name,
                    wanted,
                ),
        },
    decreases devices.len(),
{
    if devices.len() > 0 {
        let init = devices.drop_last();
        law_selection(init, wanted);
        assert forall|j: int| 0 <= j < init.len() implies init[j] == devices[j] by {}
    }
}

// ------------------------------------------------------------------- capture

/// How a page was captured.
#[derive(Debug, Clone, Copy, PartialEq, Eq, Structural)]
pub struct ScanOutcome {
    /// The scanner rejected the requested settings and captured the page with
    /// fewer of them; the scale of the image may differ from what was asked.
    pub used_fallback: bool,
}

/// What every attempt at a capture asks for.
pub open spec fn base_args(device: Seq<char>) -> Seq<Seq<char>> {
    seq!["scanimage"@, "-d"@, device, "--format=png"@]
}

/// The attempts at a capture, in order: with all settings, without the mode,
/// with neither. The image is a PNG in every case.
pub open spec fn attempts(device: Seq<char>, dpi: u16, mode: Seq<char>) -> Seq<Seq<Seq<char>>> {
    let base = base_args(device);
    let resolution = "--resolution="@ + text::dec(dpi as nat);
    let m = match mode_argument(mode) {
        Some(m) => m,
        None => "Gray"@,
    };
    seq![base.push(resolution).push("--mode="@ + m), base.push(resolution), base]
}

/// The arguments of several programs.
pub open spec fn commands(v: Seq<Vec<String>>) -> Seq<Seq<Seq<char>>> {
    v.map_values(|c: Vec<String>| text::texts(c@))
}

fn base_vec(device: &str) -> (r: Vec<String>)
    ensures
        text::texts(r@) == base_args(device@),
{
    let r = vec![
        "scanimage".to_owned(),
        "-d".to_owned(),
        device.to_owned(),
        "--format=png".to_owned(),
    ];
    assert(text::texts(r@) =~= base_args(device@));
    r
}

/// The attempts at a capture, in order.
pub fn scan_attempts(device: &str, dpi: u16, mode: &str) -> (r: Vec<Vec<String>>)
    ensures
        commands(r@) == attempts(device@, dpi, mode@),
{
    let resolution = cat("--resolution=", u64_text(dpi as u64).as_str());
    let m = match scanimage_mode(mode) {
        Some(m) => m,
        None => "Gray",
    };
    let base = base_vec(device);
    let mut second = base_vec(device);
    second.push(resolution.clone());
    let mut first = base_vec(device);
    first.push(resolution);
    first.push(cat("--mode=", m));
    assert(text::texts(second@) =~= attempts(device@, dpi, mode@)[1]);
    assert(text::texts(first@) =~= attempts(device@, dpi, mode@)[0]);
    let r = vec![first, second, base];
    assert(commands(r@) =~= attempts(device@, dpi, mode@));
    r
}

/// A capture that is going on: which attempts are left, and what the last
/// ones came to.
#[derive(Debug)]
pub struct ScanRun {
    pub attempts: Vec<Vec<String>>,
    pub tried: usize,
    pub last_output: Option<Output>,
    pub last_err: Option<RunError>,
}

/// What is to be done next for a capture.
#[derive(Debug)]
pub enum ScanAction {
    /// Run `scanimage` with these arguments.
    Run(Vec<String>),
    /// Write the captured image.
    Deliver { bytes: Vec<u8>, outcome: ScanOutcome },
    /// Give up: the capture was cancelled.
    Cancelled,
    /// Give up, and report this.
    Failed(String),
}

/// What is reported of a capture that failed in every attempt.
pub open spec fn scan_failure(r: ScanRun, logfile: Seq<u8>) -> Seq<char> {
    match (r.last_output, r.last_err) {
        (Some(out), _) => process::step_failure("Scanning"@, out.stderr@, logfile),
        (None, Some(e)) => process::step_error("Scanning"@, "scanimage"@, e@, logfile),
        (None, None) => "Scanning failed"@,
    }
}

/// What is to be done next: another attempt while there is one left, unless
/// the capture was cancelled.
pub open spec fn next_action(r: ScanRun, cancelled: bool, logfile: Seq<u8>, a: ScanAction) -> bool {
    if r.tried >= r.attempts@.len() {
        a matches ScanAction::Failed(m) && m@ == scan_failure(r, logfile)
    } else if cancelled {
        a is Cancelled
    } else {
        a matches ScanAction::Run(c) && text::texts(c@) == text::texts(
            r.attempts@[r.tried as int]@,
        )
    }
}

/// An attempt that succeeded: the program did, and it wrote an image.
pub open spec fn attempt_succeeded(result: Result<Output, RunError>) -> bool {
    result is Ok && result->Ok_0.success && result->Ok_0.stdout@.len() > 0
}

impl ScanRun {
    /// A capture whose first attempt is still to come.
    pub fn start(device: &str, dpi: u16, mode: &str) -> (r: Self)
        ensures
            commands(r.attempts@) == attempts(device@, dpi, mode@),
            r.tried == 0,
            r.last_output is None,
            r.last_err is None,
    {
        ScanRun {
            attempts: scan_attempts(device, dpi, mode),
            tried: 0,
            last_output: None,
            last_err: None,
        }
    }

    /// What is to be done next.
    pub fn next(&self, cancelled: bool, logfile: &FilePath) -> (a: ScanAction)
        ensures
            next_action(*self, cancelled, logfile@, a),
    {
        if self.tried >= self.attempts.len() {
            let m = match (&self.last_output, &self.last_err) {
                (Some(out), _) => fail_with_log("Scanning", out, logfile),
                (None, Some(e)) => fail_with_log_err("Scanning", "scanimage", e, logfile),
                (None, None) => "Scanning failed".to_owned(),
            };
            return ScanAction::Failed(m);
        }
        if cancelled {
            return ScanAction::Cancelled;
        }
        ScanAction::Run(copy_texts(self.attempts[self.tried].as_slice()))
    }

    /// An attempt ended. An image is delivered, a cancelled attempt is the
    /// end; anything else is remembered for the report, and the next attempt
    /// is due.
    pub fn ended(&mut self, result: Result<Output, RunError>) -> (r: Option<ScanAction>)
        requires
            old(self).tried < old(self).attempts@.len(),
        ensures
            final(self).attempts == old(self).attempts,
            attempt_succeeded(result) ==> {
                &&& r matches Some(ScanAction::Deliver { bytes, outcome })
                &&& bytes@ == result->Ok_0.stdout@
                &&& outcome.used_fallback == (old(self).tried > 0)
            },
            result matches Err(RunError::Cancelled) ==> r matches Some(ScanAction::Cancelled),
            r is Some ==> *final(self) == *old(self),
            r is None <==> !attempt_succeeded(result) && !(result matches Err(
                RunError::Cancelled,
            )),
            r is None ==> {
                &&& final(self).tried == old(self).tried + 1
                &&& result is Ok ==> final(self).last_output == Some(result->Ok_0)
                    && final(self).last_err == old(self).last_err
                &&& result is Err ==> final(self).last_err == Some(result->Err_0)
                    && final(self).last_output == old(self).last_output
            },
    {
        let n: usize = self.attempts.len();
        match result {
            Ok(out) => {
                if out.success && out.stdout.len() > 0 {
                    return Some(
                        ScanAction::Deliver {
                            bytes: out.stdout,
                            outcome: ScanOutcome { used_fallback: self.tried > 0 },
                        },
                    );
                }
                self.last_output = Some(out);
            },
            Err(e) => {
                if let RunError::Cancelled = e {
                    return Some(ScanAction::Cancelled);
                }
                self.last_err = Some(e);
            },
        }
        assert(self.tried < n);
        self.tried = self.tried + 1;
        None
    }
}

/// Where a captured image is written before it gets its name, so that a
/// partial file is never left under it.
pub fn part_path(out: &FilePath) -> (r: FilePath)
    ensures
        r@ == path::with_ext(out@, encode_utf8("png.part"@)),
{
    out.with_extension("png.part")
}

/// A capture is tried three times at most: first with the resolution and the
/// mode, then with the resolution alone, at last with neither, and as a PNG
/// from the same device each time.
pub proof fn law_attempts(device: Seq<char>, dpi: u16, mode: Seq<char>, k: int)
    requires
        0 <= k < attempts(device, dpi, mode).len(),
    ensures
        attempts(device, dpi, mode).len() == 3,
        attempts(device, dpi, mode)[k].take(4) == base_args(device),
        attempts(device, dpi, mode)[k].len() == 6 - k,
        k < 2 ==> attempts(device, dpi, mode)[k][4] == "--resolution="@ + text::dec(dpi as nat),
        mode_argument(mode) matches Some(m) ==> attempts(device, dpi, mode)[0][5] == "--mode="@ + m,
{
    let a = attempts(device, dpi, mode);
    assert(a[0].take(4) =~= base_args(device));
    assert(a[1].take(4) =~= base_args(device));
    assert(a[2].take(4) =~= base_args(device));
}

// ---------------------------------------------------------------- recognition

/// The file (without its extension) that text is written to.
pub open spec fn text_base(dir: Seq<u8>, pid: u32, count: u64) -> Seq<u8> {
    path::join_path(
        dir,
        encode_utf8("tess_"@ + text::dec(pid as nat) + "_"@ + text::dec(count as nat)),
    )
}

/// The file (without its extension) that text is written to: one per process
/// and per call.
pub fn text_base_path(dir: &FilePath, pid: u32, count: u64) -> (r: FilePath)
    ensures
        r@ == text_base(dir@, pid, count),
{
    let name = cat(
        cat3("tess_", u64_text(pid as u64).as_str(), "_").as_str(),
        u64_text(count).as_str(),
    );
    dir.join(name.as_str())
}

/// The arguments with which text is made of an image.
pub open spec fn text_args(image: Seq<u8>, base: Seq<u8>, langs: Seq<char>) -> Seq<Seq<char>> {
    seq!["tesseract"@, path::lossy(image), path::lossy(base), "-l"@, langs, "txt"@]
}

/// The arguments with which text is made of an image.
pub fn ocr_command(image: &FilePath, base: &FilePath, langs: &str) -> (r: Vec<String>)
    requires
        valid_utf8(image@),
    ensures
        text::texts(r@) == text_args(image@, base@, langs@),
{
    let r = vec![
        "tesseract".to_owned(),
        image.display(),
        base.display(),
        "-l".to_owned(),
        langs.to_owned(),
        "txt".to_owned(),
    ];
    assert(text::texts(r@) =~= text_args(image@, base@, langs@));
    r
}

/// Where tesseract leaves the text.
pub fn text_file(base: &FilePath) -> (r: FilePath)
    ensures
        r@ == path::with_ext(base@, encode_utf8("txt"@)),
{
    base.with_extension("txt")
}

/// What is reported of a recognition that did not succeed; nothing where the
/// text can be read.
pub open spec fn text_failure(result: Result<Output, RunError>, cancelled: bool) -> Option<
    Seq<char>,
> {
    match result {
        Err(e) => Some(process::run_error_text(e@)),
        Ok(out) => if !out.success {
            Some(
                "tesseract failed: "@ + process::last_lines(path::lossy(out.stderr@), 3),
            )
        } else if cancelled {
            Some("cancelled"@)
        } else {
            None
        },
    }
}

/// Whether the text can be read, or what to report.
pub fn ocr_result(result: Result<Output, RunError>, cancelled: bool) -> (r: Result<(), String>)
    ensures
        match r {
            Ok(_) => text_failure(result, cancelled) is None,
            Err(e) => text_failure(result, cancelled) == Some(e@),
        },
{
    match result {
        Err(e) => Err(e.message()),
        Ok(out) => {
            if !out.success {
                return Err(cat("tesseract failed: ", out.stderr_tail(3).as_str()));
            }
            if cancelled {
                return Err("cancelled".to_owned());
            }
            Ok(())
        },
    }
}

/// The heading of `tesseract --list-langs`, in any case. The directory of the
/// data and the number of languages may follow.
pub open spec fn is_langs_heading(line: Seq<char>) -> bool {
    text::starts_with(text::lower(text::trim(line)), "list of available languages"@)
}

/// A line that names a language: not blank, and not the heading.
pub open spec fn names_language(line: Seq<char>) -> bool {
    text::trim(line).len() > 0 && !is_langs_heading(line)
}

/// The languages that lines of `tesseract --list-langs` name.
pub open spec fn langs_in(lines: Seq<Seq<char>>) -> Seq<Seq<char>>
    decreases lines.len(),
{
    if lines.len() == 0 {
        Seq::empty()
    } else if names_language(lines.last()) {
        langs_in(lines.drop_last()).push(text::trim(lines.last()))
    } else {
        langs_in(lines.drop_last())
    }
}

/// The heading of a list of languages is not one of them: the list is the
/// same without it.
pub proof fn law_heading_is_no_language(heading: Seq<char>, lines: Seq<Seq<char>>)
    requires
        is_langs_heading(heading),
    ensures
        langs_in(seq![heading] + lines) == langs_in(lines),
    decreases lines.len(),
{
    let all = seq![heading] + lines;
    if lines.len() == 0 {
        assert(all.drop_last() =~= lines);
        assert(all.last() == heading);
    } else {
        law_heading_is_no_language(heading, lines.drop_last());
        assert(all.drop_last() =~= seq![heading] + lines.drop_last());
        assert(all.last() == lines.last());
    }
}

/// The program that lists the languages.
pub fn list_langs_command() -> (r: Vec<String>)
    ensures
        text::texts(r@) == seq!["tesseract"@, "--list-langs"@],
{
    let r = vec!["tesseract".to_owned(), "--list-langs".to_owned()];
    assert(text::texts(r@) =~= seq!["tesseract"@, "--list-langs"@]);
    r
}

/// The languages that the output of `tesseract --list-langs` names.
pub fn parse_langs(out: &str) -> (r: Vec<String>)
    ensures
        text::texts(r@) == langs_in(text::lines(out@)),
{
    let all = lines_of(out);
    let mut r: Vec<String> = Vec::new();
    let mut i: usize = 0;
    let ghost ls = text::lines(out@);
    assert(text::texts(r@) =~= langs_in(ls.take(0)));
    while i < all.len()
        invariant
            i <= all@.len(),
            ls == text::texts(all@),
            text::texts(r@) == langs_in(ls.take(i as int)),
        decreases all@.len() - i,
    {
        let ghost before = r@;
        assert(ls.take(i + 1).drop_last() =~= ls.take(i as int));
        assert(ls.take(i + 1).last() == all@[i as int]@);
        let line = trim_text(all[i].as_str());
        if !line.as_str().is_empty() && !has_prefix(
            to_lower(line.as_str()).as_str(),
            "list of available languages",
        ) {
            r.push(line);
            assert(text::texts(r@) =~= text::texts(before).push(line@));
        }
        i = i + 1;
    }
    assert(ls.take(ls.len() as int) =~= ls);
    r
}

/// The installed languages, or what to report.
pub fn available_langs(result: Result<Output, RunError>) -> (r: Result<Vec<String>, String>)
    ensures
        match (process::required_ok("tesseract"@, result), r) {
            (Ok(out), Ok(v)) => text::texts(v@) == langs_in(
                text::lines(path::lossy(out.stdout@)),
            ),
            (Err(e), Err(f)) => e == f@,
            _ => false,
        },
{
    match process::run_ok("tesseract", result) {
        Ok(out) => {
            let s = lossy_text(out.stdout.as_slice());
            Ok(parse_langs(s.as_str()))
        },
        Err(e) => Err(e),
    }
}

} // verus!
