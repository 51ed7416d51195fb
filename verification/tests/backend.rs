//! The programs that the scanner and the document need: their arguments, and
//! what becomes of their output.

use std::collections::HashMap;

use auto_scanner_ocr::backend::filedialog::{
    available_tool, looks_unavailable, os_string_from_capped, save_dialog, DialogEvent, SaveChoice,
    SaveTool,
};
use auto_scanner_ocr::backend::pdf::{
    build_pdf, crop_png, group_by_dpi, img2pdf_pages_args, latest_progress, maybe_unpaper, parse_ocrmypdf_progress,
    progress_from, release_reservation, reserve_output_path, reserve_target, rewrite_as_png,
    rotate_png, run_pdf_step, size_kb, stamp_now, unpaper_args, BuildOutcome, BuildPlan, BuildRun,
    CleanAction, CleanEvent, Delivery, FileFacts, TargetAction,
};
use auto_scanner_ocr::backend::process::{
    exit_code, fail_with_log, fail_with_log_err, kills_child, log_tail, map_err, run_ok, run_result,
    ExitStatus, Output, RunError, RunEvent,
};
use auto_scanner_ocr::backend::scan::{
    available_langs, device_from, device_label, list_devices, list_devices_command,
    list_langs_command, ocr_command, ocr_result, parse_devices, parse_langs, part_path,
    scan_attempts, scanimage_mode, select_device, text_base_path, text_file, Device, ScanAction,
    ScanRun,
};
use auto_scanner_ocr::backend::{places_of, which};
use auto_scanner_ocr::config::Cleanup;
use auto_scanner_ocr::path::FilePath;

fn p(s: &str) -> FilePath {
    FilePath::from_text(s)
}

fn ran(success: bool, stdout: &[u8], stderr: &[u8]) -> Output {
    Output { stdout: stdout.to_vec(), stderr: stderr.to_vec(), success }
}

fn exited(success: bool, code: Option<i32>, stdout: &[u8], stderr: &[u8]) -> DialogEvent {
    DialogEvent::Exited {
        status: ExitStatus { success, code },
        stdout: stdout.to_vec(),
        stderr: stderr.to_vec(),
    }
}

/// Files by their paths; directories are files without contents to speak of.
struct Files {
    files: HashMap<String, Vec<u8>>,
    dirs: Vec<String>,
}

impl Files {
    fn new() -> Self {
        Files { files: HashMap::new(), dirs: Vec::new() }
    }

    fn write(&mut self, path: &str, bytes: &[u8]) {
        self.files.insert(path.to_string(), bytes.to_vec());
    }

    fn is_there(&self, path: &str) -> bool {
        self.files.contains_key(path)
    }

    fn facts(&self, path: &FilePath) -> Option<FileFacts> {
        let name = path.display();
        if self.dirs.contains(&name) {
            return Some(FileFacts { is_dir: true, is_file: false, len: 4096 });
        }
        self.files
            .get(&name)
            .map(|b| FileFacts { is_dir: false, is_file: true, len: b.len() as u64 })
    }

    /// Claims the first free place for a document.
    fn reserve(&mut self, dir: &str, stamp: &str) -> FilePath {
        let mut ladder = reserve_output_path(&p(dir), stamp.to_string());
        while self.is_there(&ladder.place().display()) {
            ladder.taken();
        }
        let place = ladder.place();
        self.write(&place.display(), b"");
        place
    }

    /// Claims a place that the user chose.
    fn target(&mut self, path: &FilePath, allow: bool) -> Result<FilePath, String> {
        match reserve_target(path, self.facts(path), allow) {
            TargetAction::Reject(m) => Err(m),
            TargetAction::Adopt => Ok(path.clone()),
            TargetAction::Create => {
                let parent = path.parent().map(|d| d.display()).unwrap_or_default();
                if self.dirs.contains(&parent) {
                    self.write(&path.display(), b"");
                    Ok(path.clone())
                } else {
                    Err("no such directory".to_string())
                }
            }
        }
    }

    fn release(&mut self, path: &FilePath) {
        for gone in release_reservation(path, self.facts(path)) {
            self.files.remove(&gone.display());
        }
    }
}

// ---------------------------------------------------------------- save dialog

#[test]
fn args_shape_per_tool() {
    let dir = p("/tmp/out");
    let zenity = SaveTool::Zenity.args(&dir, "a.pdf", "Title");
    assert!(zenity.contains(&"--save".to_string()));
    assert!(zenity.contains(&"--confirm-overwrite".to_string()));
    // The full path: a bare name leaves the dialog where the program runs.
    assert!(zenity.contains(&"--filename=/tmp/out/a.pdf".to_string()));

    let kd = SaveTool::Kdialog.args(&dir, "a.pdf", "Title");
    assert!(kd.windows(2).any(|w| w == ["--getsavefilename", "/tmp/out/a.pdf"]));
    assert!(kd.contains(&"PDF files (*.pdf)".to_string()));
    assert!(!kd.iter().any(|a| a.contains('|')));

    let yad = SaveTool::Yad.args(&dir, "a.pdf", "Title");
    assert!(yad.contains(&"--save".to_string()));
    assert!(yad.contains(&"--filename=/tmp/out/a.pdf".to_string()));
}

#[test]
fn stdout_decoding_trims_and_keeps_bytes() {
    assert_eq!(os_string_from_capped(b"/tmp/x.pdf\n"), p("/tmp/x.pdf"));
    assert_eq!(os_string_from_capped(b"/tmp/x.pdf\n\n"), p("/tmp/x.pdf"));
    // A byte that is no UTF-8 stays as it is.
    assert_eq!(
        os_string_from_capped(b"/tmp/x\xffy.pdf\n"),
        FilePath::from_bytes(b"/tmp/x\xffy.pdf".to_vec())
    );
    // White space only: nothing was chosen.
    assert!(os_string_from_capped(b" \n").is_empty());
}

#[test]
fn display_failure_maps_to_unavailable() {
    // Killed by a signal: that cannot have been the user.
    assert!(looks_unavailable(None, ""));
    // A missing display gives status 1 too; the message decides.
    assert!(looks_unavailable(Some(1), "Gtk-WARNING **: cannot open display: "));
    assert!(looks_unavailable(Some(1), "qt.qpa.plugin: could not connect to display"));
    assert!(!looks_unavailable(Some(1), ""));
}

#[test]
fn available_tool_prefers_zenity_when_present() {
    let order = [SaveTool::Zenity, SaveTool::Kdialog, SaveTool::Yad];
    for first in 0..3 {
        let found = [first <= 0, first <= 1, first <= 2];
        assert_eq!(available_tool(found[0], found[1], found[2]), Some(order[first]));
    }
    assert_eq!(available_tool(false, false, false), None);
    assert_eq!(SaveTool::Kdialog.binary(), "kdialog");
}

#[test]
fn dialog_outcomes() {
    assert_eq!(save_dialog(DialogEvent::NoTool), SaveChoice::Unavailable);
    assert_eq!(save_dialog(DialogEvent::SpawnFailed), SaveChoice::Unavailable);
    assert_eq!(save_dialog(exited(false, Some(1), b"", b"")), SaveChoice::Cancelled);
    assert_eq!(
        save_dialog(exited(false, Some(1), b"", b"Cannot open display: \xff")),
        SaveChoice::Unavailable
    );
    assert_eq!(save_dialog(exited(false, None, b"", b"")), SaveChoice::Unavailable);
    assert_eq!(save_dialog(exited(true, Some(0), b" \n", b"")), SaveChoice::Cancelled);
    assert_eq!(
        save_dialog(exited(true, Some(0), b"/tmp/a b.pdf\n", b"")),
        SaveChoice::Chosen(p("/tmp/a b.pdf"))
    );
}

// ------------------------------------------------------------- output places

#[test]
fn reserve_output_path_collisions_and_release() {
    let mut fs = Files::new();
    let stamp = "2026-09-02_143005";
    let p1 = fs.reserve("/out", stamp);
    assert_eq!(p1, p("/out/2026-09-02_143005.pdf"));
    assert!(fs.is_there("/out/2026-09-02_143005.pdf"));
    let p2 = fs.reserve("/out", stamp);
    assert_eq!(p2, p("/out/2026-09-02_143005_2.pdf"));
    let p3 = fs.reserve("/out", stamp);
    assert_eq!(p3, p("/out/2026-09-02_143005_3.pdf"));
    let p3_part = "/out/2026-09-02_143005_3.pdf.part";
    fs.write(p3_part, b"half written");
    fs.release(&p2);
    assert!(!fs.is_there(&p2.display()));
    fs.release(&p1);
    assert!(!fs.is_there(&p1.display()));
    fs.write(&p3.display(), b"pdf bytes");
    fs.release(&p3);
    assert!(fs.is_there(&p3.display()), "built PDF is never released");
    assert!(!fs.is_there(p3_part), "partial output discarded");
    let p4 = fs.reserve("/out", stamp);
    let p4_part = p4.with_extension("pdf.part");
    fs.write(&p4_part.display(), b"garbage");
    fs.release(&p4);
    assert!(!fs.is_there(&p4.display()));
    assert!(!fs.is_there(&p4_part.display()));
}

#[test]
fn stamp_format() {
    let s = stamp_now();
    assert_eq!(s.len(), 17);
    assert_eq!(&s[4..5], "-");
    assert_eq!(&s[10..11], "_");
    assert!(s.chars().all(|c| c.is_ascii_digit() || c == '-' || c == '_'));
}

#[test]
fn reserve_target_fresh_zero_byte_and_rejections() {
    let mut fs = Files::new();
    fs.dirs.push("/d".to_string());

    // A free place: an empty file claims it.
    let fresh = p("/d/custom.pdf");
    assert_eq!(fs.target(&fresh, false).unwrap(), fresh);
    assert_eq!(fs.facts(&fresh).unwrap().len, 0);

    // The empty file may be taken over.
    assert_eq!(fs.target(&fresh, false).unwrap(), fresh);

    // A file with contents, without leave to replace it: refused.
    let taken = p("/d/taken.pdf");
    fs.write("/d/taken.pdf", b"real pdf bytes");
    assert_eq!(
        fs.target(&taken, false).unwrap_err(),
        "/d/taken.pdf already exists (choose a different name or allow overwrite)"
    );
    assert_eq!(fs.files["/d/taken.pdf"], b"real pdf bytes");

    // With leave, it is taken over as it is.
    assert_eq!(fs.target(&taken, true).unwrap(), taken);
    assert_eq!(fs.files["/d/taken.pdf"], b"real pdf bytes");

    let empty = p("/d/empty.pdf");
    fs.write("/d/empty.pdf", b"");
    assert_eq!(fs.target(&empty, false).unwrap(), empty);

    // A directory is refused in any case.
    let as_dir = p("/d/dir.pdf");
    fs.dirs.push("/d/dir.pdf".to_string());
    assert_eq!(fs.target(&as_dir, true).unwrap_err(), "/d/dir.pdf is a directory");

    // A directory that does not exist: nothing is created.
    assert!(fs.target(&p("/d/no/such/dir/x.pdf"), false).is_err());
    assert!(!fs.is_there("/d/no/such/dir/x.pdf"));
}

#[test]
fn release_keeps_adopted_target_and_discards_part() {
    let mut fs = Files::new();
    fs.dirs.push("/d".to_string());
    let target = p("/d/adopted.pdf");
    fs.write("/d/adopted.pdf", b"previous content");
    fs.write("/d/adopted.pdf.part", b"garbage");
    fs.release(&target);
    assert_eq!(fs.files["/d/adopted.pdf"], b"previous content");
    assert!(!fs.is_there("/d/adopted.pdf.part"));

    let placeholder = p("/d/placeholder.pdf");
    fs.target(&placeholder, false).unwrap();
    fs.release(&placeholder);
    assert!(!fs.is_there("/d/placeholder.pdf"));
}

#[test]
fn sizes_in_kb() {
    assert_eq!(size_kb(Some(2047)), 1);
    assert_eq!(size_kb(None), 0);
}

// ------------------------------------------------------------------- progress

#[test]
fn parse_progress() {
    let s = "Processing page 1\nProcessing page 2\nProcessing page 3";
    assert_eq!(parse_ocrmypdf_progress(s), Some((3, 0)));
    assert_eq!(parse_ocrmypdf_progress("nothing"), None);
    assert_eq!(progress_from(None), None);
    assert_eq!(latest_progress(Vec::new()), None);
    let reports = vec![vec![None, Some("4".to_string())], vec![None, Some("5".to_string())]];
    assert_eq!(latest_progress(reports), Some((5, 0)));
    assert_eq!(p("/a/b.png").with_extension(""), p("/a/b"));
    assert_eq!(progress_from(Some(vec![None, Some("12".to_string())])), Some((12, 0)));
}

// -------------------------------------------------------------------- unpaper

#[test]
fn unpaper_args_by_cleanup_mode() {
    for mode in [Cleanup::Off, Cleanup::Conservative, Cleanup::Legacy] {
        let args = unpaper_args(mode, &[]);
        assert_eq!(&args[..4], ["--layout", "single", "--deskew-scan-direction", "left,right"]);
        assert!(!args.iter().any(|a| a.starts_with('/') || a.ends_with(".png")));
    }
    let cons = unpaper_args(Cleanup::Conservative, &[]);
    for flag in [
        "--no-mask-scan",
        "--no-border-scan",
        "--no-border-align",
        "--no-blackfilter",
        "--no-grayfilter",
        "--no-blurfilter",
        "--no-noisefilter",
        "--no-deskew",
    ] {
        assert!(cons.iter().any(|a| a == flag), "missing {flag}");
    }
    assert_eq!(unpaper_args(Cleanup::Legacy, &[]).len(), 4);
    let extra = unpaper_args(
        Cleanup::Legacy,
        &["--blackfilter-intensity".to_string(), "40".to_string()],
    );
    assert_eq!(&extra[4..], ["--blackfilter-intensity", "40"]);
}

#[test]
fn unpaper_args_file_args_come_last() {
    for mode in [Cleanup::Off, Cleanup::Conservative, Cleanup::Legacy] {
        for arg in unpaper_args(mode, &["--layout".to_string(), "single".to_string()]) {
            assert!(!arg.contains('/'), "path-like token in options: {arg}");
        }
    }
}

#[test]
fn unpaper_runs_with_its_options_before_the_files() {
    let args = unpaper_args(Cleanup::Conservative, &["--dpi".to_string(), "300".to_string()]);
    assert_eq!(&args[args.len() - 2..], ["--dpi", "300"]);
    let (_, action) =
        maybe_unpaper(&p("/s/page_001.png"), Cleanup::Legacy, &[], "gray", true);
    match action {
        CleanAction::Run(cmd) => {
            assert_eq!(cmd[0], "unpaper");
            assert_eq!(
                &cmd[cmd.len() - 2..],
                ["/s/page_001.png", "/s/page_001.png.unpaper.tmp"]
            );
        }
        other => panic!("expected a run, got {other:?}"),
    }
}

fn assert_untouched(action: CleanAction, image: &str) {
    match action {
        CleanAction::Done { remove, image: i, deskewed } => {
            assert!(remove.is_none());
            assert_eq!(i, p(image));
            assert!(!deskewed);
        }
        other => panic!("expected the page as it is, got {other:?}"),
    }
}

#[test]
fn off_mode_skips_unpaper_entirely() {
    let page = p("/s/page_001.png");
    let (_, a) = maybe_unpaper(&page, Cleanup::Off, &[], "gray", true);
    assert_untouched(a, "/s/page_001.png");
    let (_, a) = maybe_unpaper(&page, Cleanup::Legacy, &[], "gray", false);
    assert_untouched(a, "/s/page_001.png");
}

#[test]
fn color_mode_is_never_unpapered() {
    for cleanup in [Cleanup::Conservative, Cleanup::Legacy] {
        let (_, a) = maybe_unpaper(&p("/s/page_001.png"), cleanup, &[], "color", true);
        assert_untouched(a, "/s/page_001.png");
    }
}

#[test]
fn failed_unpaper_keeps_previous_clean_image() {
    let page = p("/s/page_001.png");
    let (run, _) = maybe_unpaper(&page, Cleanup::Conservative, &[], "gray", true);
    for e in [
        CleanEvent::Ran { success: false, wrote: true },
        CleanEvent::Ran { success: true, wrote: false },
        CleanEvent::Reencoded(false),
        CleanEvent::Renamed(false),
    ] {
        match run.step(e) {
            CleanAction::Done { remove, image, deskewed } => {
                // Only unpaper's own file goes, never the cleaned image.
                assert_eq!(remove, Some(p("/s/page_001.png.unpaper.tmp")));
                assert_eq!(image, page);
                assert!(!deskewed);
            }
            other => panic!("expected the end, got {other:?}"),
        }
    }
}

#[test]
fn successful_unpaper_replaces_the_page() {
    let (run, _) = maybe_unpaper(&p("/s/page_001.png"), Cleanup::Legacy, &[], "gray", true);
    match run.step(CleanEvent::Ran { success: true, wrote: true }) {
        CleanAction::Reencode(f) => assert_eq!(f, p("/s/page_001.png.unpaper.tmp")),
        other => panic!("{other:?}"),
    }
    match run.step(CleanEvent::Reencoded(true)) {
        CleanAction::Rename { from, to } => {
            assert_eq!(from, p("/s/page_001.png.unpaper.tmp"));
            assert_eq!(to, p("/s/page_001_clean.png"));
        }
        other => panic!("{other:?}"),
    }
    match run.step(CleanEvent::Renamed(true)) {
        CleanAction::Done { remove, image, deskewed } => {
            assert_eq!(remove, Some(p("/s/page_001.png")));
            assert_eq!(image, p("/s/page_001_clean.png"));
            assert!(deskewed);
        }
        other => panic!("{other:?}"),
    }
}

// --------------------------------------------------------------------- images

fn png(w: u32, h: u32) -> Vec<u8> {
    let mut img = image::RgbImage::new(w, h);
    img.put_pixel(0, 0, image::Rgb([255, 0, 0]));
    let mut out = std::io::Cursor::new(Vec::new());
    image::DynamicImage::ImageRgb8(img).write_to(&mut out, image::ImageFormat::Png).unwrap();
    out.into_inner()
}

fn size(bytes: &[u8]) -> (u32, u32) {
    let img = image::load_from_memory(bytes).unwrap();
    (img.width(), img.height())
}

fn red_at(bytes: &[u8], x: u32, y: u32) -> bool {
    image::load_from_memory(bytes).unwrap().to_rgb8().get_pixel(x, y).0 == [255, 0, 0]
}

#[test]
fn rotation_turns_the_image() {
    let src = png(4, 2);
    let right = rotate_png(&src, true).unwrap();
    assert_eq!(size(&right), (2, 4));
    // The top left corner goes to the top right one.
    assert!(red_at(&right, 1, 0));
    let left = rotate_png(&src, false).unwrap();
    assert_eq!(size(&left), (2, 4));
    assert!(red_at(&left, 0, 3));
    let back = rotate_png(&right, false).unwrap();
    assert_eq!(size(&back), (4, 2));
    assert!(red_at(&back, 0, 0));
    assert!(rotate_png(b"no image", true).is_err());
}

#[test]
fn cropping_cuts_the_image() {
    let src = png(8, 6);
    let cut = crop_png(&src, 0, 0, 3, 2).unwrap();
    assert_eq!(size(&cut), (3, 2));
    assert!(red_at(&cut, 0, 0));
    let other = crop_png(&src, 2, 1, 5, 4).unwrap();
    assert_eq!(size(&other), (5, 4));
    assert!(!red_at(&other, 0, 0));
}

#[test]
fn other_formats_become_png() {
    let img = image::DynamicImage::new_rgb8(3, 3);
    let mut pnm = std::io::Cursor::new(Vec::new());
    img.write_to(&mut pnm, image::ImageFormat::Pnm).unwrap();
    let pnm = pnm.into_inner();
    let png_bytes = rewrite_as_png(&pnm).unwrap().expect("a PNM is encoded again");
    assert_eq!(&png_bytes[..4], b"\x89PNG");
    assert_eq!(size(&png_bytes), (3, 3));
}

// ------------------------------------------------------------------- assembly

#[test]
fn img2pdf_groups_by_dpi() {
    let pages = vec![
        (p("a.png"), 600),
        (p("b.png"), 600),
        (p("c.png"), 300),
        (p("d.png"), 300),
        (p("e.png"), 600),
    ];
    let calls = img2pdf_pages_args(&pages, &p("/tmp/out.pdf"));
    assert_eq!(calls.len(), 3);
    assert!(calls[0].contains(&"600dpi".to_string()));
    assert!(calls[1].contains(&"300dpi".to_string()));
    assert!(calls[2].contains(&"600dpi".to_string()));
    for call in &calls {
        assert_eq!(call[call.len() - 2], "-o");
        assert_eq!(call[call.len() - 1], "/tmp/out.pdf");
    }
    assert_eq!(calls[0].len(), 5 + 2); // img2pdf --imgsize Ndpi a b -o
    assert_eq!(calls[2].len(), 4 + 2);
}

#[test]
fn img2pdf_single_dpi_single_call() {
    let pages = vec![(p("a.png"), 300), (p("b.png"), 300)];
    let calls = img2pdf_pages_args(&pages, &p("/tmp/out.pdf"));
    assert_eq!(calls.len(), 1);
    assert!(calls[0].windows(2).any(|w| w == ["--imgsize", "300dpi"]));
    assert!(calls[0].contains(&"a.png".to_string()) && calls[0].contains(&"b.png".to_string()));
}

#[test]
fn groups_keep_the_order_of_the_pages() {
    let pages = vec![(p("a"), 300), (p("b"), 600), (p("c"), 600), (p("d"), 300)];
    let groups = group_by_dpi(&pages);
    let flat: Vec<String> = groups.iter().flatten().map(|g| g.0.display()).collect();
    assert_eq!(flat, ["a", "b", "c", "d"]);
    assert_eq!(groups.len(), 3);
}

fn plan(pages: Vec<(FilePath, u16)>) -> BuildPlan {
    BuildPlan {
        pages,
        any_page_needing_cleanup: true,
        manually_rotated: false,
        langs: "deu+eng".to_string(),
        out_pdf: p("/out/doc.pdf"),
    }
}

fn log() -> FilePath {
    p("/state/app.log")
}

fn finish(run: &mut BuildRun, ocr: Output) -> Delivery {
    while run.done < run.steps.len() {
        assert!(run.ended(Ok(ran(true, b"", b"")), &log()).unwrap().is_none());
    }
    run.ended(Ok(ocr), &log()).unwrap().unwrap()
}

#[test]
fn successful_build_renames_part_into_reserved_path() {
    let mut run = build_pdf(&plan(vec![(p("a.png"), 300)]), &p("/tmp/w"), false, true).unwrap();
    assert_eq!(
        run.next().args,
        ["img2pdf", "--imgsize", "300dpi", "a.png", "-o", "/tmp/w/raw.pdf"]
    );
    assert_eq!(run.next().timeout, 300);
    assert!(run.ended(Ok(ran(true, b"", b"")), &log()).unwrap().is_none());
    assert_eq!(
        run.next().args,
        [
            "ocrmypdf",
            "--language",
            "deu+eng",
            "--output-type",
            "pdfa",
            "--optimize",
            "0",
            "--deskew",
            "--rotate-pages",
            "--rotate-pages-threshold",
            "10",
            "--clean",
            "/tmp/w/raw.pdf",
            "/out/doc.pdf.part"
        ]
    );
    assert_eq!(run.next().timeout, 1800);
    let d = run.ended(Ok(ran(true, b"", b"")), &log()).unwrap().unwrap();
    assert!(d.copy_from.is_none());
    assert_eq!(d.part, p("/out/doc.pdf.part"));
    assert_eq!(d.out, p("/out/doc.pdf"));
    assert_eq!(d.outcome, BuildOutcome::Searchable);
}

#[test]
fn failed_ocrmypdf_fallback_also_delivers_atomically() {
    let mut run = build_pdf(&plan(vec![(p("a.png"), 300)]), &p("/tmp/w"), false, true).unwrap();
    let d = finish(&mut run, ran(false, b"", b"boom"));
    assert_eq!(d.copy_from, Some(p("/tmp/w/raw.pdf")));
    assert_eq!(d.part, p("/out/doc.pdf.part"));
    assert_eq!(d.out, p("/out/doc.pdf"));
    assert_eq!(d.outcome, BuildOutcome::WithoutTextLayer);
}

#[test]
fn a_document_is_delivered_whatever_becomes_of_ocrmypdf() {
    for e in [
        RunError::NotFound,
        RunError::Timeout(1800),
        RunError::Cancelled,
    ] {
        let pages = vec![(p("a.png"), 300)];
        let mut run = build_pdf(&plan(pages), &p("/tmp/w"), false, true).unwrap();
        assert!(run.ended(Ok(ran(true, b"", b"")), &log()).unwrap().is_none());
        let d = run.ended(Err(e), &log()).unwrap().unwrap();
        assert_eq!(d.copy_from, Some(p("/tmp/w/raw.pdf")));
        assert_eq!(d.out, p("/out/doc.pdf"));
        assert_eq!(d.outcome, BuildOutcome::WithoutTextLayer);
    }
    // Before that, a program that cannot be run ends the build.
    let mut run = build_pdf(&plan(vec![(p("a.png"), 300)]), &p("/tmp/w"), false, true).unwrap();
    assert!(run.ended(Err(RunError::NotFound), &log()).is_err());
}

#[test]
fn interrupted_part_is_discarded_by_release_reservation() {
    let mut fs = Files::new();
    let out = fs.reserve("/out", "2026-01-01_000000");
    fs.write(&out.with_suffix(".part").display(), b"half");
    fs.release(&out);
    assert!(fs.files.is_empty());
}

#[test]
fn overwrite_adopts_existing_file_and_replaces_on_success() {
    let mut fs = Files::new();
    fs.dirs.push("/out".to_string());
    fs.write("/out/doc.pdf", b"old");
    let out = fs.target(&p("/out/doc.pdf"), true).unwrap();
    assert_eq!(fs.files["/out/doc.pdf"], b"old");
    let mut run = build_pdf(&plan(vec![(p("a.png"), 300)]), &p("/tmp/w"), false, false).unwrap();
    fs.write("/out/doc.pdf.part", b"new");
    let d = finish(&mut run, ran(true, b"", b""));
    let bytes = fs.files.remove(&d.part.display()).unwrap();
    fs.write(&d.out.display(), &bytes);
    assert_eq!(d.out, out);
    assert_eq!(fs.files["/out/doc.pdf"], b"new");
    assert!(!fs.is_there("/out/doc.pdf.part"));
}

#[test]
fn failed_build_leaves_adopted_target_untouched() {
    let mut fs = Files::new();
    fs.dirs.push("/out".to_string());
    fs.write("/out/doc.pdf", b"old");
    let out = fs.target(&p("/out/doc.pdf"), true).unwrap();
    let mut run = build_pdf(&plan(vec![(p("a.png"), 300)]), &p("/tmp/w"), false, false).unwrap();
    assert!(run.ended(Ok(ran(false, b"", b"broken")), &log()).is_err());
    fs.release(&out);
    assert_eq!(fs.files["/out/doc.pdf"], b"old");
}

#[test]
fn mixed_resolutions_are_merged() {
    let pages = vec![(p("a.png"), 300), (p("b.png"), 600)];
    let e = build_pdf(&plan(pages), &p("/tmp/w"), false, false).unwrap_err();
    assert!(e.starts_with("session mixes page DPIs (2 groups) and pdfunite is not installed"));
    let pages = vec![(p("a.png"), 300), (p("b.png"), 600)];
    let run = build_pdf(&plan(pages), &p("/tmp/w"), true, false).unwrap();
    assert_eq!(run.steps.len(), 3);
    assert_eq!(run.steps[1].args[4], "-o");
    assert_eq!(run.steps[1].args[5], "/tmp/w/part1.pdf");
    assert_eq!(
        run.steps[2].args,
        ["pdfunite", "/tmp/w/part0.pdf", "/tmp/w/part1.pdf", "/tmp/w/raw.pdf"]
    );
}

#[test]
fn pages_turned_by_hand_are_not_turned_again() {
    let mut pl = plan(vec![(p("a.png"), 300)]);
    pl.manually_rotated = true;
    let run = build_pdf(&pl, &p("/tmp/w"), false, false).unwrap();
    assert!(!run.ocr.args.contains(&"--rotate-pages".to_string()));
    assert!(!run.ocr.args.contains(&"--clean".to_string()));
    assert!(run.ocr.args.contains(&"--deskew".to_string()));
}

#[test]
fn a_failed_step_names_the_log() {
    let e = run_pdf_step("PDF assembly (img2pdf)", "img2pdf", &Err(RunError::NotFound), &log())
        .unwrap_err();
    assert!(e.contains("PDF assembly (img2pdf)"), "{e}");
    assert!(run_pdf_step("x", "y", &Ok(ran(true, b"", b"")), &log()).is_ok());
}

// ------------------------------------------------------------------- processes

#[test]
fn run_events_become_results() {
    assert!(matches!(run_result(RunEvent::SpawnNotFound), Err(RunError::NotFound)));
    assert!(matches!(run_result(RunEvent::TimedOut(5)), Err(RunError::Timeout(5))));
    assert!(matches!(run_result(RunEvent::Cancelled), Err(RunError::Cancelled)));
    assert!(matches!(run_result(RunEvent::SpawnFailed("x".to_string())), Err(RunError::Io(_))));
    assert!(matches!(run_result(RunEvent::ReadFailed("x".to_string())), Err(RunError::Io(_))));
    assert!(kills_child(&RunEvent::TimedOut(5)));
    assert!(kills_child(&RunEvent::Cancelled));
    assert!(!kills_child(&RunEvent::SpawnNotFound));
    let r = run_result(RunEvent::Exited {
        stdout: b"out".to_vec(),
        stderr: b"err".to_vec(),
        status: Some(ExitStatus { success: true, code: Some(0) }),
    })
    .unwrap();
    assert!(r.success);
    assert_eq!(r.stdout, b"out");
    assert_eq!(exit_code(Some(ExitStatus { success: false, code: Some(3) })), 3);
}

#[test]
fn errors_are_reported() {
    assert!(run_ok("tool", Ok(ran(true, b"", b""))).is_ok());
    assert!(run_ok("tool", Ok(ran(false, b"", b"sad"))).is_err());
    let m = map_err("tool", &RunError::NotFound);
    assert!(m.contains("tool"), "{m}");
    assert!(RunError::Timeout(7).message().contains('7'));
    assert_eq!(RunError::Cancelled.message(), "cancelled");
    let f = fail_with_log("Scanning", &ran(false, b"", b"no paper"), &log());
    assert!(f.contains("no paper") && f.contains("/state/app.log"), "{f}");
    let f = fail_with_log_err("Scanning", "scanimage", &RunError::NotFound, &log());
    assert!(f.contains("scanimage"), "{f}");
}

#[test]
fn tails_are_cut() {
    let text = "line one\nline two\nline three";
    assert!(ran(false, b"", text.as_bytes()).stderr_tail(10).len() <= text.len());
    assert_eq!(log_tail(b"short"), "short");
}

#[test]
fn programs_are_found_on_the_path() {
    let dirs = [p("/usr/local/bin"), p("/usr/bin")];
    let places = places_of("unpaper", &dirs);
    assert_eq!(places, [p("/usr/local/bin/unpaper"), p("/usr/bin/unpaper")]);
    assert_eq!(which(&places, &[false, true]), Some(p("/usr/bin/unpaper")));
    assert_eq!(which(&places, &[true, true]), Some(p("/usr/local/bin/unpaper")));
    assert_eq!(which(&places, &[false, false]), None);
}

// ------------------------------------------------------------------- scanners

#[test]
fn parses_scanimage_l_output() {
    let sample = r#"
device `hpaio:/usb/Deskjet_1050_J410?serial=CN1' is a Hewlett-Packard Deskjet 1050 J410 flatbed scanner
device `escl:http://127.0.0.1:60000' is a HP Scanjet eSCL backend scanner
"#;
    let devices = parse_devices(sample);
    assert_eq!(devices.len(), 2);
    assert_eq!(devices[0].name, "hpaio:/usb/Deskjet_1050_J410?serial=CN1");
    assert!(devices[0].label.contains("Deskjet"));
}

#[test]
fn parses_empty_output() {
    assert!(parse_devices("No scanners were identified.").is_empty());
}

#[test]
fn selects_device_auto_and_substring() {
    let devices = vec![
        Device { name: "hpaio:/usb/A".to_string(), label: "A".to_string() },
        Device { name: "escl:http://B".to_string(), label: "B".to_string() },
    ];
    assert_eq!(select_device(&devices, "auto").unwrap().name, "hpaio:/usb/A");
    assert_eq!(select_device(&devices, "escl").unwrap().name, "escl:http://B");
    assert!(select_device(&devices, "missing").is_none());
}

#[test]
fn scanimage_mode_mapping() {
    assert_eq!(scanimage_mode("gray"), Some("Gray"));
    assert_eq!(scanimage_mode("color"), Some("Color"));
    assert_eq!(scanimage_mode("lineart"), Some("Lineart"));
    assert_eq!(scanimage_mode("nope"), None);
}

#[test]
fn devices_from_matches() {
    assert!(device_from(None).is_none());
    let d = device_from(Some(vec![
        Some("whole".to_string()),
        Some("escl:x".to_string()),
        Some("HP Scanjet".to_string()),
    ]))
    .unwrap();
    assert_eq!(d.name, "escl:x");
    assert_eq!(d.label, device_label("HP Scanjet"));
    assert_eq!(list_devices_command()[0], "scanimage");
    assert!(list_devices(Err(RunError::NotFound)).is_err());
    let out = b"device `a' is a B C scanner\n";
    assert_eq!(list_devices(Ok(ran(true, out, b""))).unwrap().len(), 1);
}

#[test]
fn captures_fall_back_to_fewer_settings() {
    let attempts = scan_attempts("escl:x", 300, "gray");
    assert!(attempts[0].iter().any(|a| a == "--resolution" || a.starts_with("--resolution")));
    assert!(attempts.len() > 1);
    let mut run = ScanRun::start("escl:x", 300, "gray");
    match run.next(false, &log()) {
        ScanAction::Run(args) => assert_eq!(args, attempts[0]),
        other => panic!("{other:?}"),
    }
    assert!(run.ended(Ok(ran(false, b"", b"bad option"))).is_none());
    match run.next(false, &log()) {
        ScanAction::Run(args) => assert_eq!(args, attempts[1]),
        other => panic!("{other:?}"),
    }
    match run.ended(Ok(ran(true, b"image", b""))) {
        Some(ScanAction::Deliver { bytes, outcome }) => {
            assert_eq!(bytes, b"image");
            assert!(outcome.used_fallback);
        }
        other => panic!("{other:?}"),
    }
}

#[test]
fn cancelled_captures_end() {
    let mut run = ScanRun::start("escl:x", 300, "gray");
    assert!(matches!(run.next(true, &log()), ScanAction::Cancelled));
    assert!(matches!(run.ended(Err(RunError::Cancelled)), Some(ScanAction::Cancelled)));
}

#[test]
fn captures_that_always_fail_say_why() {
    let mut run = ScanRun::start("escl:x", 300, "gray");
    loop {
        match run.next(false, &log()) {
            ScanAction::Run(_) => {
                assert!(run.ended(Ok(ran(false, b"", b"no paper"))).is_none());
            }
            ScanAction::Failed(m) => {
                assert!(m.contains("no paper"), "{m}");
                break;
            }
            other => panic!("{other:?}"),
        }
    }
}

#[test]
fn text_is_made_beside_the_session() {
    let base = text_base_path(&p("/s"), 42, 7);
    let cmd = ocr_command(&p("/s/page_001.png"), &base, "deu");
    assert_eq!(cmd[0], "tesseract");
    assert_eq!(cmd[1], "/s/page_001.png");
    assert!(cmd.windows(2).any(|w| w == ["-l", "deu"]));
    assert_eq!(text_file(&base).display(), format!("{}.txt", base.display()));
    assert!(ocr_result(Ok(ran(true, b"", b"")), false).is_ok());
    assert_eq!(ocr_result(Err(RunError::Cancelled), true).unwrap_err(), "cancelled");
    assert!(part_path(&p("/s/page_001.png")).display().starts_with("/s/page_001"));
}

#[test]
fn languages_are_listed() {
    let out = "List of available languages in \"/usr/share/tessdata/\" (3):\ndeu\neng\nosd\n";
    let langs = parse_langs(out);
    assert_eq!(langs, ["deu", "eng", "osd"]);
    assert_eq!(parse_langs("LIST OF AVAILABLE LANGUAGES\n\n  script/Latin \n"), ["script/Latin"]);
    assert_eq!(list_langs_command()[0], "tesseract");
    assert!(available_langs(Err(RunError::NotFound)).is_err());
    assert_eq!(available_langs(Ok(ran(true, out.as_bytes(), b""))).unwrap(), langs);
}
