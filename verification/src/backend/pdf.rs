//! Page cleanup, rotation, and the assembly of the searchable document.

use vstd::prelude::*;
use vstd::utf8::*;

use crate::backend::process;
use crate::backend::process::{fail_with_log, fail_with_log_err, Output, RunError};
use crate::backend::scan::groups;
use crate::config::Cleanup;
use crate::path;
use crate::path::FilePath;
use crate::text;
use crate::text::{cat, cat3, copy_texts, parse_number, same, u64_text};

verus! {

/// What the document is built from.
#[derive(Debug)]
pub struct BuildPlan {
    /// The images in order, each with its resolution.
    pub pages: Vec<(FilePath, u16)>,
    /// At least one page was not fully cleaned and deskewed by unpaper.
    pub any_page_needing_cleanup: bool,
    /// At least one page was rotated by hand.
    pub manually_rotated: bool,
    pub langs: String,
    pub out_pdf: FilePath,
}

/// A build plan, with text and paths as sequences.
#[verifier::ext_equal]
pub struct BuildPlanView {
    pub pages: Seq<(Seq<u8>, u16)>,
    pub any_page_needing_cleanup: bool,
    pub manually_rotated: bool,
    pub langs: Seq<char>,
    pub out_pdf: Seq<u8>,
}

/// Images with their resolutions, as bytes.
pub open spec fn sized_images(v: Seq<(FilePath, u16)>) -> Seq<(Seq<u8>, u16)> {
    v.map_values(|p: (FilePath, u16)| (p.0@, p.1))
}

impl View for BuildPlan {
    type V = BuildPlanView;

    open spec fn view(&self) -> BuildPlanView {
        BuildPlanView {
            pages: sized_images(self.pages@),
            any_page_needing_cleanup: self.any_page_needing_cleanup,
            manually_rotated: self.manually_rotated,
            langs: self.langs@,
            out_pdf: self.out_pdf@,
        }
    }
}

/// A rectangle of an image, in pixels.
#[derive(Debug, Clone, Copy, PartialEq, Eq, Structural)]
pub struct CropRect {
    pub x: u32,
    pub y: u32,
    pub w: u32,
    pub h: u32,
}

/// What a build has produced.
#[derive(Debug, Clone, Copy, PartialEq, Eq, Structural)]
pub enum BuildOutcome {
    /// A searchable document.
    Searchable,
    /// A document without a text layer: ocrmypdf failed.
    WithoutTextLayer,
}


/// Seconds that unpaper may take.
pub const UNPAPER_TIMEOUT: u64 = 120;

/// Seconds that img2pdf may take.
pub const IMG2PDF_TIMEOUT: u64 = 300;

/// Seconds that ocrmypdf may take.
pub const OCRMYPDF_TIMEOUT: u64 = 1800;

/// Seconds that pdfunite may take.
pub const PDFUNITE_TIMEOUT: u64 = 300;

// -------------------------------------------------------------------- images

/// An encoded image, or why there is none.
pub open spec fn image_result(r: Result<Vec<u8>, String>) -> Result<Seq<u8>, Seq<char>> {
    match r {
        Ok(b) => Ok(b@),
        Err(e) => Err(e@),
    }
}

/// The PNG that an encoded image becomes when it is turned clockwise.
pub uninterp spec fn turned_right(bytes: Seq<u8>) -> Result<Seq<u8>, Seq<char>>;

/// The PNG that an encoded image becomes when it is turned counter-clockwise.
pub uninterp spec fn turned_left(bytes: Seq<u8>) -> Result<Seq<u8>, Seq<char>>;

/// The PNG that an encoded image becomes.
pub uninterp spec fn as_png(bytes: Seq<u8>) -> Result<Seq<u8>, Seq<char>>;

/// The PNG that a rectangle of an encoded image becomes.
pub uninterp spec fn cut_out(bytes: Seq<u8>, x: u32, y: u32, w: u32, h: u32) -> Result<
    Seq<u8>,
    Seq<char>,
>;

/// `image::DynamicImage::rotate90`, between decoding and encoding as PNG. An
/// error is handed over as its message.
#[verifier::external_body]
pub(crate) fn turn_right(bytes: &[u8]) -> (r: Result<Vec<u8>, String>)
    ensures
        image_result(r) == turned_right(bytes@),
{
    let img = image::load_from_memory(bytes).map_err(|e| e.to_string())?;
    let mut out = std::io::Cursor::new(Vec::new());
    match img.rotate90().write_to(&mut out, image::ImageFormat::Png) {
        Ok(()) => Ok(out.into_inner()),
        Err(e) => Err(e.to_string()),
    }
}

/// `image::DynamicImage::rotate270`, between decoding and encoding as PNG. An
/// error is handed over as its message.
#[verifier::external_body]
pub(crate) fn turn_left(bytes: &[u8]) -> (r: Result<Vec<u8>, String>)
    ensures
        image_result(r) == turned_left(bytes@),
{
    let img = image::load_from_memory(bytes).map_err(|e| e.to_string())?;
    let mut out = std::io::Cursor::new(Vec::new());
    match img.rotate270().write_to(&mut out, image::ImageFormat::Png) {
        Ok(()) => Ok(out.into_inner()),
        Err(e) => Err(e.to_string()),
    }
}

/// `image::DynamicImage::write_to`: an image of any known format, encoded as
/// PNG. An error is handed over as its message.
#[verifier::external_body]
pub(crate) fn encode_png(bytes: &[u8]) -> (r: Result<Vec<u8>, String>)
    ensures
        image_result(r) == as_png(bytes@),
{
    let img = image::load_from_memory(bytes).map_err(|e| e.to_string())?;
    let mut out = std::io::Cursor::new(Vec::new());
    match img.write_to(&mut out, image::ImageFormat::Png) {
        Ok(()) => Ok(out.into_inner()),
        Err(e) => Err(e.to_string()),
    }
}

/// `image::DynamicImage::crop_imm`, between decoding and encoding as PNG. An
/// error is handed over as its message.
#[verifier::external_body]
pub(crate) fn cut(bytes: &[u8], x: u32, y: u32, w: u32, h: u32) -> (r: Result<Vec<u8>, String>)
    ensures
        image_result(r) == cut_out(bytes@, x, y, w, h),
{
    let img = image::load_from_memory(bytes).map_err(|e| e.to_string())?;
    let mut out = std::io::Cursor::new(Vec::new());
    match img.crop_imm(x, y, w, h).write_to(&mut out, image::ImageFormat::Png) {
        Ok(()) => Ok(out.into_inner()),
        Err(e) => Err(e.to_string()),
    }
}

/// The image of a page, turned by 90 degrees and encoded as PNG.
pub fn rotate_png(bytes: &[u8], cw: bool) -> (r: Result<Vec<u8>, String>)
    ensures
        image_result(r) == (if cw {
            turned_right(bytes@)
        } else {
            turned_left(bytes@)
        }),
{
    if cw {
        turn_right(bytes)
    } else {
        turn_left(bytes)
    }
}

/// The image of a page, cut down to a rectangle and encoded as PNG.
pub fn crop_png(bytes: &[u8], x: u32, y: u32, w: u32, h: u32) -> (r: Result<Vec<u8>, String>)
    ensures
        image_result(r) == cut_out(bytes@, x, y, w, h),
{
    cut(bytes, x, y, w, h)
}

/// Whether bytes begin like a PNG file.
pub open spec fn is_png(b: Seq<u8>) -> bool {
    b.len() >= 4 && b[0] == 0x89 && b[1] == 0x50 && b[2] == 0x4e && b[3] == 0x47
}

/// What an image file is to hold instead, so that it is a PNG: nothing new if
/// it is one already. unpaper writes Netpbm data under every name.
pub open spec fn png_rewrite(b: Seq<u8>) -> Result<Option<Seq<u8>>, Seq<char>> {
    if is_png(b) {
        Ok(None)
    } else {
        match as_png(b) {
            Ok(p) => Ok(Some(p)),
            Err(e) => Err(e),
        }
    }
}

/// What an image file is to hold instead, so that it is a PNG.
pub fn rewrite_as_png(bytes: &[u8]) -> (r: Result<Option<Vec<u8>>, String>)
    ensures
        match r {
            Ok(Some(b)) => png_rewrite(bytes@) == Ok::<Option<Seq<u8>>, Seq<char>>(Some(b@)),
            Ok(None) => png_rewrite(bytes@) == Ok::<Option<Seq<u8>>, Seq<char>>(None),
            Err(e) => png_rewrite(bytes@) == Err::<Option<Seq<u8>>, Seq<char>>(e@),
        },
{
    if bytes.len() >= 4 && bytes[0] == 0x89 && bytes[1] == 0x50 && bytes[2] == 0x4e && bytes[3]
        == 0x47 {
        return Ok(None);
    }
    match encode_png(bytes) {
        Ok(b) => Ok(Some(b)),
        Err(e) => Err(e),
    }
}

// ------------------------------------------------------------------- cleaning

/// The options that keep unpaper from altering content.
pub open spec fn passthrough_flags() -> Seq<Seq<char>> {
    seq![
        "--no-mask-scan"@,
        "--no-border-scan"@,
        "--no-border-align"@,
        "--no-blackfilter"@,
        "--no-grayfilter"@,
        "--no-blurfilter"@,
        "--no-noisefilter"@,
        "--no-deskew"@,
    ]
}

/// The options that every run of unpaper has.
pub open spec fn layout_flags() -> Seq<Seq<char>> {
    seq!["--layout"@, "single"@, "--deskew-scan-direction"@, "left,right"@]
}

/// The options of unpaper for a cleanup strategy; the files come behind them.
pub open spec fn unpaper_options(cleanup: Cleanup, extra: Seq<Seq<char>>) -> Seq<Seq<char>> {
    layout_flags() + (if cleanup == Cleanup::Conservative {
        passthrough_flags()
    } else {
        Seq::empty()
    }) + extra
}

/// Appends copies of words.
fn extend(v: &mut Vec<String>, more: &[String])
    ensures
        text::texts(final(v)@) == text::texts(old(v)@) + text::texts(more@),
{
    let mut copy = copy_texts(more);
    let ghost a = v@;
    let ghost b = copy@;
    v.append(&mut copy);
    assert(text::texts(v@) =~= text::texts(a) + text::texts(b));
}

/// Appends a word.
fn word(v: &mut Vec<String>, w: &str)
    ensures
        text::texts(final(v)@) == text::texts(old(v)@).push(w@),
{
    v.push(w.to_owned());
    assert(text::texts(v@) =~= text::texts(old(v)@).push(w@));
}

/// The options of unpaper for a cleanup strategy; the files come behind them.
pub fn unpaper_args(cleanup: Cleanup, extra_args: &[String]) -> (r: Vec<String>)
    ensures
        text::texts(r@) == unpaper_options(cleanup, text::texts(extra_args@)),
{
    let mut r: Vec<String> = vec![
        "--layout".to_owned(),
        "single".to_owned(),
        "--deskew-scan-direction".to_owned(),
        "left,right".to_owned(),
    ];
    assert(text::texts(r@) =~= layout_flags());
    if cleanup == Cleanup::Conservative {
        let flags = vec![
            "--no-mask-scan".to_owned(),
            "--no-border-scan".to_owned(),
            "--no-border-align".to_owned(),
            "--no-blackfilter".to_owned(),
            "--no-grayfilter".to_owned(),
            "--no-blurfilter".to_owned(),
            "--no-noisefilter".to_owned(),
            "--no-deskew".to_owned(),
        ];
        assert(text::texts(flags@) =~= passthrough_flags());
        extend(&mut r, flags.as_slice());
    }
    extend(&mut r, extra_args);
    assert(text::texts(r@) =~= unpaper_options(cleanup, text::texts(extra_args@)));
    r
}

/// The cleaning of a page that is going on.
#[derive(Debug)]
pub struct CleanRun {
    /// The image as it was captured.
    pub page: FilePath,
    /// Where unpaper writes.
    pub tmp: FilePath,
    /// Where the cleaned image goes in the end.
    pub cleaned: FilePath,
    pub cleanup: Cleanup,
}

/// What happened in the cleaning of a page.
#[derive(Debug, Clone, Copy, PartialEq, Eq, Structural)]
pub enum CleanEvent {
    /// unpaper ended; it succeeded and left a file, or not.
    Ran { success: bool, wrote: bool },
    /// Its file was made a PNG, or not.
    Reencoded(bool),
    /// Its file got its name, or not.
    Renamed(bool),
}

/// What is to be done next in the cleaning of a page.
#[derive(Debug)]
pub enum CleanAction {
    /// Run unpaper with these arguments.
    Run(Vec<String>),
    /// Make this file a PNG.
    Reencode(FilePath),
    /// Give the finished file its name.
    Rename { from: FilePath, to: FilePath },
    /// Remove a file; the page then has this image.
    Done { remove: Option<FilePath>, image: FilePath, deskewed: bool },
}

/// An action, with text and paths as sequences.
#[verifier::ext_equal]
pub enum CleanActionView {
    Run(Seq<Seq<char>>),
    Reencode(Seq<u8>),
    Rename { from: Seq<u8>, to: Seq<u8> },
    Done { remove: Option<Seq<u8>>, image: Seq<u8>, deskewed: bool },
}

impl View for CleanAction {
    type V = CleanActionView;

    open spec fn view(&self) -> CleanActionView {
        match *self {
            CleanAction::Run(c) => CleanActionView::Run(text::texts(c@)),
            CleanAction::Reencode(p) => CleanActionView::Reencode(p@),
            CleanAction::Rename { from, to } => CleanActionView::Rename { from: from@, to: to@ },
            CleanAction::Done { remove, image, deskewed } => CleanActionView::Done {
                remove: crate::config::opt_path(remove),
                image: image@,
                deskewed,
            },
        }
    }
}

/// Whether a page is cleaned with unpaper at all: not in color (unpaper
/// handles gray only), not when cleaning is off, not without unpaper.
pub open spec fn cleans(cleanup: Cleanup, mode: Seq<char>, unpaper: bool) -> bool {
    cleanup != Cleanup::Off && mode != "color"@ && unpaper
}

/// Where unpaper writes the image of a page.
pub open spec fn unpaper_tmp(page: Seq<u8>) -> Seq<u8> {
    path::with_ext(page, encode_utf8("png.unpaper.tmp"@))
}

/// What cleaning a page begins with.
pub open spec fn clean_start(
    page: Seq<u8>,
    cleanup: Cleanup,
    extra: Seq<Seq<char>>,
    mode: Seq<char>,
    unpaper: bool,
) -> CleanActionView {
    if cleans(cleanup, mode, unpaper) {
        CleanActionView::Run(
            seq!["unpaper"@] + unpaper_options(cleanup, extra) + seq![
                path::lossy(page),
                path::lossy(unpaper_tmp(page)),
            ],
        )
    } else {
        CleanActionView::Done { remove: None, image: page, deskewed: false }
    }
}

/// What cleaning a page goes on with. Only a complete file gets the name of
/// the cleaned image; on any failure unpaper's file goes, and the page keeps
/// the image that was captured.
pub open spec fn clean_next(
    page: Seq<u8>,
    tmp: Seq<u8>,
    cleaned: Seq<u8>,
    cleanup: Cleanup,
    e: CleanEvent,
) -> CleanActionView {
    match e {
        CleanEvent::Ran { success: true, wrote: true } => CleanActionView::Reencode(tmp),
        CleanEvent::Reencoded(true) => CleanActionView::Rename { from: tmp, to: cleaned },
        CleanEvent::Renamed(true) => CleanActionView::Done {
            remove: Some(page),
            image: cleaned,
            deskewed: cleanup == Cleanup::Legacy,
        },
        _ => CleanActionView::Done { remove: Some(tmp), image: page, deskewed: false },
    }
}

/// Begins the cleaning of a page.
pub fn maybe_unpaper(
    page: &FilePath,
    cleanup: Cleanup,
    extra_args: &[String],
    mode: &str,
    unpaper_found: bool,
) -> (r: (CleanRun, CleanAction))
    ensures
        r.0.page@ == page@,
        r.0.tmp@ == unpaper_tmp(page@),
        r.0.cleaned@ == path::clean_variant_of(page@),
        r.0.cleanup == cleanup,
        r.1@ == clean_start(page@, cleanup, text::texts(extra_args@), mode@, unpaper_found),
{
    let run = CleanRun {
        page: page.clone(),
        tmp: page.with_extension("png.unpaper.tmp"),
        cleaned: page.clean_variant(),
        cleanup,
    };
    if cleanup == Cleanup::Off || same(mode, "color") || !unpaper_found {
        let image = page.clone();
        return (run, CleanAction::Done { remove: None, image, deskewed: false });
    }
    let mut cmd: Vec<String> = Vec::new();
    word(&mut cmd, "unpaper");
    let options = unpaper_args(cleanup, extra_args);
    extend(&mut cmd, options.as_slice());
    word(&mut cmd, run.page.display().as_str());
    word(&mut cmd, run.tmp.display().as_str());
    assert(text::texts(cmd@) =~= seq!["unpaper"@] + unpaper_options(
        cleanup,
        text::texts(extra_args@),
    ) + seq![path::lossy(page@), path::lossy(unpaper_tmp(page@))]);
    (run, CleanAction::Run(cmd))
}

impl CleanRun {
    /// What cleaning the page goes on with.
    pub fn step(&self, e: CleanEvent) -> (r: CleanAction)
        ensures
            r@ == clean_next(self.page@, self.tmp@, self.cleaned@, self.cleanup, e),
    {
        match e {
            CleanEvent::Ran { success, wrote } => if success && wrote {
                return CleanAction::Reencode(self.tmp.clone());
            },
            CleanEvent::Reencoded(ok) => if ok {
                return CleanAction::Rename { from: self.tmp.clone(), to: self.cleaned.clone() };
            },
            CleanEvent::Renamed(ok) => if ok {
                return CleanAction::Done {
                    remove: Some(self.page.clone()),
                    image: self.cleaned.clone(),
                    deskewed: self.cleanup == Cleanup::Legacy,
                };
            },
        }
        CleanAction::Done {
            remove: Some(self.tmp.clone()),
            image: self.page.clone(),
            deskewed: false,
        }
    }
}

/// A cleaning that fails at any point leaves the page with the image that was
/// captured, and removes only unpaper's own file: an earlier cleaned image is
/// neither removed nor written to before a complete file takes its name.
pub proof fn law_failed_clean_keeps_images(
    page: Seq<u8>,
    tmp: Seq<u8>,
    cleaned: Seq<u8>,
    cleanup: Cleanup,
    e: CleanEvent,
)
    ensures
        clean_next(page, tmp, cleaned, cleanup, e) matches CleanActionView::Rename { .. } ==> e
            == CleanEvent::Reencoded(true),
        clean_next(page, tmp, cleaned, cleanup, e) matches CleanActionView::Done {
            remove,
            image,
            deskewed,
        } ==> (e == CleanEvent::Renamed(true) && image == cleaned && remove == Some(page)) || (
        image == page && remove == Some(tmp) && !deskewed),
{
}

/// Only the legacy strategy ever claims that a page needs no further
/// deskewing, and never for a page in color.
pub proof fn law_only_legacy_deskews(
    page: Seq<u8>,
    cleanup: Cleanup,
    extra: Seq<Seq<char>>,
    mode: Seq<char>,
    unpaper: bool,
    tmp: Seq<u8>,
    cleaned: Seq<u8>,
    e: CleanEvent,
)
    ensures
        mode == "color"@ ==> clean_start(page, cleanup, extra, mode, unpaper) == (
        CleanActionView::Done { remove: None, image: page, deskewed: false }),
        clean_next(page, tmp, cleaned, cleanup, e) matches CleanActionView::Done {
            deskewed,
            ..
        } ==> deskewed ==> cleanup == Cleanup::Legacy,
{
}

// ------------------------------------------------------------------- assembly

/// Images in order, cut where the resolution changes.
pub open spec fn by_dpi(pages: Seq<(Seq<u8>, u16)>) -> Seq<Seq<(Seq<u8>, u16)>>
    decreases pages.len(),
{
    if pages.len() == 0 {
        Seq::empty()
    } else {
        let rest = by_dpi(pages.drop_last());
        if rest.len() > 0 && rest.last().len() > 0 && rest.last().last().1 == pages.last().1 {
            rest.drop_last().push(rest.last().push(pages.last()))
        } else {
            rest.push(seq![pages.last()])
        }
    }
}

/// The names of images.
pub open spec fn image_names(g: Seq<(Seq<u8>, u16)>) -> Seq<Seq<char>> {
    g.map_values(|p: (Seq<u8>, u16)| path::lossy(p.0))
}

/// The arguments of img2pdf for images of one resolution.
pub open spec fn img2pdf_args(g: Seq<(Seq<u8>, u16)>, out: Seq<u8>) -> Seq<Seq<char>> {
    seq!["img2pdf"@, "--imgsize"@, text::dec(g[0].1 as nat) + "dpi"@] + image_names(g) + seq![
        "-o"@,
        path::lossy(out),
    ]
}

/// The calls of img2pdf for images of several resolutions.
pub open spec fn img2pdf_calls(pages: Seq<(Seq<u8>, u16)>, out: Seq<u8>) -> Seq<Seq<Seq<char>>> {
    by_dpi(pages).map_values(|g: Seq<(Seq<u8>, u16)>| img2pdf_args(g, out))
}

/// The images of all groups, one group behind the other.
pub open spec fn flattened(groups: Seq<Seq<(Seq<u8>, u16)>>) -> Seq<(Seq<u8>, u16)>
    decreases groups.len(),
{
    if groups.len() == 0 {
        Seq::empty()
    } else {
        flattened(groups.drop_last()) + groups.last()
    }
}

/// Grouping by resolution loses and reorders nothing, each group has one
/// resolution, and neighbouring groups differ in theirs.
pub proof fn law_groups(pages: Seq<(Seq<u8>, u16)>)
    ensures
        flattened(by_dpi(pages)) == pages,
        forall|i: int| 0 <= i < by_dpi(pages).len() ==> (#[trigger] by_dpi(pages)[i]).len() > 0,
        forall|i: int, j: int|
            0 <= i < by_dpi(pages).len() && 0 <= j < by_dpi(pages)[i].len()
                ==> #[trigger] by_dpi(pages)[i][j].1 == by_dpi(pages)[i][0].1,
        forall|i: int|
            0 < i < by_dpi(pages).len() ==> (#[trigger] by_dpi(pages)[i])[0].1 != by_dpi(pages)[i
                - 1][0].1,
    decreases pages.len(),
{
    if pages.len() > 0 {
        let init = pages.drop_last();
        law_groups(init);
        let rest = by_dpi(init);
        let all = by_dpi(pages);
        let p = pages.last();
        assert(init.push(p) =~= pages);
        if rest.len() > 0 && rest.last().len() > 0 && rest.last().last().1 == p.1 {
            let g = rest.last().push(p);
            assert(all == rest.drop_last().push(g));
            assert(all.drop_last() =~= rest.drop_last());
            assert(flattened(rest) == flattened(rest.drop_last()) + rest.last());
            assert(flattened(all) =~= pages);
            assert(rest.last()[rest.last().len() - 1].1 == rest.last()[0].1);
            assert(g[0] == rest.last()[0]);
            assert forall|i: int, j: int|
                0 <= i < all.len() && 0 <= j < all[i].len() implies #[trigger] all[i][j].1
                == all[i][0].1 by {
                if i < all.len() - 1 {
                    assert(all[i] == rest[i]);
                } else if j < g.len() - 1 {
                    assert(g[j] == rest.last()[j]);
                }
            }
            assert forall|i: int| 0 < i < all.len() implies (#[trigger] all[i])[0].1 != all[i
                - 1][0].1 by {
                assert(all[i - 1] == rest[i - 1]);
                assert(rest[i][0].1 != rest[i - 1][0].1);
                if i < all.len() - 1 {
                    assert(all[i] == rest[i]);
                }
            }
        } else {
            assert(all == rest.push(seq![p]));
            assert(all.drop_last() =~= rest);
            assert(flattened(all) =~= pages);
            if rest.len() > 0 {
                let l = rest.last();
                assert(l.len() > 0);
                assert(l[l.len() - 1].1 == l[0].1);
            }
            assert forall|i: int| 0 < i < all.len() implies (#[trigger] all[i])[0].1 != all[i
                - 1][0].1 by {
                if i < rest.len() {
                    assert(all[i] == rest[i] && all[i - 1] == rest[i - 1]);
                } else {
                    assert(all[i - 1] == rest.last());
                }
            }
        }
    }
}

/// Images of one resolution make one group.
pub proof fn law_single_dpi_single_call(pages: Seq<(Seq<u8>, u16)>)
    requires
        pages.len() > 0,
        forall|i: int| 0 <= i < pages.len() ==> (#[trigger] pages[i]).1 == pages[0].1,
    ensures
        by_dpi(pages) == seq![pages],
    decreases pages.len(),
{
    let init = pages.drop_last();
    if init.len() > 0 {
        assert forall|i: int| 0 <= i < init.len() implies (#[trigger] init[i]).1 == init[0].1 by {
            assert(init[i] == pages[i]);
        }
        law_single_dpi_single_call(init);
        assert(by_dpi(init).last() =~= init);
        assert(init.last() == pages[init.len() - 1]);
        assert(init.push(pages.last()) =~= pages);
        assert(by_dpi(init).drop_last().push(pages) =~= seq![pages]);
    } else {
        assert(by_dpi(init) =~= Seq::empty());
        assert(by_dpi(pages) =~= seq![seq![pages.last()]]);
        assert(seq![pages.last()] =~= pages);
    }
}

/// Groups of images with their resolutions, as bytes.
pub open spec fn sized_groups(v: Seq<Vec<(FilePath, u16)>>) -> Seq<Seq<(Seq<u8>, u16)>> {
    v.map_values(|g: Vec<(FilePath, u16)>| sized_images(g@))
}

/// Images in order, cut where the resolution changes.
pub fn group_by_dpi(pages: &[(FilePath, u16)]) -> (r: Vec<Vec<(FilePath, u16)>>)
    ensures
        sized_groups(r@) == by_dpi(sized_images(pages@)),
{
    let mut r: Vec<Vec<(FilePath, u16)>> = Vec::new();
    let ghost all = sized_images(pages@);
    let mut i: usize = 0;
    assert(sized_groups(r@) =~= by_dpi(all.take(0)));
    while i < pages.len()
        invariant
            i <= pages@.len(),
            all == sized_images(pages@),
            sized_groups(r@) == by_dpi(all.take(i as int)),
        decreases pages@.len() - i,
    {
        let ghost before = r@;
        let ghost rest = by_dpi(all.take(i as int));
        assert(all.take(i + 1).drop_last() =~= all.take(i as int));
        assert(all.take(i + 1).last() == (pages@[i as int].0@, pages@[i as int].1));
        let dpi: u16 = pages[i].1;
        let image = pages[i].0.clone();
        let n: usize = r.len();
        let mut joined = false;
        if n > 0 {
            assert(rest.last() == sized_images(before[n - 1]@));
            let m: usize = r[n - 1].len();
            if m > 0 {
                assert(rest.last().last() == (before[n - 1]@[m - 1].0@, before[n - 1]@[m - 1].1));
                joined = r[n - 1][m - 1].1 == dpi;
            }
        }
        if joined {
            let mut g = r.remove(n - 1);
            let ghost g0 = g@;
            g.push((image, dpi));
            assert(sized_images(g@) =~= sized_images(g0).push((image@, dpi)));
            r.push(g);
            assert(sized_groups(r@) =~= rest.drop_last().push(sized_images(g@)));
        } else {
            let g: Vec<(FilePath, u16)> = vec![(image, dpi)];
            assert(sized_images(g@) =~= seq![(image@, dpi)]);
            r.push(g);
            assert(sized_groups(r@) =~= rest.push(sized_images(g@)));
        }
        i = i + 1;
    }
    assert(all.take(all.len() as int) =~= all);
    r
}

fn img2pdf_command(g: &[(FilePath, u16)], out: &FilePath) -> (r: Vec<String>)
    requires
        g@.len() > 0,
    ensures
        text::texts(r@) == img2pdf_args(sized_images(g@), out@),
{
    let ghost gs = sized_images(g@);
    let mut r: Vec<String> = Vec::new();
    word(&mut r, "img2pdf");
    word(&mut r, "--imgsize");
    assert(gs[0].1 == g@[0].1);
    word(&mut r, cat(u64_text(g[0].1 as u64).as_str(), "dpi").as_str());
    let ghost head = seq!["img2pdf"@, "--imgsize"@, text::dec(gs[0].1 as nat) + "dpi"@];
    assert(text::texts(r@) =~= head + image_names(gs).take(0));
    let mut i: usize = 0;
    while i < g.len()
        invariant
            i <= g@.len(),
            gs == sized_images(g@),
            text::texts(r@) == head + image_names(gs).take(i as int),
        decreases g@.len() - i,
    {
        word(&mut r, g[i].0.display().as_str());
        assert(image_names(gs).take(i + 1) =~= image_names(gs).take(i as int).push(
            path::lossy(gs[i as int].0),
        ));
        assert(text::texts(r@) =~= head + image_names(gs).take(i + 1));
        i = i + 1;
    }
    assert(image_names(gs).take(gs.len() as int) =~= image_names(gs));
    word(&mut r, "-o");
    word(&mut r, out.display().as_str());
    assert(text::texts(r@) =~= img2pdf_args(gs, out@));
    r
}

/// The calls of img2pdf: one per run of images with the same resolution.
pub fn img2pdf_pages_args(pages: &[(FilePath, u16)], out_pdf: &FilePath) -> (r: Vec<Vec<String>>)
    ensures
        crate::backend::scan::commands(r@) == img2pdf_calls(sized_images(pages@), out_pdf@),
{
    let groups = group_by_dpi(pages);
    let ghost gs = by_dpi(sized_images(pages@));
    let ghost calls = img2pdf_calls(sized_images(pages@), out_pdf@);
    proof {
        law_groups(sized_images(pages@));
    }
    let mut r: Vec<Vec<String>> = Vec::new();
    let mut i: usize = 0;
    assert(crate::backend::scan::commands(r@) =~= calls.take(0));
    while i < groups.len()
        invariant
            i <= groups@.len(),
            gs == sized_groups(groups@),
            gs == by_dpi(sized_images(pages@)),
            calls == img2pdf_calls(sized_images(pages@), out_pdf@),
            forall|k: int| 0 <= k < gs.len() ==> (#[trigger] gs[k]).len() > 0,
            crate::backend::scan::commands(r@) == calls.take(i as int),
        decreases groups@.len() - i,
    {
        let ghost before = r@;
        assert(gs[i as int] == sized_images(groups@[i as int]@));
        let c = img2pdf_command(groups[i].as_slice(), out_pdf);
        r.push(c);
        assert(crate::backend::scan::commands(r@) =~= crate::backend::scan::commands(before).push(
            calls[i as int],
        ));
        assert(calls.take(i + 1) =~= calls.take(i as int).push(calls[i as int]));
        i = i + 1;
    }
    assert(calls.take(calls.len() as int) =~= calls);
    r
}

// ---------------------------------------------------------------------- build

/// One program to run for a document, and how long it may take in seconds.
#[derive(Debug)]
pub struct PdfStep {
    /// What the program is for.
    pub what: String,
    pub args: Vec<String>,
    pub timeout: u64,
}

/// A step, with text as sequences of characters.
#[verifier::ext_equal]
pub struct PdfStepView {
    pub what: Seq<char>,
    pub args: Seq<Seq<char>>,
    pub timeout: u64,
}

impl View for PdfStep {
    type V = PdfStepView;

    open spec fn view(&self) -> PdfStepView {
        PdfStepView { what: self.what@, args: text::texts(self.args@), timeout: self.timeout }
    }
}

/// The steps of a list.
pub open spec fn steps_view(v: Seq<PdfStep>) -> Seq<PdfStepView> {
    v.map_values(|s: PdfStep| s@)
}

/// Where the images are put together before their text is added.
pub open spec fn raw_pdf(tmp: Seq<u8>) -> Seq<u8> {
    path::join_path(tmp, encode_utf8("raw.pdf"@))
}

/// Where the images of one group are put together.
pub open spec fn part_pdf(tmp: Seq<u8>, i: nat) -> Seq<u8> {
    path::join_path(tmp, encode_utf8("part"@ + text::dec(i) + ".pdf"@))
}

/// A run of img2pdf.
pub open spec fn img2pdf_step(args: Seq<Seq<char>>) -> PdfStepView {
    PdfStepView { what: "PDF assembly (img2pdf)"@, args, timeout: IMG2PDF_TIMEOUT }
}

/// The documents that the groups are put together in.
pub open spec fn part_names(tmp: Seq<u8>, n: nat) -> Seq<Seq<char>> {
    Seq::new(n, |i: int| path::lossy(part_pdf(tmp, i as nat)))
}

/// A run of pdfunite.
pub open spec fn unite_step(tmp: Seq<u8>, n: nat) -> PdfStepView {
    PdfStepView {
        what: "PDF merge (pdfunite)"@,
        args: seq!["pdfunite"@] + part_names(tmp, n) + seq![path::lossy(raw_pdf(tmp))],
        timeout: PDFUNITE_TIMEOUT,
    }
}

/// The steps that put images of several resolutions together: one document
/// per group, then all of them in one.
pub open spec fn mixed_steps(groups: Seq<Seq<(Seq<u8>, u16)>>, tmp: Seq<u8>) -> Seq<PdfStepView> {
    Seq::new(
        groups.len(),
        |i: int| img2pdf_step(img2pdf_args(groups[i], part_pdf(tmp, i as nat))),
    ).push(unite_step(tmp, groups.len()))
}

/// The steps that put the images together, or why that is not possible.
pub open spec fn assembly(pages: Seq<(Seq<u8>, u16)>, tmp: Seq<u8>, pdfunite: bool) -> Result<
    Seq<PdfStepView>,
    Seq<char>,
> {
    let groups = by_dpi(pages);
    if groups.len() == 1 {
        Ok(seq![img2pdf_step(img2pdf_args(groups[0], raw_pdf(tmp)))])
    } else if !pdfunite {
        Err(
            "session mixes page DPIs ("@ + text::dec(groups.len())
                + " groups) and pdfunite is not installed - install poppler (pacman) or poppler-utils (apt), or rescan all pages at one DPI"@,
        )
    } else {
        Ok(mixed_steps(groups, tmp))
    }
}

/// Where the finished document is written before it gets its name.
pub open spec fn part_of(out: Seq<u8>) -> Seq<u8> {
    out + encode_utf8(".part"@)
}

/// The run of ocrmypdf that adds the text.
pub open spec fn ocr_step(plan: BuildPlanView, tmp: Seq<u8>, unpaper: bool) -> PdfStepView {
    PdfStepView {
        what: "OCR (ocrmypdf)"@,
        args: seq![
            "ocrmypdf"@,
            "--language"@,
            plan.langs,
            "--output-type"@,
            "pdfa"@,
            "--optimize"@,
            "0"@,
            "--deskew"@,
        ] + (if plan.manually_rotated {
            Seq::empty()
        } else {
            seq!["--rotate-pages"@, "--rotate-pages-threshold"@, "10"@]
        }) + (if unpaper && plan.any_page_needing_cleanup {
            seq!["--clean"@]
        } else {
            Seq::empty()
        }) + seq![path::lossy(raw_pdf(tmp)), path::lossy(part_of(plan.out_pdf))],
        timeout: OCRMYPDF_TIMEOUT,
    }
}

/// How a finished document is delivered: copied to its part file where
/// ocrmypdf did not write one, then renamed.
#[derive(Debug)]
pub struct Delivery {
    pub copy_from: Option<FilePath>,
    pub part: FilePath,
    pub out: FilePath,
    pub outcome: BuildOutcome,
}

/// A build that is going on.
#[derive(Debug)]
pub struct BuildRun {
    /// The steps that put the images together.
    pub steps: Vec<PdfStep>,
    /// How many of them are done.
    pub done: usize,
    /// The step that adds the text.
    pub ocr: PdfStep,
    pub raw: FilePath,
    pub part: FilePath,
    pub out: FilePath,
}

/// What is reported of a step that failed; nothing where it succeeded. Without
/// the assembled images there is nothing to deliver, so this is fatal.
pub open spec fn step_report(
    what: Seq<char>,
    cmd: Seq<char>,
    result: Result<Output, RunError>,
    logfile: Seq<u8>,
) -> Option<Seq<char>> {
    match result {
        Err(e) => Some(process::step_error(what, cmd, e@, logfile)),
        Ok(out) => if out.success {
            None
        } else {
            Some(process::step_failure(what, out.stderr@, logfile))
        },
    }
}

/// Whether a step succeeded, or what to report.
pub fn run_pdf_step(what: &str, cmd: &str, result: &Result<Output, RunError>, logfile: &FilePath) -> (r:
    Result<(), String>)
    ensures
        match r {
            Ok(_) => step_report(what@, cmd@, *result, logfile@) is None,
            Err(e) => step_report(what@, cmd@, *result, logfile@) == Some(e@),
        },
{
    match result {
        Err(e) => Err(fail_with_log_err(what, cmd, e, logfile)),
        Ok(out) => if out.success {
            Ok(())
        } else {
            Err(fail_with_log(what, out, logfile))
        },
    }
}

/// The program that a step runs.
pub open spec fn program(s: PdfStepView) -> Seq<char> {
    if s.args.len() > 0 {
        s.args[0]
    } else {
        ""@
    }
}

/// Whether a program ran and succeeded.
pub open spec fn succeeded(result: Result<Output, RunError>) -> bool {
    result matches Ok(out) && out.success
}

/// What the end of a step leads to: the next step, the delivery, or a
/// report. Only ocrmypdf may fail, in whatever way: the images are then
/// delivered without text.
pub open spec fn build_next(
    r: BuildRun,
    result: Result<Output, RunError>,
    logfile: Seq<u8>,
) -> Result<Option<(Option<Seq<u8>>, BuildOutcome)>, Seq<char>> {
    if r.done < r.steps@.len() {
        let s = r.steps@[r.done as int]@;
        match step_report(s.what, program(s), result, logfile) {
            Some(e) => Err(e),
            None => Ok(None),
        }
    } else {
        if succeeded(result) {
            Ok(Some((None, BuildOutcome::Searchable)))
        } else {
            Ok(Some((Some(r.raw@), BuildOutcome::WithoutTextLayer)))
        }
    }
}

fn step_of(what: &str, args: Vec<String>, timeout: u64) -> (r: PdfStep)
    ensures
        r@ == (PdfStepView { what: what@, args: text::texts(args@), timeout }),
{
    PdfStep { what: what.to_owned(), args, timeout }
}

/// The steps that put the images together.
fn assembly_steps(pages: &[(FilePath, u16)], tmp: &FilePath, pdfunite: bool) -> (r: Result<
    Vec<PdfStep>,
    String,
>)
    ensures
        match r {
            Ok(v) => assembly(sized_images(pages@), tmp@, pdfunite) == Ok::<
                Seq<PdfStepView>,
                Seq<char>,
            >(steps_view(v@)),
            Err(e) => assembly(sized_images(pages@), tmp@, pdfunite) == Err::<
                Seq<PdfStepView>,
                Seq<char>,
            >(e@),
        },
{
    let groups = group_by_dpi(pages);
    let ghost gs = by_dpi(sized_images(pages@));
    proof {
        law_groups(sized_images(pages@));
    }
    let raw = tmp.join("raw.pdf");
    if groups.len() == 1 {
        assert(gs[0] == sized_images(groups@[0]@));
        let args = img2pdf_command(groups[0].as_slice(), &raw);
        let v = vec![step_of("PDF assembly (img2pdf)", args, IMG2PDF_TIMEOUT)];
        assert(steps_view(v@) =~= seq![img2pdf_step(img2pdf_args(gs[0], raw_pdf(tmp@)))]);
        return Ok(v);
    }
    if !pdfunite {
        return Err(
            cat3(
                "session mixes page DPIs (",
                u64_text(groups.len() as u64).as_str(),
                " groups) and pdfunite is not installed - install poppler (pacman) or poppler-utils (apt), or rescan all pages at one DPI",
            ),
        );
    }
    let mut v: Vec<PdfStep> = Vec::new();
    let mut unite: Vec<String> = Vec::new();
    word(&mut unite, "pdfunite");
    let ghost full = mixed_steps(gs, tmp@);
    let ghost names = part_names(tmp@, gs.len());
    assert(steps_view(v@) =~= full.take(0));
    assert(text::texts(unite@) =~= seq!["pdfunite"@] + names.take(0));
    let mut i: usize = 0;
    while i < groups.len()
        invariant
            i <= groups@.len(),
            gs == sized_groups(groups@),
            full == mixed_steps(gs, tmp@),
            names == part_names(tmp@, gs.len()),
            forall|k: int| 0 <= k < gs.len() ==> (#[trigger] gs[k]).len() > 0,
            steps_view(v@) == full.take(i as int),
            text::texts(unite@) == seq!["pdfunite"@] + names.take(i as int),
        decreases groups@.len() - i,
    {
        let ghost before = v@;
        assert(gs[i as int] == sized_images(groups@[i as int]@));
        let part = tmp.join(cat3("part", u64_text(i as u64).as_str(), ".pdf").as_str());
        let args = img2pdf_command(groups[i].as_slice(), &part);
        v.push(step_of("PDF assembly (img2pdf)", args, IMG2PDF_TIMEOUT));
        word(&mut unite, part.display().as_str());
        proof {
            assert(steps_view(v@) =~= steps_view(before).push(full[i as int]));
            assert(full.take(i + 1) =~= full.take(i as int).push(full[i as int]));
            assert(names.take(i + 1) =~= names.take(i as int).push(names[i as int]));
            assert(text::texts(unite@) =~= seq!["pdfunite"@] + names.take(i + 1));
        }
        i = i + 1;
    }
    assert(names.take(names.len() as int) =~= names);
    word(&mut unite, raw.display().as_str());
    assert(text::texts(unite@) =~= unite_step(tmp@, gs.len()).args);
    let ghost before = v@;
    v.push(step_of("PDF merge (pdfunite)", unite, PDFUNITE_TIMEOUT));
    assert(v@.last()@ == unite_step(tmp@, gs.len()));
    assert(steps_view(v@) =~= steps_view(before).push(v@.last()@));
    assert(full =~= full.take(gs.len() as int).push(unite_step(tmp@, gs.len())));
    Ok(v)
}

fn ocr_step_of(plan: &BuildPlan, raw: &FilePath, part: &FilePath, unpaper: bool) -> (r: PdfStep)
    ensures
        forall|tmp: Seq<u8>|
            raw@ == #[trigger] raw_pdf(tmp) && part@ == part_of(plan.out_pdf@) ==> r@ == ocr_step(
                plan@,
                tmp,
                unpaper,
            ),
{
    let mut a: Vec<String> = vec![
        "ocrmypdf".to_owned(),
        "--language".to_owned(),
        plan.langs.clone(),
        "--output-type".to_owned(),
        "pdfa".to_owned(),
        "--optimize".to_owned(),
        "0".to_owned(),
        "--deskew".to_owned(),
    ];
    let ghost head = seq![
        "ocrmypdf"@,
        "--language"@,
        plan.langs@,
        "--output-type"@,
        "pdfa"@,
        "--optimize"@,
        "0"@,
        "--deskew"@,
    ];
    assert(text::texts(a@) =~= head);
    let ghost rot = if plan.manually_rotated {
        Seq::empty()
    } else {
        seq!["--rotate-pages"@, "--rotate-pages-threshold"@, "10"@]
    };
    if !plan.manually_rotated {
        word(&mut a, "--rotate-pages");
        word(&mut a, "--rotate-pages-threshold");
        word(&mut a, "10");
    }
    assert(text::texts(a@) =~= head + rot);
    let ghost cl = if unpaper && plan.any_page_needing_cleanup {
        seq!["--clean"@]
    } else {
        Seq::empty()
    };
    if unpaper && plan.any_page_needing_cleanup {
        word(&mut a, "--clean");
    }
    assert(text::texts(a@) =~= head + rot + cl);
    word(&mut a, raw.display().as_str());
    word(&mut a, part.display().as_str());
    assert(text::texts(a@) =~= head + rot + cl + seq![path::lossy(raw@), path::lossy(part@)]);
    step_of("OCR (ocrmypdf)", a, OCRMYPDF_TIMEOUT)
}

/// A build of a document, none of whose steps is done.
pub open spec fn build_started(
    plan: BuildPlanView,
    tmp: Seq<u8>,
    pdfunite: bool,
    unpaper: bool,
    r: Result<BuildRun, String>,
) -> bool {
    match (assembly(plan.pages, tmp, pdfunite), r) {
        (Ok(steps), Ok(b)) => {
            &&& steps_view(b.steps@) == steps
            &&& b.done == 0
            &&& b.ocr@ == ocr_step(plan, tmp, unpaper)
            &&& b.raw@ == raw_pdf(tmp)
            &&& b.part@ == part_of(plan.out_pdf)
            &&& b.out@ == plan.out_pdf
        },
        (Err(e), Err(f)) => e == f@,
        _ => false,
    }
}

/// Begins the building of a document in the directory `tmp`.
pub fn build_pdf(plan: &BuildPlan, tmp: &FilePath, pdfunite: bool, unpaper: bool) -> (r: Result<
    BuildRun,
    String,
>)
    ensures
        build_started(plan@, tmp@, pdfunite, unpaper, r),
{
    match assembly_steps(plan.pages.as_slice(), tmp, pdfunite) {
        Ok(steps) => {
            let raw = tmp.join("raw.pdf");
            let part = plan.out_pdf.with_suffix(".part");
            let ocr = ocr_step_of(plan, &raw, &part, unpaper);
            Ok(BuildRun { steps, done: 0, ocr, raw, part, out: plan.out_pdf.clone() })
        },
        Err(e) => Err(e),
    }
}

impl BuildRun {
    /// The step that is due.
    pub open spec fn current(self) -> PdfStepView {
        if self.done < self.steps@.len() {
            self.steps@[self.done as int]@
        } else {
            self.ocr@
        }
    }

    /// The step that is due.
    pub fn next(&self) -> (r: &PdfStep)
        ensures
            r@ == self.current(),
    {
        if self.done < self.steps.len() {
            &self.steps[self.done]
        } else {
            &self.ocr
        }
    }

    /// A step ended: the next one is due, or the document is delivered, or
    /// the build has failed.
    pub fn ended(&mut self, result: Result<Output, RunError>, logfile: &FilePath) -> (r: Result<
        Option<Delivery>,
        String,
    >)
        ensures
            final(self).steps == old(self).steps,
            final(self).ocr == old(self).ocr,
            final(self).raw == old(self).raw,
            final(self).part == old(self).part,
            final(self).out == old(self).out,
            match (build_next(*old(self), result, logfile@), r) {
                (Ok(None), Ok(None)) => final(self).done == old(self).done + 1,
                (Ok(Some(d)), Ok(Some(e))) => {
                    &&& final(self).done == old(self).done
                    &&& crate::config::opt_path(e.copy_from) == d.0
                    &&& e.outcome == d.1
                    &&& e.part@ == old(self).part@
                    &&& e.out@ == old(self).out@
                },
                (Err(e), Err(f)) => final(self).done == old(self).done && e == f@,
                _ => false,
            },
    {
        let n: usize = self.steps.len();
        if self.done < n {
            let s = &self.steps[self.done];
            let cmd = if s.args.len() > 0 {
                s.args[0].clone()
            } else {
                "".to_owned()
            };
            assert(cmd@ == program(s@));
            match run_pdf_step(s.what.as_str(), cmd.as_str(), &result, logfile) {
                Ok(_) => {
                    self.done = self.done + 1;
                    Ok(None)
                },
                Err(e) => Err(e),
            }
        } else {
            let searchable = match result {
                Ok(out) => out.success,
                Err(_) => false,
            };
            let (copy_from, outcome) = if searchable {
                (None, BuildOutcome::Searchable)
            } else {
                (Some(self.raw.clone()), BuildOutcome::WithoutTextLayer)
            };
            Ok(
                Some(
                    Delivery {
                        copy_from,
                        part: self.part.clone(),
                        out: self.out.clone(),
                        outcome,
                    },
                ),
            )
        }
    }
}

/// A document is delivered only when all images have been put together and
/// ocrmypdf has had its turn.
pub proof fn law_delivery_comes_last(r: BuildRun, result: Result<Output, RunError>, logfile: Seq<u8>)
    requires
        build_next(r, result, logfile) matches Ok(Some(_)),
    ensures
        r.done >= r.steps@.len(),
{
}

/// Once the images have been put together, a document is delivered whatever
/// becomes of ocrmypdf. It is without text exactly when ocrmypdf fails, is
/// missing or takes too long; it is then the images as they were put
/// together.
pub proof fn law_fallback_is_raw(r: BuildRun, result: Result<Output, RunError>, logfile: Seq<u8>)
    requires
        r.done >= r.steps@.len(),
    ensures
        build_next(r, result, logfile) == Ok::<
            Option<(Option<Seq<u8>>, BuildOutcome)>,
            Seq<char>,
        >(
            Some(
                if succeeded(result) {
                    (None, BuildOutcome::Searchable)
                } else {
                    (Some(r.raw@), BuildOutcome::WithoutTextLayer)
                },
            ),
        ),
{
}

/// A document whose pages were turned by hand is not turned again: ocrmypdf
/// cannot be told to spare single pages.
pub proof fn law_no_automatic_rotation(plan: BuildPlanView, tmp: Seq<u8>, unpaper: bool)
    requires
        plan.manually_rotated,
        plan.langs != "--rotate-pages"@,
        path::lossy(raw_pdf(tmp)) != "--rotate-pages"@,
        path::lossy(part_of(plan.out_pdf)) != "--rotate-pages"@,
    ensures
        !ocr_step(plan, tmp, unpaper).args.contains("--rotate-pages"@),
{
    reveal_strlit("ocrmypdf");
    reveal_strlit("--language");
    reveal_strlit("--output-type");
    reveal_strlit("pdfa");
    reveal_strlit("--optimize");
    reveal_strlit("0");
    reveal_strlit("--deskew");
    reveal_strlit("--clean");
    reveal_strlit("--rotate-pages");
    let w = "--rotate-pages"@;
    assert(w.len() == 14);
    assert("--output-type"@.len() == 13);
}

// -------------------------------------------------------------- output places

/// The place for a document of the given moment: the `n`-th choice.
pub open spec fn output_place(dir: Seq<u8>, stamp: Seq<char>, n: u32) -> Seq<u8> {
    path::join_path(
        dir,
        encode_utf8(
            if n <= 1 {
                stamp + ".pdf"@
            } else {
                stamp + "_"@ + text::dec(n as nat) + ".pdf"@
            },
        ),
    )
}

/// The places for a document, one after the other, until one is free:
/// `2026-09-02_143005.pdf`, then `..._2.pdf`, and so on. A place is claimed by
/// creating the file, so that no two programs can claim the same one.
#[derive(Debug)]
pub struct OutputLadder {
    pub dir: FilePath,
    pub stamp: String,
    pub n: u32,
}

/// A time as a stamp: at least seventeen characters, which are digits, signs
/// and underscores; of just seventeen, as for every year of four digits, the
/// ones between the numbers have their places.
pub open spec fn stamp_like(s: Seq<char>) -> bool {
    &&& s.len() >= 17
    &&& forall|i: int|
        0 <= i < s.len() ==> {
            let c = #[trigger] s[i];
            '0' <= c <= '9' || c == '-' || c == '_' || c == '+'
        }
    &&& s.len() == 17 ==> forall|i: int|
        0 <= i < 17 ==> (if i == 4 || i == 7 {
            #[trigger] s[i] == '-'
        } else if i == 10 {
            s[i] == '_'
        } else {
            '0' <= s[i] <= '9'
        })
}

/// `chrono::Local::now`, formatted as `YYYY-MM-DD_HHMMSS`. Which moment it
/// stands for is not claimed, only what every moment looks like; a year of
/// more than four digits has a sign.
#[verifier::external_body]
pub fn stamp_now() -> (r: String)
    ensures
        stamp_like(r@),
{
    chrono::Local::now().format("%Y-%m-%d_%H%M%S").to_string()
}

impl OutputLadder {
    /// The places for a document of this moment.
    pub fn now(dir: &FilePath) -> (r: Self)
        ensures
            r.dir@ == dir@,
            r.n == 1,
            call_ensures(stamp_now, (), r.stamp),
            stamp_like(r.stamp@),
    {
        let stamp = stamp_now();
        reserve_output_path(dir, stamp)
    }

    /// The place that is next to be tried.
    pub fn place(&self) -> (r: FilePath)
        ensures
            r@ == output_place(self.dir@, self.stamp@, self.n),
    {
        let name = if self.n <= 1 {
            cat(self.stamp.as_str(), ".pdf")
        } else {
            cat(
                cat3(self.stamp.as_str(), "_", u64_text(self.n as u64).as_str()).as_str(),
                ".pdf",
            )
        };
        self.dir.join(name.as_str())
    }

    /// The place is taken: the next one is to be tried.
    pub fn taken(&mut self)
        requires
            old(self).n < u32::MAX,
        ensures
            final(self).n == old(self).n + 1,
            final(self).dir == old(self).dir,
            final(self).stamp == old(self).stamp,
    {
        self.n = self.n + 1;
    }
}

/// The places for a document of a given moment.
pub fn reserve_output_path(dir: &FilePath, stamp: String) -> (r: OutputLadder)
    ensures
        r.dir@ == dir@,
        r.stamp == stamp,
        r.n == 1,
{
    OutputLadder { dir: dir.clone(), stamp, n: 1 }
}

proof fn lemma_first_byte(s: Seq<char>, a: Seq<char>, b: Seq<char>)
    requires
        s.len() > 0,
    ensures
        encode_utf8(s + a).len() > 0,
        encode_utf8(s + b).len() > 0,
        encode_utf8(s + a)[0] == encode_utf8(s + b)[0],
{
    assert((s + a)[0] == s[0] && (s + b)[0] == s[0]);
}

proof fn lemma_not_slash(s: Seq<char>)
    requires
        s.len() > 0,
        s[0] == '.' || s[0] == '_',
    ensures
        encode_utf8(s).len() > 0,
        encode_utf8(s)[0] != path::SLASH,
{
    assert((0x2eu32 & 0x7f) as u8 == 0x2e && (0x5fu32 & 0x7f) as u8 == 0x5f) by (bit_vector);
}

/// Two choices on the ladder are never the same place.
pub proof fn law_places_distinct(dir: Seq<u8>, stamp: Seq<char>, n: u32, m: u32)
    requires
        1 <= n < m,
    ensures
        output_place(dir, stamp, n) != output_place(dir, stamp, m),
{
    reveal_strlit(".pdf");
    reveal_strlit("_");
    let x = if n <= 1 {
        stamp + ".pdf"@
    } else {
        stamp + "_"@ + text::dec(n as nat) + ".pdf"@
    };
    let y = stamp + "_"@ + text::dec(m as nat) + ".pdf"@;
    text::law_number_round_trip(n as nat, n as nat);
    text::law_number_round_trip(m as nat, m as nat);
    if x == y {
        if n <= 1 {
            assert(x.len() == stamp.len() + 4);
            assert(y.len() == stamp.len() + 1 + text::dec(m as nat).len() + 4);
        } else {
            let k = stamp.len() + 1;
            let a = text::dec(n as nat);
            let b = text::dec(m as nat);
            assert(x.len() == stamp.len() + 1 + a.len() + 4);
            assert(y.len() == stamp.len() + 1 + b.len() + 4);
            assert(x.subrange(k as int, (k + a.len()) as int) =~= a);
            assert(y.subrange(k as int, (k + b.len()) as int) =~= b);
        }
        assert(false);
    }
    encode_utf8_decode_utf8(x);
    encode_utf8_decode_utf8(y);
    let bx = encode_utf8(x);
    let by_ = encode_utf8(y);
    assert(bx != by_);
    if stamp.len() > 0 {
        let tx = if n <= 1 {
            ".pdf"@
        } else {
            "_"@ + text::dec(n as nat) + ".pdf"@
        };
        let ty = "_"@ + text::dec(m as nat) + ".pdf"@;
        assert(x =~= stamp + tx);
        assert(y =~= stamp + ty);
        lemma_first_byte(stamp, tx, ty);
    } else {
        lemma_not_slash(x);
        lemma_not_slash(y);
    }
    if bx[0] != path::SLASH {
        let head = if dir.len() == 0 || dir.last() == path::SLASH {
            dir
        } else {
            dir.push(path::SLASH)
        };
        assert(output_place(dir, stamp, n) == head + bx);
        assert(output_place(dir, stamp, m) == head + by_);
        if head + bx == head + by_ {
            assert((head + bx).skip(head.len() as int) =~= bx);
            assert((head + by_).skip(head.len() as int) =~= by_);
        }
    }
}

/// What is known of a path in the file system.
#[derive(Debug, Clone, Copy, PartialEq, Eq, Structural)]
pub struct FileFacts {
    pub is_dir: bool,
    pub is_file: bool,
    pub len: u64,
}

/// What is to be done to claim a place that the user chose.
#[derive(Debug)]
pub enum TargetAction {
    /// Refuse it, for this reason.
    Reject(String),
    /// Use what is there: it is replaced when the document is complete.
    Adopt,
    /// Create an empty file, which must not exist yet.
    Create,
}

/// Claiming a place that the user chose: never a directory, and a file with
/// contents only where that was agreed to.
pub open spec fn target_claim(
    p: Seq<u8>,
    facts: Option<FileFacts>,
    allow_existing: bool,
    a: TargetAction,
) -> bool {
    match facts {
        Some(f) => if f.is_dir {
            a matches TargetAction::Reject(m) && m@ == path::lossy(p) + " is a directory"@
        } else if f.is_file && f.len > 0 && !allow_existing {
            a matches TargetAction::Reject(m) && m@ == path::lossy(p)
                + " already exists (choose a different name or allow overwrite)"@
        } else {
            a is Adopt
        },
        None => a is Create,
    }
}

/// What is to be done to claim a place that the user chose.
pub fn reserve_target(p: &FilePath, facts: Option<FileFacts>, allow_existing: bool) -> (a:
    TargetAction)
    ensures
        target_claim(p@, facts, allow_existing, a),
{
    match facts {
        Some(f) => {
            if f.is_dir {
                return TargetAction::Reject(cat(p.display().as_str(), " is a directory"));
            }
            if f.is_file && f.len > 0 && !allow_existing {
                return TargetAction::Reject(
                    cat(
                        p.display().as_str(),
                        " already exists (choose a different name or allow overwrite)",
                    ),
                );
            }
            TargetAction::Adopt
        },
        None => TargetAction::Create,
    }
}

/// The files to remove when a claimed place is given up: the empty file that
/// claimed it, and what an interrupted build has left beside it.
pub open spec fn released(p: Seq<u8>, facts: Option<FileFacts>) -> Seq<Seq<u8>> {
    if facts is Some && facts->0.is_file && facts->0.len == 0 {
        seq![p, part_of(p)]
    } else {
        seq![part_of(p)]
    }
}

/// The files to remove when a claimed place is given up.
pub fn release_reservation(p: &FilePath, facts: Option<FileFacts>) -> (r: Vec<FilePath>)
    ensures
        path::paths(r@) == released(p@, facts),
{
    let mut r: Vec<FilePath> = Vec::new();
    let empty = match facts {
        Some(f) => f.is_file && f.len == 0,
        None => false,
    };
    if empty {
        r.push(p.clone());
    }
    r.push(p.with_suffix(".part"));
    assert(path::paths(r@) =~= released(p@, facts));
    r
}

/// A document with contents is never removed when its place is given up.
pub proof fn law_release_keeps_document(p: Seq<u8>, facts: Option<FileFacts>)
    requires
        facts is Some && facts->0.len > 0,
    ensures
        !released(p, facts).contains(p),
{
    reveal_strlit(".part");
    encode_utf8_decode_utf8(".part"@);
    if encode_utf8(".part"@).len() == 0 {
        assert(decode_utf8(encode_utf8(".part"@)).len() == 0);
    }
    assert(part_of(p).len() > p.len());
}

/// The size of a file in KB; 0 where it is not known.
pub fn size_kb(len: Option<u64>) -> (r: u64)
    ensures
        r == (match len {
            Some(n) => n / 1024,
            None => 0,
        }),
{
    match len {
        Some(n) => n / 1024,
        None => 0,
    }
}

// ------------------------------------------------------------------- progress

/// What the groups of a regular expression's matches in a text hold, one match
/// after the other, the whole match first in each.
pub uninterp spec fn all_matches(pattern: Seq<char>, s: Seq<char>) -> Seq<Seq<Option<Seq<char>>>>;

/// The groups of several matches, with text as sequences of characters.
pub open spec fn match_groups(all: Seq<Vec<Option<String>>>) -> Seq<Seq<Option<Seq<char>>>> {
    all.map_values(|v: Vec<Option<String>>| groups(Some(v))->0)
}

/// `regex::Regex::captures_iter`: the groups of all matches of a pattern in a
/// text. A pattern that is no regular expression matches nothing.
#[verifier::external_body]
pub(crate) fn all_captures(pattern: &str, s: &str) -> (r: Vec<Vec<Option<String>>>)
    ensures
        match_groups(r@) == all_matches(pattern@, s@),
{
    match regex::Regex::new(pattern) {
        Ok(re) => re
            .captures_iter(s)
            .map(|c| c.iter().map(|g| g.map(|m| m.as_str().to_string())).collect())
            .collect(),
        Err(_) => Vec::new(),
    }
}

/// The last of several matches.
pub open spec fn last_of(all: Seq<Seq<Option<Seq<char>>>>) -> Option<Seq<Option<Seq<char>>>> {
    if all.len() == 0 {
        None
    } else {
        Some(all.last())
    }
}

/// The page that ocrmypdf is at, out of the groups of its last report.
pub open spec fn progress_of(m: Option<Seq<Option<Seq<char>>>>) -> Option<(u32, u32)> {
    if m is Some && m->0.len() > 1 && m->0[1] is Some {
        match text::parse_dec(m->0[1]->0, u32::MAX as nat) {
            Some(n) => Some((n as u32, 0)),
            None => None,
        }
    } else {
        None
    }
}

/// The page that ocrmypdf is at, out of the groups of its last report.
pub fn progress_from(m: Option<Vec<Option<String>>>) -> (r: Option<(u32, u32)>)
    ensures
        r == progress_of(groups(m)),
{
    match m {
        Some(g) => {
            let ghost gs = groups(Some(g))->0;
            if g.len() <= 1 {
                return None;
            }
            assert(gs[1] == crate::config::opt_text(g@[1]));
            match &g[1] {
                Some(s) => match parse_number(s.as_str(), u32::MAX) {
                    Some(n) => Some((n, 0)),
                    None => None,
                },
                None => None,
            }
        },
        None => None,
    }
}

/// The page that ocrmypdf is at, out of the groups of all its reports.
pub fn latest_progress(all: Vec<Vec<Option<String>>>) -> (r: Option<(u32, u32)>)
    ensures
        r == progress_of(last_of(match_groups(all@))),
{
    let ghost before = all@;
    let mut all = all;
    let last = all.pop();
    assert(last is Some ==> match_groups(before).last() == groups(last)->0);
    progress_from(last)
}

/// The page that ocrmypdf is at, out of its error output.
pub fn parse_ocrmypdf_progress(stderr: &str) -> (r: Option<(u32, u32)>)
    ensures
        r == progress_of(last_of(all_matches(r"Processing page (\d+)"@, stderr@))),
{
    latest_progress(all_captures(r"Processing page (\d+)", stderr))
}

} // verus!
