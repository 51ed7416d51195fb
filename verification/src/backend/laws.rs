//! What holds of the programs that are run: which files they are given, in
//! which order, and what their outcome is taken for.

use vstd::prelude::*;
use vstd::utf8::*;

use crate::backend::filedialog;
use crate::backend::filedialog::{DialogEvent, SaveChoiceView, SaveTool};
use crate::backend::pdf;
use crate::backend::pdf::{
    BuildOutcome, BuildPlanView, BuildRun, CleanActionView, CleanEvent, FileFacts, PdfStepView,
    TargetAction,
};
use crate::backend::process;
use crate::backend::process::{Output, RunError, RunErrorView};
use crate::backend::scan;
use crate::backend::scan::DeviceView;
use crate::config::Cleanup;
use crate::path;
use crate::text;

verus! {

// ------------------------------------------------------------------- assembly

/// The images that a run of img2pdf is given, each with the size it is given
/// for all of them: the words between the size and `-o`.
pub open spec fn images_given(args: Seq<Seq<char>>) -> Seq<(Seq<char>, Seq<char>)> {
    Seq::new((args.len() - 5) as nat, |i: int| (args[3 + i], args[2]))
}

/// The images that several runs are given, one run after the other.
pub open spec fn all_images_given(steps: Seq<PdfStepView>) -> Seq<(Seq<char>, Seq<char>)>
    decreases steps.len(),
{
    if steps.len() == 0 {
        Seq::empty()
    } else {
        all_images_given(steps.drop_last()) + images_given(steps.last().args)
    }
}

/// A run of img2pdf that writes to `out`.
pub open spec fn runs_img2pdf(args: Seq<Seq<char>>, out: Seq<char>) -> bool {
    &&& args.len() > 5
    &&& args[0] == "img2pdf"@
    &&& args[1] == "--imgsize"@
    &&& args[args.len() - 2] == "-o"@
    &&& args[args.len() - 1] == out
}

/// What a page is to be in a document: its image, at its own resolution.
pub open spec fn page_wanted(p: (Seq<u8>, u16)) -> (Seq<char>, Seq<char>) {
    (path::lossy(p.0), text::dec(p.1 as nat) + "dpi"@)
}

/// A run of img2pdf puts the images of a group into one document, in their
/// order: word `3 + i` names image `i`.
pub proof fn law_images_keep_order(g: Seq<(Seq<u8>, u16)>, out: Seq<u8>)
    requires
        g.len() > 0,
    ensures
        pdf::img2pdf_args(g, out).len() == g.len() + 5,
        runs_img2pdf(pdf::img2pdf_args(g, out), path::lossy(out)),
        pdf::img2pdf_args(g, out)[2] == text::dec(g[0].1 as nat) + "dpi"@,
        forall|i: int|
            0 <= i < g.len() ==> pdf::img2pdf_args(g, out)[3 + i] == path::lossy(
                (#[trigger] g[i]).0,
            ),
{
}

proof fn lemma_group_images(g: Seq<(Seq<u8>, u16)>, out: Seq<u8>)
    requires
        g.len() > 0,
        forall|j: int| 0 <= j < g.len() ==> (#[trigger] g[j]).1 == g[0].1,
    ensures
        images_given(pdf::img2pdf_args(g, out)) == g.map_values(
            |p: (Seq<u8>, u16)| page_wanted(p),
        ),
{
    law_images_keep_order(g, out);
    let a = images_given(pdf::img2pdf_args(g, out));
    let b = g.map_values(|p: (Seq<u8>, u16)| page_wanted(p));
    assert forall|i: int| 0 <= i < a.len() implies a[i] == b[i] by {
        assert(g[i].1 == g[0].1);
    }
    assert(a =~= b);
}

proof fn lemma_groups_images(
    groups: Seq<Seq<(Seq<u8>, u16)>>,
    steps: Seq<PdfStepView>,
    outs: Seq<Seq<u8>>,
)
    requires
        steps.len() == groups.len() == outs.len(),
        forall|i: int|
            0 <= i < groups.len() ==> (#[trigger] steps[i]).args == pdf::img2pdf_args(
                groups[i],
                outs[i],
            ),
        forall|i: int| 0 <= i < groups.len() ==> (#[trigger] groups[i]).len() > 0,
        forall|i: int, j: int|
            0 <= i < groups.len() && 0 <= j < groups[i].len() ==> #[trigger] groups[i][j].1
                == groups[i][0].1,
    ensures
        all_images_given(steps) == pdf::flattened(groups).map_values(
            |p: (Seq<u8>, u16)| page_wanted(p),
        ),
    decreases groups.len(),
{
    let f = |p: (Seq<u8>, u16)| page_wanted(p);
    if groups.len() == 0 {
        assert(all_images_given(steps) =~= pdf::flattened(groups).map_values(f));
    } else {
        let n = groups.len() - 1;
        let gs = groups.drop_last();
        let ss = steps.drop_last();
        let os = outs.drop_last();
        assert forall|i: int| 0 <= i < gs.len() implies (#[trigger] ss[i]).args
            == pdf::img2pdf_args(gs[i], os[i]) by {
            assert(ss[i] == steps[i]);
        }
        assert forall|i: int| 0 <= i < gs.len() implies (#[trigger] gs[i]).len() > 0 by {
            assert(gs[i] == groups[i]);
        }
        assert forall|i: int, j: int|
            0 <= i < gs.len() && 0 <= j < gs[i].len() implies #[trigger] gs[i][j].1
            == gs[i][0].1 by {
            assert(gs[i] == groups[i]);
            assert(groups[i][j].1 == groups[i][0].1);
        }
        lemma_groups_images(gs, ss, os);
        let g = groups[n];
        assert forall|j: int| 0 <= j < g.len() implies (#[trigger] g[j]).1 == g[0].1 by {
            assert(groups[n][j].1 == groups[n][0].1);
        }
        assert(groups[n].len() > 0);
        lemma_group_images(g, outs[n]);
        assert(steps[n].args == pdf::img2pdf_args(groups[n], outs[n]));
        assert(pdf::flattened(groups).map_values(f) =~= pdf::flattened(gs).map_values(f)
            + g.map_values(f));
    }
}

/// The pages of a document are the pages of the plan, in their order and each
/// at its own resolution: that is what the runs of img2pdf are given, one run
/// after the other. With one run the result is the raw document itself; with
/// several, pdfunite puts their results together, in the order of the runs.
pub proof fn law_document_has_pages_in_order(
    pages: Seq<(Seq<u8>, u16)>,
    tmp: Seq<u8>,
    pdfunite: bool,
)
    requires
        pages.len() > 0,
    ensures
        pdf::assembly(pages, tmp, pdfunite) matches Ok(steps) ==> {
            let raw = path::lossy(path::join_path(tmp, encode_utf8("raw.pdf"@)));
            let n = if steps.len() == 1 {
                1
            } else {
                steps.len() - 1
            };
            let unite = steps[steps.len() - 1].args;
            &&& steps.len() > 0
            &&& steps.len() != 2
            &&& all_images_given(steps.take(n)) == pages.map_values(
                |p: (Seq<u8>, u16)| page_wanted(p),
            )
            &&& forall|k: int|
                0 <= k < n ==> runs_img2pdf(
                    (#[trigger] steps[k]).args,
                    steps[k].args[steps[k].args.len() - 1],
                )
            &&& steps.len() == 1 ==> steps[0].args[steps[0].args.len() - 1] == raw
            &&& steps.len() > 1 ==> {
                &&& unite.len() == n + 2
                &&& unite[0] == "pdfunite"@
                &&& unite[n + 1] == raw
                &&& forall|k: int|
                    0 <= k < n ==> unite[1 + k] == (#[trigger] steps[k]).args[steps[k].args.len()
                        - 1]
            }
        },
{
    let groups = pdf::by_dpi(pages);
    let f = |p: (Seq<u8>, u16)| page_wanted(p);
    pdf::law_groups(pages);
    if groups.len() == 0 {
        assert(pdf::flattened(groups) =~= Seq::empty());
    }
    if let Ok(steps) = pdf::assembly(pages, tmp, pdfunite) {
        if groups.len() == 1 {
            let outs = seq![pdf::raw_pdf(tmp)];
            assert(steps.take(1) =~= steps);
            assert(groups[0].len() > 0);
            lemma_groups_images(groups, steps, outs);
            law_images_keep_order(groups[0], outs[0]);
        } else {
            let n = groups.len() as int;
            let outs = Seq::new(n as nat, |i: int| pdf::part_pdf(tmp, i as nat));
            let runs = steps.take(n);
            assert forall|i: int| 0 <= i < n implies (#[trigger] runs[i]).args
                == pdf::img2pdf_args(groups[i], outs[i]) by {}
            lemma_groups_images(groups, runs, outs);
            assert forall|k: int| 0 <= k < n implies runs_img2pdf(
                (#[trigger] steps[k]).args,
                steps[k].args[steps[k].args.len() - 1],
            ) && steps[n].args[1 + k] == steps[k].args[steps[k].args.len() - 1] by {
                assert(groups[k].len() > 0);
                law_images_keep_order(groups[k], outs[k]);
            }
        }
    }
}

/// Images at one resolution need no other program; at several resolutions they
/// can be put together exactly where pdfunite is installed.
pub proof fn law_mixed_needs_pdfunite(pages: Seq<(Seq<u8>, u16)>, tmp: Seq<u8>)
    requires
        pages.len() > 0,
    ensures
        pdf::assembly(pages, tmp, true) is Ok,
        pdf::assembly(pages, tmp, false) is Ok <==> forall|i: int|
            0 <= i < pages.len() ==> (#[trigger] pages[i]).1 == pages[0].1,
{
    let groups = pdf::by_dpi(pages);
    pdf::law_groups(pages);
    if groups.len() == 0 {
        assert(pdf::flattened(groups) =~= Seq::empty());
    }
    if groups.len() == 1 {
        assert(groups.drop_last() =~= Seq::empty());
        assert(pdf::flattened(groups.drop_last()) =~= Seq::empty());
        assert(pages =~= groups[0]);
        assert forall|i: int| 0 <= i < pages.len() implies (#[trigger] pages[i]).1
            == pages[0].1 by {
            assert(groups[0][i].1 == groups[0][0].1);
        }
    } else if forall|i: int| 0 <= i < pages.len() ==> (#[trigger] pages[i]).1 == pages[0].1 {
        pdf::law_single_dpi_single_call(pages);
    }
}

/// The raw document is what ocrmypdf reads, and what it writes gets the name
/// of the document only afterwards: it writes beside it, under a name that
/// ends in `.part`. Text is made in the languages of the plan, pages are
/// straightened, and the result is made for archiving.
pub proof fn law_text_is_added_to_raw(plan: BuildPlanView, tmp: Seq<u8>, unpaper: bool)
    ensures
        ({
            let a = pdf::ocr_step(plan, tmp, unpaper).args;
            &&& a.len() >= 10
            &&& a[0] == "ocrmypdf"@
            &&& a[1] == "--language"@ && a[2] == plan.langs
            &&& a[3] == "--output-type"@ && a[4] == "pdfa"@
            &&& a[5] == "--optimize"@ && a[6] == "0"@
            &&& a[7] == "--deskew"@
            &&& a[a.len() - 2] == path::lossy(path::join_path(tmp, encode_utf8("raw.pdf"@)))
            &&& a[a.len() - 1] == path::lossy(plan.out_pdf + encode_utf8(".part"@))
        }),
{
}

/// Pages are turned upright automatically exactly where no page was turned by
/// hand, and cleaned exactly where some page needs it and unpaper is there:
/// each leaves its options behind the first eight words and before the two
/// files, and nothing else does.
pub proof fn law_ocr_options(plan: BuildPlanView, tmp: Seq<u8>, unpaper: bool)
    ensures
        ({
            let a = pdf::ocr_step(plan, tmp, unpaper).args;
            let options = a.subrange(8, a.len() - 2);
            let turning = options.len() >= 3 && options[0] == "--rotate-pages"@ && options[1]
                == "--rotate-pages-threshold"@ && options[2] == "10"@;
            let cleaning = options.len() >= 1 && options[options.len() - 1] == "--clean"@;
            &&& turning <==> !plan.manually_rotated
            &&& cleaning <==> unpaper && plan.any_page_needing_cleanup
            &&& plan.manually_rotated ==> !options.contains("--rotate-pages"@)
            &&& options.len() == (if turning {
                3int
            } else {
                0
            }) + (if cleaning {
                1int
            } else {
                0
            })
        }),
{
    reveal_strlit("--clean");
    reveal_strlit("10");
    reveal_strlit("--rotate-pages");
    let a = pdf::ocr_step(plan, tmp, unpaper).args;
    let options = a.subrange(8, a.len() - 2);
    let rot = if plan.manually_rotated {
        Seq::<Seq<char>>::empty()
    } else {
        seq!["--rotate-pages"@, "--rotate-pages-threshold"@, "10"@]
    };
    let cl = if unpaper && plan.any_page_needing_cleanup {
        seq!["--clean"@]
    } else {
        Seq::<Seq<char>>::empty()
    };
    assert(options =~= rot + cl);
    assert("10"@.len() == 2 && "--clean"@.len() == 7 && "--rotate-pages"@.len() == 14);
}

/// The failure of a run that puts images together ends the build, whatever the
/// failure is; its success leads on.
pub proof fn law_assembly_failure_is_fatal(
    r: BuildRun,
    result: Result<Output, RunError>,
    logfile: Seq<u8>,
)
    requires
        r.done < r.steps@.len(),
    ensures
        match result {
            Ok(out) => if out.success {
                pdf::build_next(r, result, logfile) matches Ok(None)
            } else {
                pdf::build_next(r, result, logfile) is Err
            },
            Err(_) => pdf::build_next(r, result, logfile) is Err,
        },
{
}

/// Once the images have been put together, the build ends with a document: as
/// ocrmypdf wrote it where that succeeded, else the raw one.
pub proof fn law_build_delivers(r: BuildRun, result: Result<Output, RunError>, logfile: Seq<u8>)
    requires
        r.done >= r.steps@.len(),
    ensures
        pdf::build_next(r, result, logfile) matches Ok(Some(d)) && match result {
            Ok(out) => if out.success {
                d.0 is None && d.1 == BuildOutcome::Searchable
            } else {
                d.0 == Some(r.raw@) && d.1 == BuildOutcome::WithoutTextLayer
            },
            Err(_) => d.0 == Some(r.raw@) && d.1 == BuildOutcome::WithoutTextLayer,
        },
{
}

// ------------------------------------------------------------------- cleaning

/// unpaper is given the image of the page and then its own file, and before
/// them the words of the configuration, in their order and nothing behind
/// them.
pub proof fn law_unpaper_files_come_last(
    page: Seq<u8>,
    cleanup: Cleanup,
    extra: Seq<Seq<char>>,
    mode: Seq<char>,
    unpaper: bool,
)
    ensures
        pdf::clean_start(page, cleanup, extra, mode, unpaper) matches CleanActionView::Run(a) ==> {
            let n = a.len();
            &&& n >= 7 + extra.len()
            &&& a[0] == "unpaper"@
            &&& a[1] == "--layout"@ && a[2] == "single"@
            &&& a[n - 2] == path::lossy(page)
            &&& a[n - 1] == path::lossy(path::with_ext(page, encode_utf8("png.unpaper.tmp"@)))
            &&& a.subrange(n - 2 - extra.len(), n - 2) == extra
        },
{
    if let CleanActionView::Run(a) = pdf::clean_start(page, cleanup, extra, mode, unpaper) {
        assert(a.subrange(a.len() - 2 - extra.len(), a.len() - 2) =~= extra);
    }
}

/// The careful strategy switches off every filter of unpaper that alters
/// content; the other one switches off none.
pub proof fn law_careful_cleaning_alters_nothing(extra: Seq<Seq<char>>)
    ensures
        ({
            let a = pdf::unpaper_options(Cleanup::Conservative, extra);
            &&& a.contains("--no-mask-scan"@)
            &&& a.contains("--no-border-scan"@)
            &&& a.contains("--no-border-align"@)
            &&& a.contains("--no-blackfilter"@)
            &&& a.contains("--no-grayfilter"@)
            &&& a.contains("--no-blurfilter"@)
            &&& a.contains("--no-noisefilter"@)
            &&& a.contains("--no-deskew"@)
        }),
        pdf::unpaper_options(Cleanup::Legacy, extra).len() == 4 + extra.len(),
{
    let a = pdf::unpaper_options(Cleanup::Conservative, extra);
    assert(a[4] == "--no-mask-scan"@);
    assert(a[5] == "--no-border-scan"@);
    assert(a[6] == "--no-border-align"@);
    assert(a[7] == "--no-blackfilter"@);
    assert(a[8] == "--no-grayfilter"@);
    assert(a[9] == "--no-blurfilter"@);
    assert(a[10] == "--no-noisefilter"@);
    assert(a[11] == "--no-deskew"@);
}

/// A page is cleaned exactly where that is wanted, unpaper is there and the
/// page is not in color; otherwise it keeps its image, and no file goes.
pub proof fn law_when_pages_are_cleaned(
    page: Seq<u8>,
    cleanup: Cleanup,
    extra: Seq<Seq<char>>,
    mode: Seq<char>,
    unpaper: bool,
)
    ensures
        match pdf::clean_start(page, cleanup, extra, mode, unpaper) {
            CleanActionView::Run(_) => cleanup != Cleanup::Off && unpaper && mode != "color"@,
            CleanActionView::Done { remove, image, deskewed } => {
                &&& cleanup == Cleanup::Off || !unpaper || mode == "color"@
                &&& remove is None && image == page && !deskewed
            },
            _ => false,
        },
{
}

/// A cleaning that goes well ends with the cleaned image, which takes the
/// place of the captured one: unpaper's file is made a PNG, gets its name, and
/// only then the captured image goes.
pub proof fn law_cleaning_succeeds(
    page: Seq<u8>,
    tmp: Seq<u8>,
    cleaned: Seq<u8>,
    cleanup: Cleanup,
)
    ensures
        pdf::clean_next(
            page,
            tmp,
            cleaned,
            cleanup,
            CleanEvent::Ran { success: true, wrote: true },
        ) matches CleanActionView::Reencode(f) && f == tmp,
        pdf::clean_next(page, tmp, cleaned, cleanup, CleanEvent::Reencoded(true)) matches
            CleanActionView::Rename { from, to } && from == tmp && to == cleaned,
        pdf::clean_next(page, tmp, cleaned, cleanup, CleanEvent::Renamed(true)) matches
            CleanActionView::Done { remove, image, deskewed } && remove == Some(page) && image
            == cleaned && deskewed == (cleanup == Cleanup::Legacy),
{
}

// -------------------------------------------------------------- output places

/// A document of a moment is named after it, in the output directory, and ends
/// in `.pdf`; a second one of the same moment has the number between.
pub proof fn law_places_named_after_stamp(dir: Seq<u8>, stamp: Seq<char>, n: u32)
    requires
        pdf::stamp_like(stamp),
        dir.len() > 0,
        dir.last() != path::SLASH,
        n >= 1,
    ensures
        ({
            let name = dir.push(path::SLASH) + encode_utf8(
                stamp + (if n == 1 {
                    ""@
                } else {
                    "_"@ + text::dec(n as nat)
                }) + ".pdf"@,
            );
            pdf::output_place(dir, stamp, n) == name
        }),
{
    reveal_strlit("");
    let name = if n <= 1 {
        stamp + ".pdf"@
    } else {
        stamp + "_"@ + text::dec(n as nat) + ".pdf"@
    };
    assert(name =~= stamp + (if n == 1 {
        ""@
    } else {
        "_"@ + text::dec(n as nat)
    }) + ".pdf"@);
    assert(name[0] == stamp[0]);
    lemma_no_leading_slash(name);
}

proof fn lemma_no_leading_slash(s: Seq<char>)
    requires
        s.len() > 0,
        '0' <= s[0] <= '9' || s[0] == '-' || s[0] == '_' || s[0] == '+',
    ensures
        encode_utf8(s).len() > 0,
        encode_utf8(s)[0] != path::SLASH,
{
    let c = s[0] as u32;
    assert(c <= 0x7f && c != 0x2f ==> (c & 0x7f) as u8 != 0x2f) by (bit_vector);
}

/// A file with contents is taken only where that was agreed to, a directory
/// never; everything else can be claimed, and a file is created exactly where
/// there is nothing.
pub proof fn law_claims(p: Seq<u8>, facts: Option<FileFacts>, allow: bool, a: TargetAction)
    requires
        pdf::target_claim(p, facts, allow, a),
    ensures
        a is Reject <==> facts is Some && (facts->0.is_dir || (facts->0.is_file && facts->0.len > 0
            && !allow)),
        a is Create <==> facts is None,
{
}

/// What is removed when a claimed place is given up: the file itself exactly
/// where it is an empty file, what was left beside it under `.part`, and
/// nothing else.
pub proof fn law_what_is_released(p: Seq<u8>, facts: Option<FileFacts>)
    ensures
        ({
            let gone = pdf::released(p, facts);
            &&& gone.contains(p + encode_utf8(".part"@))
            &&& (facts is Some && facts->0.is_file && facts->0.len == 0) ==> gone.contains(p)
            &&& forall|f: Seq<u8>|
                gone.contains(f) ==> f == p + encode_utf8(".part"@) || (f == p && facts is Some
                    && facts->0.is_file && facts->0.len == 0)
        }),
{
    let gone = pdf::released(p, facts);
    assert(gone[gone.len() - 1] == p + encode_utf8(".part"@));
    if facts is Some && facts->0.is_file && facts->0.len == 0 {
        assert(gone[0] == p);
    }
}

/// The page that is reported is the number in the last report.
pub proof fn law_progress_is_last_number(
    before: Seq<Seq<Option<Seq<char>>>>,
    whole: Option<Seq<char>>,
    n: u32,
)
    ensures
        pdf::progress_of(
            pdf::last_of(before.push(seq![whole, Some(text::dec(n as nat))])),
        ) == Some((n, 0u32)),
{
    let g = seq![whole, Some(text::dec(n as nat))];
    text::law_number_round_trip(n as nat, u32::MAX as nat);
    assert(before.push(g).last() == g);
}

// ------------------------------------------------------------------- scanning

/// Every attempt at a capture is one at the chosen scanner, and asks for a
/// PNG; the first asks for the chosen resolution and the chosen mode.
pub proof fn law_attempts_use_choices(device: Seq<char>, dpi: u16, mode: Seq<char>, k: int)
    requires
        0 <= k < 3,
    ensures
        ({
            let a = scan::attempts(device, dpi, mode);
            &&& a.len() == 3
            &&& a[k][0] == "scanimage"@
            &&& a[k][1] == "-d"@ && a[k][2] == device
            &&& a[k][3] == "--format=png"@
            &&& a[0][4] == "--resolution="@ + text::dec(dpi as nat)
            &&& a[1][4] == a[0][4]
            &&& mode == "gray"@ ==> a[0][5] == "--mode="@ + "Gray"@
            &&& mode == "color"@ ==> a[0][5] == "--mode="@ + "Color"@
            &&& mode == "lineart"@ ==> a[0][5] == "--mode="@ + "Lineart"@
        }),
{
    reveal_strlit("gray");
    reveal_strlit("color");
    reveal_strlit("lineart");
    assert("gray"@.len() == 4 && "color"@.len() == 5 && "lineart"@.len() == 7);
}

/// A scanner is known by the name that the listing gives it.
pub proof fn law_device_has_listed_name(g: Seq<Option<Seq<char>>>, name: Seq<char>)
    requires
        g.len() > 1,
        g[1] == Some(name),
    ensures
        scan::device_of(Some(g)) matches Some(d) && d.name == name,
{
}

/// The scanners of a listing come in the order of its lines, and one listing
/// behind another names the scanners of both.
pub proof fn law_devices_in_order(a: Seq<Seq<char>>, b: Seq<Seq<char>>)
    ensures
        scan::devices_in(a + b) == scan::devices_in(a) + scan::devices_in(b),
    decreases b.len(),
{
    if b.len() == 0 {
        assert(a + b =~= a);
        assert(scan::devices_in(b) =~= Seq::empty());
        assert(scan::devices_in(a) + scan::devices_in(b) =~= scan::devices_in(a));
    } else {
        law_devices_in_order(a, b.drop_last());
        assert((a + b).drop_last() =~= a + b.drop_last());
        assert((a + b).last() == b.last());
        assert(scan::devices_in(a + b) =~= scan::devices_in(a) + scan::devices_in(b));
    }
}

/// A listing counts unless the program failed and named no scanner.
pub proof fn law_listing_counts(r: Result<Output, RunError>)
    ensures
        match r {
            Err(e) => scan::devices_listed(r) == Err::<Seq<DeviceView>, RunErrorView>(e@),
            Ok(out) => match scan::devices_listed(r) {
                Ok(ds) => ds == scan::devices_in(text::lines(path::lossy(out.stdout@))) && (
                out.success || ds.len() > 0),
                Err(_) => !out.success && scan::devices_in(
                    text::lines(path::lossy(out.stdout@)),
                ).len() == 0,
            },
        },
{
}

/// Text is made of the given image, in the given languages, and written where
/// it is looked for.
pub proof fn law_text_of_image(image: Seq<u8>, base: Seq<u8>, langs: Seq<char>)
    ensures
        ({
            let a = scan::text_args(image, base, langs);
            &&& a.len() == 6
            &&& a[0] == "tesseract"@
            &&& a[1] == path::lossy(image)
            &&& a[2] == path::lossy(base)
            &&& a[3] == "-l"@ && a[4] == langs
            &&& a[5] == "txt"@
        }),
{
}

/// Text can be read exactly where the program succeeded and was not called
/// off; work that was called off says just `cancelled`.
pub proof fn law_when_text_is_read(result: Result<Output, RunError>, cancelled: bool)
    ensures
        scan::text_failure(result, cancelled) is None <==> result is Ok && result->Ok_0.success
            && !cancelled,
        result matches Err(RunError::Cancelled) ==> scan::text_failure(result, cancelled) == Some(
            "cancelled"@,
        ),
        result matches Ok(out) && out.success && cancelled ==> scan::text_failure(result, cancelled)
            == Some("cancelled"@),
{
}

/// The languages of a list are its lines, in their order, without the blanks
/// around them.
pub proof fn law_languages_in_order(a: Seq<Seq<char>>, line: Seq<char>)
    requires
        text::trim(line).len() > 0,
        !text::starts_with(text::lower(text::trim(line)), "list of available languages"@),
    ensures
        scan::langs_in(a.push(line)) == scan::langs_in(a).push(text::trim(line)),
{
    assert(a.push(line).drop_last() =~= a);
}

// ------------------------------------------------------------------ processes

/// The end of a text is its last lines: those before them are left out, and
/// those are kept whole and in order.
pub proof fn law_last_lines(s: Seq<char>, before: Seq<Seq<char>>, kept: Seq<Seq<char>>)
    requires
        text::lines(s) == before + kept,
        kept.len() > 0,
    ensures
        process::last_lines(s, kept.len()) == text::join(kept, "\n"@),
{
    assert((before + kept).skip(before.len() as int) =~= kept);
}

/// The end of an output is what stands last in it, all of it where it is
/// short.
pub proof fn law_last_bytes(a: Seq<u8>, b: Seq<u8>, n: nat)
    ensures
        b.len() == n ==> process::last_bytes(a + b, n) == b,
        a.len() <= n ==> process::last_bytes(a, n) == a,
{
    if b.len() == n {
        assert(process::last_bytes(a + b, n) =~= b);
    }
    if a.len() <= n {
        assert(process::last_bytes(a, n) =~= a);
    }
}

/// What is reported of a failed step begins with what the step was for and
/// ends with the place of the log.
pub proof fn law_failure_names_step_and_log(
    context: Seq<char>,
    cmd: Seq<char>,
    e: RunErrorView,
    stderr: Seq<u8>,
    logfile: Seq<u8>,
)
    ensures
        context.is_prefix_of(process::step_failure(context, stderr, logfile)),
        context.is_prefix_of(process::step_error(context, cmd, e, logfile)),
        ("\nFull log: "@ + path::lossy(logfile)).is_suffix_of(
            process::step_failure(context, stderr, logfile),
        ),
        ("\nFull log: "@ + path::lossy(logfile)).is_suffix_of(
            process::step_error(context, cmd, e, logfile),
        ),
{
    let note = "\nFull log: "@ + path::lossy(logfile);
    let a = process::step_failure(context, stderr, logfile);
    let b = process::step_error(context, cmd, e, logfile);
    assert(a.take(context.len() as int) =~= context);
    assert(b.take(context.len() as int) =~= context);
    assert(a.skip(a.len() - note.len()) =~= note);
    assert(b.skip(b.len() - note.len()) =~= note);
}

// --------------------------------------------------------------------- dialog

/// A dialog that ends well names the place, and all that it wrote before the
/// white space at its end is the name.
pub proof fn law_chosen_is_written(p: Seq<u8>, blanks: Seq<u8>)
    requires
        p.len() > 0,
        !(p.last() == 0x20 || p.last() == 0x09 || p.last() == 0x0a || p.last() == 0x0c || p.last()
            == 0x0d),
        forall|i: int|
            0 <= i < blanks.len() ==> {
                let b = #[trigger] blanks[i];
                b == 0x20 || b == 0x09 || b == 0x0a || b == 0x0c || b == 0x0d
            },
    ensures
        filedialog::trimmed(p + blanks) == p,
    decreases blanks.len(),
{
    if blanks.len() == 0 {
        assert(p + blanks =~= p);
    } else {
        let rest = blanks.drop_last();
        assert forall|i: int| 0 <= i < rest.len() implies {
            let b = #[trigger] rest[i];
            b == 0x20 || b == 0x09 || b == 0x0a || b == 0x0c || b == 0x0d
        } by {
            assert(rest[i] == blanks[i]);
        }
        law_chosen_is_written(p, rest);
        assert((p + blanks).drop_last() =~= p + rest);
        assert((p + blanks).last() == blanks[blanks.len() - 1]);
    }
}

/// What a dialog comes to: a place exactly where it ended well and wrote one;
/// it was dismissed where it exited otherwise with a code; and it could not run
/// where it was never started, was killed, or has no display.
pub proof fn law_dialog_outcomes(e: DialogEvent)
    ensures
        match filedialog::dialog_choice(e) {
            SaveChoiceView::Chosen(p) => e matches DialogEvent::Exited { status, stdout, .. }
                && status.success && p == filedialog::trimmed(stdout@) && p.len() > 0,
            SaveChoiceView::Cancelled => e matches DialogEvent::Exited { status, stdout, stderr }
                && if status.success {
                filedialog::trimmed(stdout@).len() == 0
            } else {
                status.code is Some && !text::contains_text(
                    text::lower(path::lossy(stderr@)),
                    "cannot open display"@,
                )
            },
            SaveChoiceView::Unavailable => e is NoTool || e is SpawnFailed || (
            e matches DialogEvent::Exited { status, .. } && !status.success),
        },
        e matches DialogEvent::Exited { status, .. } && !status.success && status.code is None
            ==> filedialog::dialog_choice(e) is Unavailable,
{
}

/// Every tool opens at the proposed place with the given title.
pub proof fn law_dialog_opens_at_place(
    tool: SaveTool,
    dir: Seq<u8>,
    filename: Seq<char>,
    title: Seq<char>,
)
    requires
        title.len() > 0,
    ensures
        ({
            let place = path::lossy(path::join_path(dir, encode_utf8(filename)));
            let a = tool.arguments(dir, filename, title);
            match tool {
                SaveTool::Kdialog => a[0] == "--getsavefilename"@ && a[1] == place && a[3]
                    == "--title"@ && a[4] == title,
                _ => a[0] == "--file-selection"@ && a[1] == "--save"@ && a[2]
                    == "--confirm-overwrite"@ && a[3] == "--filename="@ + place && a[4]
                    == "--title="@ + title,
            }
        }),
{
}

} // verus!
