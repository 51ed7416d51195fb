//! What each command to a session, and the end of each of its jobs, is for:
//! what becomes of the pages, and which work is started on what.

use vstd::prelude::*;
use vstd::utf8::*;

use crate::backend::laws as backend_laws;
use crate::backend::pdf;
use crate::backend::pdf::BuildOutcome;
use crate::config::PreviewOcr;
use crate::path;
use crate::session::jobs;
use crate::session::jobs::{Edit, EditStepModel};
use crate::session::laws;
use crate::session::model;
use crate::session::model::{
    CmdModel, EffectModel, JobDoneModel, JobErrorModel, JobModel, PageModel, SessionModel,
};
use crate::session::{Busy, PageStatus, Stage};
use crate::text;

verus! {

/// Just this job is started.
pub open spec fn starts(fx: Seq<EffectModel>, job: JobModel) -> bool {
    &&& fx.contains(EffectModel::Spawn(job))
    &&& forall|k: int|
        0 <= k < fx.len() ==> ((#[trigger] fx[k]) matches EffectModel::Spawn(j) ==> j == job)
}

/// No job is started.
pub open spec fn starts_nothing(fx: Seq<EffectModel>) -> bool {
    forall|k: int| 0 <= k < fx.len() ==> !((#[trigger] fx[k]) is Spawn)
}

/// All pages but the one at place `i` are as they were.
pub open spec fn others_kept(a: Seq<PageModel>, b: Seq<PageModel>, i: int) -> bool {
    &&& a.len() == b.len()
    &&& forall|j: int| 0 <= j < a.len() && j != i ==> #[trigger] a[j] == b[j]
}

// ------------------------------------------------------------------- refusals

/// A new page can be captured exactly while nothing is captured or built, the
/// document has not been built, and no page waits for its deletion.
pub proof fn law_when_capturing(s: SessionModel, dpi: u16, mode: Seq<char>)
    ensures
        model::refusal(s, CmdModel::ScanNext { dpi, mode }) is None <==> {
            &&& s.busy == Busy::Idle
            &&& !s.finished
            &&& forall|i: int|
                0 <= i < s.pages.len() ==> (#[trigger] s.pages[i]).status
                    != PageStatus::DeletePending
        },
{
    if forall|i: int|
        0 <= i < s.pages.len() ==> (#[trigger] s.pages[i]).status != PageStatus::DeletePending {
        assert(!model::any_delete_pending(s.pages));
    } else {
        let i = choose|i: int|
            0 <= i < s.pages.len() && (#[trigger] s.pages[i]).status == PageStatus::DeletePending;
        assert(model::delete_pending(s.pages[i]));
    }
}

/// A page can be captured again exactly while the scanner is free, nothing is
/// built and the document has not been built, and only where it is ready or
/// has failed and no job works on it.
pub proof fn law_when_recapturing(s: SessionModel, id: u32, dpi: u16, mode: Seq<char>)
    ensures
        model::refusal(s, CmdModel::Rescan { id, dpi, mode }) is None <==> {
            &&& s.busy == Busy::Idle
            &&& !s.finished
            &&& !s.jobs.contains(id)
            &&& model::find(s.pages, id) matches Some(i) && (s.pages[i].status
                == PageStatus::Ready || s.pages[i].status == PageStatus::Failed)
        },
{
}

/// An image can be changed in place exactly where the page is ready, no job
/// works on it, and the document is neither being built nor built; a page can
/// not be cut down to nothing.
pub proof fn law_when_editing(s: SessionModel, id: u32, cw: bool, x: u32, y: u32, w: u32, h: u32)
    ensures
        model::refusal(s, CmdModel::Rotate(id, cw)) is None <==> {
            &&& s.busy != Busy::Finishing
            &&& !s.finished
            &&& !s.jobs.contains(id)
            &&& model::find(s.pages, id) matches Some(i) && s.pages[i].status == PageStatus::Ready
        },
        model::refusal(s, CmdModel::Crop { id, x, y, w, h }) is None <==> w > 0 && h > 0
            && model::refusal(s, CmdModel::Rotate(id, cw)) is None,
{
}

/// Pages can be deleted and moved except while the document is built; a new
/// session can begin only when nothing goes on; a capture can be called off
/// only while there is one.
pub proof fn law_when_arranging(s: SessionModel, id: u32, from: int, to: int)
    ensures
        model::refusal(s, CmdModel::Delete(id)) is None <==> s.busy != Busy::Finishing,
        model::refusal(s, CmdModel::Move { from, to }) is None <==> s.busy != Busy::Finishing,
        model::refusal(s, CmdModel::NewSession) is None <==> s.busy == Busy::Idle && s.jobs.len()
            == 0,
        model::refusal(s, CmdModel::CancelScan) is None <==> s.busy == Busy::Scanning,
{
}

/// The document can be built exactly where there are pages, nothing is
/// captured or built, it has not been built, and every page has its image and
/// is not to go.
pub proof fn law_when_building(s: SessionModel)
    ensures
        model::refusal(s, CmdModel::Finish) is None <==> {
            &&& s.pages.len() > 0
            &&& s.busy == Busy::Idle
            &&& !s.finished
            &&& forall|i: int|
                0 <= i < s.pages.len() ==> {
                    let p = #[trigger] s.pages[i];
                    p.status == PageStatus::Ready || p.status == PageStatus::Scanning || (p.status
                        == PageStatus::Processing && p.stage == Some(Stage::Ocr))
                }
        },
{
    let bad = |p: PageModel| model::failed(p);
    let open_ = |p: PageModel| model::image_unsettled(p);
    laws::lemma_first_where(s.pages, bad);
    laws::lemma_first_where(s.pages, open_);
    if model::finish_refusal(s) is None {
        assert forall|i: int| 0 <= i < s.pages.len() implies {
            let p = #[trigger] s.pages[i];
            p.status == PageStatus::Ready || p.status == PageStatus::Scanning || (p.status
                == PageStatus::Processing && p.stage == Some(Stage::Ocr))
        } by {
            assert(!bad(s.pages[i]) && !open_(s.pages[i]));
            assert(!model::delete_pending(s.pages[i]));
        }
    }
}

// -------------------------------------------------------------------- capture

/// A capture adds a page at the end of the list, with the next number and with
/// the chosen settings, and is made at the chosen scanner with just these; no
/// other page changes.
pub proof fn law_capture_begins(s: SessionModel, dpi: u16, mode: Seq<char>, now: u64)
    requires
        s.next_id < u32::MAX,
        model::refusal(s, CmdModel::ScanNext { dpi, mode }) is None,
    ensures
        ({
            let (t, fx) = model::command(s, CmdModel::ScanNext { dpi, mode }, now);
            let p = t.pages[s.pages.len() as int];
            &&& t.pages.len() == s.pages.len() + 1
            &&& t.pages.take(s.pages.len() as int) == s.pages
            &&& p.id == s.next_id && p.dpi == dpi && p.mode == mode
            &&& p.status == PageStatus::Scanning && p.image is None && p.text is None
            &&& !p.rotated && !p.unpaper_deskewed
            &&& t.next_id == s.next_id + 1
            &&& t.busy == Busy::Scanning && t.scan_page == Some(p.id)
            &&& starts(
                fx,
                JobModel::Scan {
                    id: p.id,
                    is_rescan: false,
                    device: s.device,
                    dpi,
                    mode,
                    path: model::page_path(s.dir, p.id),
                },
            )
        }),
{
    let (t, fx) = model::command(s, CmdModel::ScanNext { dpi, mode }, now);
    assert(t.pages.take(s.pages.len() as int) =~= s.pages);
    assert(fx[2] is Spawn);
}

/// Capturing a page again is done at the chosen scanner with the settings of
/// now, and into another file than that of the first capture; the page keeps
/// what it has, and no other page changes.
pub proof fn law_recapture_begins(s: SessionModel, id: u32, dpi: u16, mode: Seq<char>, now: u64)
    requires
        model::refusal(s, CmdModel::Rescan { id, dpi, mode }) is None,
    ensures
        ({
            let i = model::find(s.pages, id)->0;
            let (t, fx) = model::command(s, CmdModel::Rescan { id, dpi, mode }, now);
            let p = t.pages[i];
            &&& 0 <= i < s.pages.len()
            &&& others_kept(t.pages, s.pages, i)
            &&& p.id == id && p.status == PageStatus::Scanning
            &&& p.image == s.pages[i].image && p.dpi == s.pages[i].dpi && p.mode
                == s.pages[i].mode && p.text == s.pages[i].text && p.rotated == s.pages[i].rotated
            &&& t.next_id == s.next_id
            &&& t.busy == Busy::Scanning && t.scan_page == Some(id)
            &&& starts(
                fx,
                JobModel::Scan {
                    id,
                    is_rescan: true,
                    device: s.device,
                    dpi,
                    mode,
                    path: model::rescan_path(s.dir, id),
                },
            )
        }),
{
    laws::lemma_find(s.pages, id);
    let (t, fx) = model::command(s, CmdModel::Rescan { id, dpi, mode }, now);
    assert(fx[2] is Spawn);
}

/// The file of a new capture of a page is never the file of a first capture,
/// so that the old image is not written over.
pub proof fn law_recapture_spares_file(dir: Seq<u8>, a: u32, b: u32)
    ensures
        model::rescan_path(dir, a) != model::page_path(dir, b),
{
    reveal_strlit("page_");
    reveal_strlit(".png");
    reveal_strlit(".rescan.png");
    let x = "page_"@ + model::page_number(a) + ".rescan.png"@;
    let y = "page_"@ + model::page_number(b) + ".png"@;
    lemma_number_digits(b);
    let d = model::page_number(b);
    assert(x[x.len() - 5] == 'n');
    assert(y[y.len() - 5] == d[d.len() - 1]);
    assert(x != y);
    lemma_join_differs(dir, x, y);
}

proof fn lemma_number_digits(id: u32)
    ensures
        model::page_number(id).len() > 0,
        forall|i: int|
            0 <= i < model::page_number(id).len() ==> '0' <= #[trigger] model::page_number(id)[i]
                <= '9',
{
    text::lemma_dec_no_sign(id as nat);
    let d = text::dec(id as nat);
    let n = model::page_number(id);
    assert forall|i: int| 0 <= i < n.len() implies '0' <= #[trigger] n[i] <= '9' by {
        if i >= n.len() - d.len() {
            assert(n[i] == d[i - (n.len() - d.len())]);
        }
    }
}

proof fn lemma_leading_zeros(k: nat, s: Seq<char>)
    ensures
        text::dec_value(Seq::new(k, |i: int| '0') + s) == text::dec_value(s),
    decreases k + s.len(),
{
    let z = Seq::new(k, |i: int| '0');
    let all = z + s;
    if s.len() > 0 {
        lemma_leading_zeros(k, s.drop_last());
        assert(all.drop_last() =~= z + s.drop_last());
    } else if k > 0 {
        lemma_leading_zeros((k - 1) as nat, s);
        assert(all.drop_last() =~= Seq::new((k - 1) as nat, |i: int| '0') + s);
    } else {
        assert(all =~= s);
    }
}

proof fn lemma_number_value(id: u32)
    ensures
        text::dec_value(model::page_number(id)) == id,
{
    let d = text::dec(id as nat);
    text::law_number_round_trip(id as nat, id as nat);
    if d.len() < 3 {
        lemma_leading_zeros((3 - d.len()) as nat, d);
    }
}

/// Every page has a file of its own, below the directory of the session.
pub proof fn law_pages_have_own_files(dir: Seq<u8>, a: u32, b: u32)
    requires
        a != b,
    ensures
        model::page_path(dir, a) != model::page_path(dir, b),
        model::rescan_path(dir, a) != model::rescan_path(dir, b),
        dir.is_prefix_of(model::page_path(dir, a)),
        dir.is_prefix_of(model::rescan_path(dir, a)),
{
    reveal_strlit("page_");
    reveal_strlit(".png");
    reveal_strlit(".rescan.png");
    lemma_number_value(a);
    lemma_number_value(b);
    let na = model::page_number(a);
    let nb = model::page_number(b);
    let xa = "page_"@ + na + ".png"@;
    let xb = "page_"@ + nb + ".png"@;
    let ra = "page_"@ + na + ".rescan.png"@;
    let rb = "page_"@ + nb + ".rescan.png"@;
    assert(xa.subrange(5, xa.len() - 4) =~= na);
    assert(xb.subrange(5, xb.len() - 4) =~= nb);
    assert(ra.subrange(5, ra.len() - 11) =~= na);
    assert(rb.subrange(5, rb.len() - 11) =~= nb);
    lemma_join_differs(dir, xa, xb);
    lemma_join_differs(dir, ra, rb);
    lemma_join_below(dir, xa);
    lemma_join_below(dir, ra);
}

proof fn lemma_join_below(dir: Seq<u8>, x: Seq<char>)
    requires
        x.len() > 0,
        x[0] == 'p',
    ensures
        dir.is_prefix_of(path::join_path(dir, encode_utf8(x))),
{
    assert((0x70u32 & 0x7f) as u8 == 0x70) by (bit_vector);
    let b = encode_utf8(x);
    let r = path::join_path(dir, b);
    assert(b[0] != path::SLASH);
    assert(r.take(dir.len() as int) =~= dir);
}

proof fn lemma_join_differs(dir: Seq<u8>, x: Seq<char>, y: Seq<char>)
    requires
        x != y,
        x.len() > 0 && y.len() > 0,
        x[0] == 'p' && y[0] == 'p',
    ensures
        path::join_path(dir, encode_utf8(x)) != path::join_path(dir, encode_utf8(y)),
{
    encode_utf8_decode_utf8(x);
    encode_utf8_decode_utf8(y);
    assert((0x70u32 & 0x7f) as u8 == 0x70) by (bit_vector);
    let bx = encode_utf8(x);
    let by_ = encode_utf8(y);
    let head = if dir.len() == 0 || dir.last() == path::SLASH {
        dir
    } else {
        dir.push(path::SLASH)
    };
    if head + bx == head + by_ {
        assert((head + bx).skip(head.len() as int) =~= bx);
        assert((head + by_).skip(head.len() as int) =~= by_);
    }
}

/// A capture that succeeded is cleaned as configured, with the settings it was
/// made with, and the scanner is free meanwhile; the page keeps what it has
/// until then.
pub proof fn law_capture_succeeds(
    s: SessionModel,
    id: u32,
    is_rescan: bool,
    dpi: u16,
    mode: Seq<char>,
    file: Seq<u8>,
    fallback: bool,
    now: u64,
)
    requires
        model::find(s.pages, id) matches Some(i) && s.pages[i].status != PageStatus::DeletePending,
    ensures
        ({
            let i = model::find(s.pages, id)->0;
            let done = JobDoneModel::Scan {
                id,
                is_rescan,
                dpi,
                mode,
                path: file,
                result: Ok(fallback),
            };
            let (t, fx) = model::job_done(s, done, now);
            let p = t.pages[i];
            &&& 0 <= i < s.pages.len()
            &&& others_kept(t.pages, s.pages, i)
            &&& p.status == PageStatus::Processing && p.stage == Some(Stage::Clean)
            &&& p.image == s.pages[i].image && p.text == s.pages[i].text && p.dpi
                == s.pages[i].dpi && p.mode == s.pages[i].mode
            &&& t.busy == Busy::Idle && t.scan_page is None && t.jobs.contains(id)
            &&& starts(
                fx,
                JobModel::Clean {
                    id,
                    is_rescan,
                    dpi,
                    mode,
                    path: file,
                    used_fallback: fallback,
                    cleanup: s.cfg.cleanup,
                    unpaper_extra_args: s.cfg.unpaper_extra_args,
                },
            )
        }),
{
    laws::lemma_find(s.pages, id);
    let i = model::find(s.pages, id)->0;
    let done = JobDoneModel::Scan {
        id,
        is_rescan,
        dpi,
        mode,
        path: file,
        result: Ok(fallback),
    };
    let fx = model::job_done(s, done, now).1;
    assert(fx[1] is Spawn);
}

/// A capture that failed leaves a failed page that says why; one that was
/// called off leaves no new page, and leaves an old one as it was. Neither
/// starts anything.
pub proof fn law_capture_fails(
    s: SessionModel,
    id: u32,
    is_rescan: bool,
    dpi: u16,
    mode: Seq<char>,
    file: Seq<u8>,
    e: Seq<char>,
    now: u64,
)
    requires
        laws::ids_unique(s.pages),
        model::find(s.pages, id) matches Some(i) && s.pages[i].status != PageStatus::DeletePending,
    ensures
        ({
            let i = model::find(s.pages, id)->0;
            let failed = model::job_done(
                s,
                JobDoneModel::Scan {
                    id,
                    is_rescan,
                    dpi,
                    mode,
                    path: file,
                    result: Err(JobErrorModel::Failed(e)),
                },
                now,
            );
            let off = model::job_done(
                s,
                JobDoneModel::Scan {
                    id,
                    is_rescan,
                    dpi,
                    mode,
                    path: file,
                    result: Err(JobErrorModel::Cancelled),
                },
                now,
            );
            &&& 0 <= i < s.pages.len()
            &&& starts_nothing(failed.1) && starts_nothing(off.1)
            &&& others_kept(failed.0.pages, s.pages, i)
            &&& failed.0.pages[i].status == PageStatus::Failed
            &&& failed.0.pages[i].error == Some(e)
            &&& failed.0.pages[i].image == s.pages[i].image
            &&& !is_rescan ==> off.0.pages == s.pages.remove(i)
            &&& is_rescan ==> others_kept(off.0.pages, s.pages, i) && off.0.pages[i].image
                == s.pages[i].image && off.0.pages[i].text == s.pages[i].text
            &&& is_rescan && s.pages[i].image is Some ==> off.0.pages[i].status
                == PageStatus::Ready
        }),
{
    laws::lemma_find(s.pages, id);
}

/// A capture that was cleaned is the page's image from then on, at the
/// resolution and in the mode it was made with. The page has no text of
/// another image: it gets its text at once where that is configured, and else
/// it is ready without one.
pub proof fn law_new_image_is_taken(
    s: SessionModel,
    id: u32,
    is_rescan: bool,
    dpi: u16,
    mode: Seq<char>,
    image: Seq<u8>,
    deskewed: bool,
    fallback: bool,
    now: u64,
)
    requires
        model::find(s.pages, id) matches Some(i) && s.pages[i].status != PageStatus::DeletePending,
    ensures
        ({
            let i = model::find(s.pages, id)->0;
            let done = JobDoneModel::Clean {
                id,
                is_rescan,
                dpi,
                mode,
                image,
                unpaper_deskewed: deskewed,
                used_fallback: fallback,
            };
            let (t, fx) = model::job_done(s, done, now);
            let p = t.pages[i];
            let eager = s.cfg.preview_ocr == PreviewOcr::Eager;
            &&& 0 <= i < s.pages.len()
            &&& others_kept(t.pages, s.pages, i)
            &&& p.id == id
            &&& p.image == Some(image) && p.dpi == dpi && p.mode == mode
            &&& p.unpaper_deskewed == deskewed && p.used_fallback == fallback
            &&& p.text is None
            &&& p.image_gen != s.pages[i].image_gen
            &&& eager ==> p.status == PageStatus::Processing && p.stage == Some(Stage::Ocr)
                && starts(fx, JobModel::Ocr { id, image, langs: s.cfg.langs, dir: s.dir })
            &&& !eager ==> p.status == PageStatus::Ready && p.stage is None && starts_nothing(fx)
                && !t.jobs.contains(id)
        }),
{
    laws::lemma_find(s.pages, id);
    let i = model::find(s.pages, id)->0;
    let done = JobDoneModel::Clean {
        id,
        is_rescan,
        dpi,
        mode,
        image,
        unpaper_deskewed: deskewed,
        used_fallback: fallback,
    };
    let fx = model::job_done(s, done, now).1;
    let gone = model::removals(model::replaced_files(s.pages[i], is_rescan, image));
    assert forall|k: int| 0 <= k < gone.len() implies !((#[trigger] gone[k]) is Spawn) by {}
    if s.cfg.preview_ocr == PreviewOcr::Eager {
        assert(fx[gone.len() as int + 1] == EffectModel::Spawn(
            JobModel::Ocr { id, image, langs: s.cfg.langs, dir: s.dir },
        ));
    }
}

/// The text of a page is that of its image: after a new capture was taken over
/// it is made anew when it is asked for, of the new image.
pub proof fn law_new_image_needs_new_text(
    s: SessionModel,
    id: u32,
    is_rescan: bool,
    dpi: u16,
    mode: Seq<char>,
    image: Seq<u8>,
    deskewed: bool,
    fallback: bool,
    now: u64,
)
    requires
        laws::session_ok(s),
        s.cfg.preview_ocr == PreviewOcr::Lazy,
        s.busy != Busy::Finishing,
        !s.finished,
        model::find(s.pages, id) matches Some(i) && s.pages[i].status == PageStatus::Processing
            && s.pages[i].ocr_failed_gen != Some(model::next_gen(s.pages[i].image_gen)),
    ensures
        ({
            let done = JobDoneModel::Clean {
                id,
                is_rescan,
                dpi,
                mode,
                image,
                unpaper_deskewed: deskewed,
                used_fallback: fallback,
            };
            let t = model::job_done(s, done, now).0;
            starts(
                model::command(t, CmdModel::RequestText(id), now).1,
                JobModel::Ocr { id, image, langs: s.cfg.langs, dir: s.dir },
            )
        }),
{
    laws::lemma_find(s.pages, id);
    let i = model::find(s.pages, id)->0;
    let done = JobDoneModel::Clean {
        id,
        is_rescan,
        dpi,
        mode,
        image,
        unpaper_deskewed: deskewed,
        used_fallback: fallback,
    };
    law_new_image_is_taken(s, id, is_rescan, dpi, mode, image, deskewed, fallback, now);
    let t = model::job_done(s, done, now).0;
    laws::lemma_find(t.pages, id);
    let k = model::find(t.pages, id)->0;
    assert(t.pages[i].id == id);
    if k < i {
        assert(t.pages[k] == s.pages[k]);
        assert(s.pages[k].id != s.pages[i].id);
    } else if i < k {
        assert(t.pages[k] == s.pages[k]);
        assert(s.pages[i].id != s.pages[k].id);
    }
    assert(laws::page_ok(s, s.pages[i]));
    let fx = model::command(t, CmdModel::RequestText(id), now).1;
    assert(fx[1] is Spawn);
}

/// When a page is captured again, the files of its old image go: the image and
/// its cleaned version, but for a file that the new image is in.
pub proof fn law_old_image_goes(
    s: SessionModel,
    id: u32,
    dpi: u16,
    mode: Seq<char>,
    image: Seq<u8>,
    old: Seq<u8>,
    now: u64,
)
    requires
        model::find(s.pages, id) matches Some(i) && s.pages[i].status != PageStatus::DeletePending
            && s.pages[i].image == Some(old),
        old != image,
    ensures
        model::clean_done(s, id, true, dpi, mode, image, false, false, now).1.contains(
            EffectModel::RemoveFile(old),
        ),
        forall|k: int|
            0 <= k < model::clean_done(s, id, false, dpi, mode, image, false, false, now).1.len()
                ==> !((#[trigger] model::clean_done(
                s,
                id,
                false,
                dpi,
                mode,
                image,
                false,
                false,
                now,
            ).1[k]) is RemoveFile),
{
    laws::lemma_find(s.pages, id);
    let p = s.pages[model::find(s.pages, id)->0];
    let files = model::image_files(p.image);
    let clean = path::clean_variant_of(old);
    assert(files =~= seq![old, clean]);
    assert(files.drop_last() =~= seq![old]);
    assert(files.drop_last().drop_last() =~= Seq::empty());
    assert(model::sparing(Seq::empty(), image) =~= Seq::<Seq<u8>>::empty());
    assert(model::sparing(files.drop_last(), image) =~= seq![old]);
    let kept = model::sparing(files, image);
    assert(kept[0] == old);
    let fx = model::clean_done(s, id, true, dpi, mode, image, false, false, now).1;
    assert(model::removals(kept)[0] == EffectModel::RemoveFile(old));
    assert(fx[0] == EffectModel::RemoveFile(old));
}

// ----------------------------------------------------------------------- text

/// Text is made of the image that the page has, when it is asked for and where
/// it is made on demand: of a ready page without text that nothing works on
/// and whose text has not failed for this image. Otherwise nothing is started.
pub proof fn law_text_on_demand(s: SessionModel, id: u32, now: u64)
    requires
        model::find(s.pages, id) is Some,
    ensures
        ({
            let i = model::find(s.pages, id)->0;
            let p = s.pages[i];
            let (t, fx) = model::command(s, CmdModel::RequestText(id), now);
            let wanted = {
                &&& s.cfg.preview_ocr == PreviewOcr::Lazy
                &&& s.busy != Busy::Finishing && !s.finished
                &&& p.status == PageStatus::Ready && p.image is Some && p.text is None
                &&& !p.text_pending && !s.jobs.contains(p.id)
                &&& p.ocr_failed_gen != Some(p.image_gen)
            };
            &&& wanted ==> starts(
                fx,
                JobModel::Ocr { id, image: p.image->0, langs: s.cfg.langs, dir: s.dir },
            ) && t.pages[i].text_pending && others_kept(t.pages, s.pages, i)
            &&& !wanted ==> t == s && fx.len() == 0
        }),
{
    laws::lemma_find(s.pages, id);
    let fx = model::command(s, CmdModel::RequestText(id), now).1;
    if fx.len() > 0 {
        assert(fx[1] is Spawn);
    }
}

/// Text that was made is the text of its page, and of no other; the page is
/// ready, whether its text could be made or not, and its image is as it was.
pub proof fn law_text_arrives(
    s: SessionModel,
    id: u32,
    made: Seq<char>,
    e: Seq<char>,
    now: u64,
)
    requires
        model::find(s.pages, id) matches Some(i) && (s.pages[i].status == PageStatus::Ready
            || s.pages[i].status == PageStatus::Processing),
    ensures
        ({
            let i = model::find(s.pages, id)->0;
            let t = model::job_done(s, JobDoneModel::Ocr { id, result: Ok(made) }, now).0;
            let u = model::job_done(
                s,
                JobDoneModel::Ocr { id, result: Err(JobErrorModel::Failed(e)) },
                now,
            ).0;
            let v = model::job_done(
                s,
                JobDoneModel::Ocr { id, result: Err(JobErrorModel::Cancelled) },
                now,
            ).0;
            &&& 0 <= i < s.pages.len()
            &&& others_kept(t.pages, s.pages, i) && others_kept(u.pages, s.pages, i)
            &&& t.pages[i].text == Some(made)
            &&& u.pages[i].text == s.pages[i].text && v.pages[i].text == s.pages[i].text
            &&& u.pages[i].ocr_failed_gen == Some(s.pages[i].image_gen)
            &&& v.pages[i].ocr_failed_gen == s.pages[i].ocr_failed_gen
            &&& t.pages[i].status == PageStatus::Ready && u.pages[i].status == PageStatus::Ready
                && v.pages[i].status == PageStatus::Ready
            &&& !t.pages[i].text_pending && !u.pages[i].text_pending && !v.pages[i].text_pending
            &&& t.pages[i].image == s.pages[i].image && u.pages[i].image == s.pages[i].image
            &&& !t.jobs.contains(id) && !u.jobs.contains(id)
        }),
{
    laws::lemma_find(s.pages, id);
}

// -------------------------------------------------------------------- editing

/// Turning a page works on the image that the page has, in the direction that
/// was asked for, and cutting it down on the rectangle that was asked for;
/// their text is made anew unless that is switched off.
pub proof fn law_edits_begin(
    s: SessionModel,
    id: u32,
    cw: bool,
    x: u32,
    y: u32,
    w: u32,
    h: u32,
    now: u64,
)
    requires
        model::find(s.pages, id) matches Some(i) && s.pages[i].image is Some,
    ensures
        ({
            let i = model::find(s.pages, id)->0;
            let image = s.pages[i].image->0;
            let again = s.cfg.preview_ocr != PreviewOcr::Off;
            let r = model::command(s, CmdModel::Rotate(id, cw), now);
            let c = model::command(s, CmdModel::Crop { id, x, y, w, h }, now);
            &&& model::refusal(s, CmdModel::Rotate(id, cw)) is None ==> others_kept(
                r.0.pages,
                s.pages,
                i,
            ) && r.0.pages[i].status == PageStatus::Processing && starts(
                r.1,
                JobModel::Rotate { id, image, cw, reocr: again, langs: s.cfg.langs, dir: s.dir },
            )
            &&& model::refusal(s, CmdModel::Crop { id, x, y, w, h }) is None ==> others_kept(
                c.0.pages,
                s.pages,
                i,
            ) && c.0.pages[i].status == PageStatus::Processing && starts(
                c.1,
                JobModel::Crop {
                    id,
                    image,
                    x,
                    y,
                    w,
                    h,
                    reocr: again,
                    langs: s.cfg.langs,
                    dir: s.dir,
                },
            )
        }),
{
    laws::lemma_find(s.pages, id);
    let r = model::command(s, CmdModel::Rotate(id, cw), now);
    let c = model::command(s, CmdModel::Crop { id, x, y, w, h }, now);
    if model::refusal(s, CmdModel::Rotate(id, cw)) is None {
        assert(r.1[1] is Spawn);
    }
    if model::refusal(s, CmdModel::Crop { id, x, y, w, h }) is None {
        assert(c.1[1] is Spawn);
    }
}

/// A page that was turned counts as turned by hand from then on; one that was
/// cut down counts as before. Both are ready, are shown anew, and have the
/// text that was made, if any was. A failure is kept with the page, and one
/// that was called off leaves it as it was.
pub proof fn law_edits_end(
    s: SessionModel,
    id: u32,
    made: Option<Seq<char>>,
    e: Seq<char>,
    now: u64,
)
    requires
        model::find(s.pages, id) matches Some(i) && s.pages[i].status == PageStatus::Processing,
    ensures
        ({
            let i = model::find(s.pages, id)->0;
            let p = s.pages[i];
            let r = model::job_done(s, JobDoneModel::Rotate { id, result: Ok(made) }, now).0;
            let c = model::job_done(s, JobDoneModel::Crop { id, result: Ok(made) }, now).0;
            let bad = model::job_done(
                s,
                JobDoneModel::Rotate { id, result: Err(JobErrorModel::Failed(e)) },
                now,
            ).0;
            let off = model::job_done(
                s,
                JobDoneModel::Rotate { id, result: Err(JobErrorModel::Cancelled) },
                now,
            ).0;
            &&& 0 <= i < s.pages.len()
            &&& others_kept(r.pages, s.pages, i) && others_kept(c.pages, s.pages, i)
            &&& r.pages[i].rotated
            &&& c.pages[i].rotated == p.rotated && off.pages[i].rotated == p.rotated
            &&& r.pages[i].status == PageStatus::Ready && c.pages[i].status == PageStatus::Ready
                && off.pages[i].status == PageStatus::Ready
            &&& r.pages[i].image_gen != p.image_gen && c.pages[i].image_gen != p.image_gen
            &&& r.pages[i].image == p.image && c.pages[i].image == p.image
            &&& made is Some ==> r.pages[i].text == made && c.pages[i].text == made
            &&& bad.pages[i].status == PageStatus::Failed && bad.pages[i].error == Some(e)
                && bad.pages[i].image == p.image
            &&& !r.jobs.contains(id) && !c.jobs.contains(id)
        }),
{
    laws::lemma_find(s.pages, id);
}

/// What comes after a change of an image: a failure is reported as such, work
/// that was called off is not gone on with, and text is made exactly where it
/// is wanted.
pub proof fn law_after_edit(edit: Edit, result: Result<(), String>, cancelled: bool, again: bool)
    ensures
        match jobs::after_edit(edit, result, cancelled, again) {
            EditStepModel::MakeText => result is Ok && !cancelled && again,
            EditStepModel::Done(Ok(t)) => result is Ok && !cancelled && !again && t is None,
            EditStepModel::Done(Err(JobErrorModel::Cancelled)) => result is Ok && cancelled,
            EditStepModel::Done(Err(JobErrorModel::Failed(m))) => result matches Err(e) && m == (
            if edit == Edit::Rotate {
                "rotate"@
            } else {
                "crop"@
            }) + " failed: "@ + e@,
        },
{
}

// ------------------------------------------------------------------ arranging

/// A page that is moved stands where it was moved to, and the others keep
/// their order; a place outside the list changes nothing.
pub proof fn law_moved_page_is_there(s: SessionModel, from: int, to: int, now: u64)
    requires
        s.busy != Busy::Finishing,
    ensures
        ({
            let t = model::command(s, CmdModel::Move { from, to }, now).0;
            if 0 <= from < s.pages.len() && 0 <= to < s.pages.len() {
                &&& t.pages.len() == s.pages.len()
                &&& t.pages[to] == s.pages[from]
                &&& t.pages.remove(to) == s.pages.remove(from)
            } else {
                t == s
            }
        }),
{
    let t = model::command(s, CmdModel::Move { from, to }, now).0;
    if 0 <= from < s.pages.len() && 0 <= to < s.pages.len() && from != to {
        assert(t.pages.remove(to) =~= s.pages.remove(from));
    }
}

/// A page that is deleted while nothing works on it leaves the list, the
/// others keep their order, and its files go: the image and its cleaned
/// version.
pub proof fn law_deleted_page_goes(s: SessionModel, id: u32, now: u64)
    requires
        s.busy != Busy::Finishing,
        model::find(s.pages, id) matches Some(i) && (s.pages[i].status == PageStatus::Ready
            || s.pages[i].status == PageStatus::Failed),
    ensures
        ({
            let i = model::find(s.pages, id)->0;
            let (t, fx) = model::command(s, CmdModel::Delete(id), now);
            &&& 0 <= i < s.pages.len() && s.pages[i].id == id
            &&& t.pages == s.pages.remove(i)
            &&& s.pages[i].image matches Some(f) ==> fx.contains(EffectModel::RemoveFile(f))
                && fx.contains(EffectModel::RemoveFile(path::clean_variant_of(f)))
            &&& s.jobs.contains(id) ==> fx.contains(EffectModel::CancelJob(id))
            &&& starts_nothing(fx)
        }),
{
    laws::lemma_find(s.pages, id);
    let i = model::find(s.pages, id)->0;
    let fx = model::command(s, CmdModel::Delete(id), now).1;
    let files = model::image_files(s.pages[i].image);
    let gone = model::removals(files);
    let n = if s.jobs.contains(id) {
        1int
    } else {
        0
    };
    assert forall|k: int| 0 <= k < gone.len() implies fx[n + k] == gone[k] by {}
    assert forall|k: int| 0 <= k < fx.len() implies !((#[trigger] fx[k]) is Spawn) by {
        if n <= k < n + gone.len() {
            assert(fx[k] == gone[k - n]);
        }
    }
    if s.pages[i].image is Some {
        let f = s.pages[i].image->0;
        assert(files[0] == f && files[1] == path::clean_variant_of(f));
        assert(gone[0] == EffectModel::RemoveFile(f));
        assert(gone[1] == EffectModel::RemoveFile(path::clean_variant_of(f)));
        assert(fx[n] == gone[0] && fx[n + 1] == gone[1]);
    }
    if s.jobs.contains(id) {
        assert(fx[0] == EffectModel::CancelJob(id));
    }
}

/// A new session begins empty, goes on counting, keeps nothing of the old
/// pages, and has a place of its own.
pub proof fn law_new_session_is_empty(s: SessionModel, dir: Seq<u8>, out: Seq<u8>, now: u64)
    requires
        model::refusal(s, CmdModel::NewSession) is None,
    ensures
        ({
            let (t, fx) = model::command(s, CmdModel::NewSession, now);
            let u = model::reopened(t, dir, out).0;
            &&& t.pages.len() == 0 && !t.finished && t.busy == Busy::Idle
            &&& t.next_id == s.next_id && t.cfg == s.cfg && t.device == s.device
            &&& fx.contains(EffectModel::Reopen)
            &&& fx.contains(EffectModel::ReleaseReservation(s.out_pdf))
            &&& u.dir == dir && u.out_pdf == out && u.pages.len() == 0
        }),
{
    let fx = model::command(s, CmdModel::NewSession, now).1;
    assert(fx[fx.len() - 1] == EffectModel::Reopen);
    assert(fx[fx.len() - 2] == EffectModel::ReleaseReservation(s.out_pdf));
}

/// The scanner that was found is the one that is used from then on.
pub proof fn law_found_scanner_is_used(s: SessionModel, name: Seq<char>, now: u64)
    requires
        name.len() > 0,
    ensures
        model::command(s, CmdModel::SetDevice(name), now).0 == (SessionModel { device: name, ..s }),
{
}

/// Calling off a capture stops the scanner and changes no page yet.
pub proof fn law_calling_off(s: SessionModel, now: u64)
    requires
        s.busy == Busy::Scanning,
    ensures
        model::command(s, CmdModel::CancelScan, now).0 == s,
        model::command(s, CmdModel::CancelScan, now).1.contains(EffectModel::CancelScan),
{
    assert(model::command(s, CmdModel::CancelScan, now).1[0] == EffectModel::CancelScan);
}

// ------------------------------------------------------------------- building

/// The document is built at the place of the session, in its languages, and it
/// is said of it what is true of the pages: whether some page was turned by
/// hand, and whether some page was not cleaned by unpaper.
pub proof fn law_build_begins(s: SessionModel, now: u64)
    requires
        model::refusal(s, CmdModel::Finish) is None,
    ensures
        ({
            let (t, fx) = model::command(s, CmdModel::Finish, now);
            let plan = model::build_plan(s);
            &&& t.busy == Busy::Finishing && t.pages == s.pages && t.out_pdf == s.out_pdf
            &&& starts(fx, JobModel::Finish { plan })
            &&& plan.out_pdf == s.out_pdf && plan.langs == s.cfg.langs
            &&& plan.manually_rotated <==> exists|i: int|
                0 <= i < s.pages.len() && (#[trigger] s.pages[i]).rotated
            &&& plan.any_page_needing_cleanup <==> exists|i: int|
                0 <= i < s.pages.len() && !(#[trigger] s.pages[i]).unpaper_deskewed
        }),
{
    assert(model::command(s, CmdModel::Finish, now).1[2] is Spawn);
}

/// A page that was turned by hand stays that way: where any page of the
/// session was, the document is built without turning pages automatically.
pub proof fn law_turned_pages_stay(s: SessionModel, i: int, tmp: Seq<u8>, unpaper: bool, now: u64)
    requires
        model::refusal(s, CmdModel::Finish) is None,
        0 <= i < s.pages.len(),
        s.pages[i].rotated,
    ensures
        ({
            let fx = model::command(s, CmdModel::Finish, now).1;
            forall|k: int|
                0 <= k < fx.len() ==> ((#[trigger] fx[k]) matches EffectModel::Spawn(j) ==> {
                    &&& j matches JobModel::Finish { plan } && plan.manually_rotated
                    &&& ({
                        let a = pdf::ocr_step(j->Finish_plan, tmp, unpaper).args;
                        !a.subrange(8, a.len() - 2).contains("--rotate-pages"@)
                    })
                })
        }),
{
    backend_laws::law_ocr_options(model::build_plan(s), tmp, unpaper);
    law_build_begins(s, now);
}

/// A page stays turned by hand until it leaves the list: neither moving it, nor
/// its text, nor cutting it down takes that back.
pub proof fn law_turned_is_not_forgotten(s: SessionModel, id: u32, done: JobDoneModel, now: u64)
    requires
        model::find(s.pages, id) matches Some(i) && s.pages[i].rotated && s.pages[i].status
            != PageStatus::DeletePending,
        done is Ocr || done is Crop || done is Rotate,
        laws::done_page(done) == id,
    ensures
        model::job_done(s, done, now).0.pages[model::find(s.pages, id)->0].rotated,
{
    laws::lemma_find(s.pages, id);
}

/// A place that was chosen for the document is claimed before anything is
/// built. Where it is, the document is built there and the place that was
/// claimed before is given up; where it is not, nothing is built and the
/// reason is told.
pub proof fn law_chosen_place(
    s: SessionModel,
    out: Seq<u8>,
    overwrite: bool,
    e: Seq<char>,
    now: u64,
)
    requires
        model::refusal(s, CmdModel::FinishTo { out, overwrite }) is None,
    ensures
        ({
            let asked = model::command(s, CmdModel::FinishTo { out, overwrite }, now);
            let yes = model::target_reserved(s, Ok(out), now);
            let no = model::target_reserved(s, Err(e), now);
            &&& asked.0 == s && asked.1 == seq![EffectModel::ReserveTarget { out, overwrite }]
            &&& yes.0.out_pdf == out && yes.0.busy == Busy::Finishing
            &&& yes.1.contains(
                EffectModel::Spawn(
                    JobModel::Finish {
                        plan: model::build_plan(SessionModel { out_pdf: out, ..s }),
                    },
                ),
            )
            &&& model::build_plan(SessionModel { out_pdf: out, ..s }).out_pdf == out
            &&& out != s.out_pdf ==> yes.1.contains(EffectModel::ReleaseReservation(s.out_pdf))
            &&& out == s.out_pdf ==> !yes.1.contains(EffectModel::ReleaseReservation(s.out_pdf))
            &&& no.0 == s && starts_nothing(no.1)
            &&& no.1[0] matches EffectModel::Status(m) && e.is_suffix_of(m)
        }),
{
    let yes = model::target_reserved(s, Ok(out), now);
    let spawn = EffectModel::Spawn(
        JobModel::Finish { plan: model::build_plan(SessionModel { out_pdf: out, ..s }) },
    );
    assert(yes.1[yes.1.len() - 1] == spawn);
    if out != s.out_pdf {
        assert(yes.1[0] == EffectModel::ReleaseReservation(s.out_pdf));
    }
    let m = "cannot save: "@ + e;
    assert(m.skip(m.len() - e.len()) =~= e);
}

/// A document that was built is announced with its place and its size, and the
/// files of the pages go; a build that failed leaves the pages and their files
/// as they are, says why, and can be tried again.
pub proof fn law_build_ends(
    s: SessionModel,
    outcome: BuildOutcome,
    size_kb: u64,
    e: Seq<char>,
    now: u64,
)
    ensures
        ({
            let good = model::job_done(
                s,
                JobDoneModel::Finish { result: Ok((outcome, size_kb)) },
                now,
            );
            let bad = model::job_done(s, JobDoneModel::Finish { result: Err(e) }, now);
            &&& good.0.finished && good.0.busy == Busy::Idle
            &&& good.1.contains(EffectModel::RemoveDir(s.dir))
            &&& good.1.contains(
                EffectModel::Finished { outcome: Some(outcome), path: s.out_pdf, size_kb },
            )
            &&& bad.0.finished == s.finished && bad.0.busy == Busy::Idle && bad.0.pages == s.pages
            &&& forall|k: int|
                0 <= k < bad.1.len() ==> !((#[trigger] bad.1[k]) is RemoveDir) && !(bad.1[k]
                    is RemoveFile)
            &&& bad.1.contains(
                EffectModel::Finished { outcome: None, path: s.out_pdf, size_kb: 0 },
            )
            &&& bad.1[0] matches EffectModel::Status(m) && e.is_suffix_of(m)
        }),
{
    let good = model::job_done(s, JobDoneModel::Finish { result: Ok((outcome, size_kb)) }, now);
    let bad = model::job_done(s, JobDoneModel::Finish { result: Err(e) }, now);
    assert(good.1[0] == EffectModel::RemoveDir(s.dir));
    assert(good.1[2] == EffectModel::Finished {
        outcome: Some(outcome),
        path: s.out_pdf,
        size_kb,
    });
    assert(bad.1[1] == EffectModel::Finished { outcome: None, path: s.out_pdf, size_kb: 0 });
    let m = "PDF build failed: "@ + e;
    assert(m.skip(m.len() - e.len()) =~= e);
}

/// Something would be lost exactly while something goes on, or while there are
/// pages that are not to go and no document of them.
pub proof fn law_what_would_be_lost(s: SessionModel)
    ensures
        s.busy != Busy::Idle ==> model::is_dirty(s),
        s.busy == Busy::Idle && s.finished ==> !model::is_dirty(s),
        s.busy == Busy::Idle && !s.finished && s.jobs.len() == 0 ==> (model::is_dirty(s)
            <==> exists|i: int|
            0 <= i < s.pages.len() && (#[trigger] s.pages[i]).status != PageStatus::DeletePending),
{
    if s.busy == Busy::Idle && !s.finished && s.jobs.len() == 0 {
        if model::is_dirty(s) {
            let i = choose|i: int|
                0 <= i < s.pages.len() && !model::delete_pending(#[trigger] s.pages[i]);
            assert(s.pages[i].status != PageStatus::DeletePending);
        }
        if exists|i: int|
            0 <= i < s.pages.len() && (#[trigger] s.pages[i]).status != PageStatus::DeletePending {
            let i = choose|i: int|
                0 <= i < s.pages.len() && (#[trigger] s.pages[i]).status
                    != PageStatus::DeletePending;
            assert(!model::delete_pending(s.pages[i]));
        }
    }
}

/// What is shown of a page is what the page is.
pub proof fn law_pages_are_shown_as_they_are(p: PageModel)
    ensures
        ({
            let v = model::shown(p);
            &&& v.id == p.id && v.status == p.status
            &&& v.stage == p.stage && v.stage_started == p.stage_started
            &&& v.image == p.image && v.image_gen == p.image_gen
            &&& v.text == p.text && v.text_pending == p.text_pending
            &&& v.ocr_failed_gen == p.ocr_failed_gen
            &&& v.error == p.error && v.rotated == p.rotated
            &&& v.dpi == p.dpi && v.mode == p.mode
        }),
{
}

/// What a page is said to be doing tells apart what pages can be doing.
pub proof fn law_stages_have_names(status: PageStatus, stage: Option<Stage>)
    ensures
        status == PageStatus::Ready ==> model::status_name(status, stage) == "ready"@,
        status == PageStatus::Failed ==> model::status_name(status, stage) == "failed"@,
        status == PageStatus::Scanning ==> model::status_name(status, stage) == "scanning"@,
        status == PageStatus::DeletePending ==> model::status_name(status, stage) == "deleting"@,
        status == PageStatus::Processing && stage == Some(Stage::Clean) ==> model::status_name(
            status,
            stage,
        ) == "cleaning"@,
        status == PageStatus::Processing && stage == Some(Stage::Ocr) ==> model::status_name(
            status,
            stage,
        ) == "ocr"@,
{
}

} // verus!
