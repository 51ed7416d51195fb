//! Which images have to be decoded and encoded for the preview and for the
//! page editor, and which results still count. The work itself is done
//! elsewhere, and its results may arrive at any time and in any order.

use std::collections::{HashMap, HashSet};

use vstd::prelude::*;

use crate::config;
use crate::path::FilePath;
use crate::session;
use crate::session::model::PageShown;
use crate::session::{PageId, PageView};
use crate::tui::input::Rect;

verus! {

broadcast use vstd::std_specs::hash::group_hash_axioms;

/// How many encodes are started per frame at most.
pub const MAX_SYNC_KICKS_PER_FRAME: usize = 4;

/// The longer side of a thumbnail, in pixels, at most.
pub const MAX_THUMB_PIXELS: u32 = 1600;

/// The longer side of the image in the editor, in pixels, at most.
pub const MAX_EDITOR_PIXELS: u32 = 3200;

/// How thick the crop outline is, in pixels of the image in the editor.
pub const OUTLINE_THICKNESS: u32 = 2;

// ----------------------------------------------------------------- thumbnails

/// The image that a thumbnail was made of.
#[derive(Debug)]
pub struct Thumb {
    pub path: FilePath,
    pub gen: u32,
}

impl View for Thumb {
    type V = (Seq<u8>, u32);

    open spec fn view(&self) -> (Seq<u8>, u32) {
        (self.path@, self.gen)
    }
}

/// An image that has to be decoded for a page.
#[derive(Debug)]
pub struct Decode {
    pub id: PageId,
    pub path: FilePath,
    pub gen: u32,
}

impl View for Decode {
    type V = (PageId, Seq<u8>, u32);

    open spec fn view(&self) -> (PageId, Seq<u8>, u32) {
        (self.id, self.path@, self.gen)
    }
}

/// What a list of decodes asks for.
pub open spec fn decodes(v: Seq<Decode>) -> Seq<(PageId, Seq<u8>, u32)> {
    v.map_values(|d: Decode| d@)
}

/// Which images failed.
pub open spec fn failures(v: Seq<(FilePath, u32)>) -> Set<(Seq<u8>, u32)> {
    v.map_values(|f: (FilePath, u32)| (f.0@, f.1)).to_set()
}

/// The thumbnails: which page has one, of which image; which pages are being
/// decoded; and which images could not be decoded.
#[verifier::ext_equal]
pub struct ThumbsModel {
    pub thumbs: Map<PageId, (Seq<u8>, u32)>,
    pub decoding: Set<PageId>,
    pub failed: Set<(Seq<u8>, u32)>,
}

/// The bookkeeping of the thumbnails.
#[derive(Debug)]
pub struct PreviewWorker {
    pub thumbs: HashMap<PageId, Thumb>,
    pub decoding: HashSet<PageId>,
    pub failed: Vec<(FilePath, u32)>,
}

impl View for PreviewWorker {
    type V = ThumbsModel;

    open spec fn view(&self) -> ThumbsModel {
        ThumbsModel {
            thumbs: self.thumbs@.map_values(|t: Thumb| t@),
            decoding: self.decoding@,
            failed: failures(self.failed@),
        }
    }
}

/// Whether the image of a page has to be decoded: there is one, the thumbnail
/// is not made of it, it has not failed before, and nothing is being decoded
/// for the page.
pub open spec fn wanted(m: ThumbsModel, decoding: Set<PageId>, p: PageShown) -> bool {
    &&& p.image is Some
    &&& !(m.thumbs.dom().contains(p.id) && m.thumbs[p.id] == (p.image->0, p.image_gen))
    &&& !m.failed.contains((p.image->0, p.image_gen))
    &&& !decoding.contains(p.id)
}

/// The pages that are being decoded once the decodes for a list of pages have
/// started, and those decodes.
pub open spec fn started(m: ThumbsModel, pages: Seq<PageShown>) -> (
    Set<PageId>,
    Seq<(PageId, Seq<u8>, u32)>,
)
    decreases pages.len(),
{
    if pages.len() == 0 {
        (m.decoding, Seq::empty())
    } else {
        let (decoding, list) = started(m, pages.drop_last());
        let p = pages.last();
        if wanted(m, decoding, p) {
            (decoding.insert(p.id), list.push((p.id, p.image->0, p.image_gen)))
        } else {
            (decoding, list)
        }
    }
}

/// Whether a page with an image is in a list.
pub open spec fn is_shown(pages: Seq<PageShown>, id: PageId) -> bool {
    exists|i: int| 0 <= i < pages.len() && has_image(#[trigger] pages[i], id)
}

pub open spec fn has_image(p: PageShown, id: PageId) -> bool {
    p.id == id && p.image is Some
}

/// The thumbnails held against the pages: what is missing is decoded, and
/// what belongs to pages that are gone is forgotten.
pub open spec fn reconciled(m: ThumbsModel, pages: Seq<PageShown>) -> (
    ThumbsModel,
    Seq<(PageId, Seq<u8>, u32)>,
) {
    let (decoding, list) = started(m, pages);
    (
        ThumbsModel {
            thumbs: m.thumbs.restrict(Set::new(|id: PageId| is_shown(pages, id))),
            decoding: decoding.intersect(Set::new(|id: PageId| is_shown(pages, id))),
            failed: m.failed,
        },
        list,
    )
}

/// An image has been decoded.
pub open spec fn decoded(m: ThumbsModel, id: PageId, path: Seq<u8>, gen: u32) -> ThumbsModel {
    ThumbsModel {
        thumbs: m.thumbs.insert(id, (path, gen)),
        decoding: m.decoding.remove(id),
        failed: m.failed,
    }
}

/// An image could not be decoded.
pub open spec fn undecodable(m: ThumbsModel, id: PageId, path: Seq<u8>, gen: u32) -> ThumbsModel {
    ThumbsModel {
        thumbs: m.thumbs,
        decoding: m.decoding.remove(id),
        failed: m.failed.insert((path, gen)),
    }
}

/// Whether a cell of the preview shows a thumbnail that may have to be encoded
/// for it.
pub open spec fn shows(m: ThumbsModel, cell: (PageId, Rect)) -> bool {
    m.thumbs.dom().contains(cell.0) && cell.1.width > 0 && cell.1.height > 0
}

/// The cells whose thumbnails are encoded now: the first few of those that
/// need it.
pub open spec fn kicks(m: ThumbsModel, cells: Seq<(PageId, Rect)>, needs: Seq<bool>) -> Seq<int>
    decreases cells.len(),
{
    if cells.len() == 0 {
        Seq::empty()
    } else {
        let list = kicks(m, cells.drop_last(), needs);
        if shows(m, cells.last()) && needs[cells.len() - 1] && list.len()
            < MAX_SYNC_KICKS_PER_FRAME {
            list.push(cells.len() - 1)
        } else {
            list
        }
    }
}

impl PreviewWorker {
    pub fn new() -> (r: Self)
        ensures
            r@ == (ThumbsModel {
                thumbs: Map::empty(),
                decoding: Set::empty(),
                failed: Set::empty(),
            }),
    {
        let r = PreviewWorker {
            thumbs: HashMap::new(),
            decoding: HashSet::new(),
            failed: Vec::new(),
        };
        assert(r@.thumbs =~= Map::empty());
        assert(r@.failed =~= Set::empty());
        r
    }

    /// Whether an image has failed before.
    fn has_failed(&self, path: &FilePath, gen: u32) -> (r: bool)
        ensures
            r == self@.failed.contains((path@, gen)),
    {
        let ghost all = self.failed@.map_values(|f: (FilePath, u32)| (f.0@, f.1));
        let mut i: usize = 0;
        while i < self.failed.len()
            invariant
                i <= self.failed@.len(),
                all == self.failed@.map_values(|f: (FilePath, u32)| (f.0@, f.1)),
                forall|j: int| 0 <= j < i ==> #[trigger] all[j] != (path@, gen),
            decreases self.failed@.len() - i,
        {
            assert(all[i as int] == (self.failed@[i as int].0@, self.failed@[i as int].1));
            if self.failed[i].1 == gen && self.failed[i].0.same(path) {
                assert(all.contains((path@, gen)));
                return true;
            }
            i = i + 1;
        }
        assert(!all.contains((path@, gen)));
        false
    }

    /// Whether the thumbnail of a page is made of an image.
    fn is_current(&self, id: PageId, path: &FilePath, gen: u32) -> (r: bool)
        ensures
            r == (self@.thumbs.dom().contains(id) && self@.thumbs[id] == (path@, gen)),
    {
        match self.thumbs.get(&id) {
            Some(t) => {
                assert(self@.thumbs[id] == t@);
                t.gen == gen && t.path.same(path)
            },
            None => false,
        }
    }

    /// Starts what has to be decoded for a list of pages.
    fn start(&mut self, pages: &[PageView]) -> (r: Vec<Decode>)
        ensures
            final(self)@ == (ThumbsModel {
                decoding: started(old(self)@, session::shown_pages(pages@)).0,
                ..old(self)@
            }),
            final(self).thumbs == old(self).thumbs,
            decodes(r@) == started(old(self)@, session::shown_pages(pages@)).1,
    {
        let ghost m = self@;
        let ghost shown = session::shown_pages(pages@);
        let mut r: Vec<Decode> = Vec::new();
        let mut i: usize = 0;
        assert(shown.take(0) =~= Seq::empty());
        assert(decodes(r@) =~= Seq::empty());
        while i < pages.len()
            invariant
                i <= pages@.len(),
                shown == session::shown_pages(pages@),
                self.thumbs == old(self).thumbs,
                self.failed == old(self).failed,
                m == old(self)@,
                self.decoding@ == started(m, shown.take(i as int)).0,
                decodes(r@) == started(m, shown.take(i as int)).1,
            decreases pages@.len() - i,
        {
            let page = &pages[i];
            assert(shown.take(i + 1).drop_last() =~= shown.take(i as int));
            assert(shown.take(i + 1).last() == page@);
            if let Some(image) = &page.image {
                if !self.is_current(page.id, image, page.image_gen) && !self.has_failed(
                    image,
                    page.image_gen,
                ) && !self.decoding.contains(&page.id) {
                    assert(wanted(m, self.decoding@, page@));
                    self.decoding.insert(page.id);
                    let d = Decode { id: page.id, path: image.clone(), gen: page.image_gen };
                    let ghost before = r@;
                    r.push(d);
                    assert(decodes(r@) =~= decodes(before).push(d@));
                }
            }
            i = i + 1;
        }
        assert(shown.take(shown.len() as int) =~= shown);
        r
    }

    /// Forgets what belongs to pages that are gone.
    fn forget(&mut self, pages: &[PageView])
        ensures
            final(self)@ == ({
                let kept = Set::new(|id: PageId| is_shown(session::shown_pages(pages@), id));
                ThumbsModel {
                    thumbs: old(self)@.thumbs.restrict(kept),
                    decoding: old(self)@.decoding.intersect(kept),
                    ..old(self)@
                }
            }),
    {
        let ghost m = self@;
        let ghost all = self.thumbs@;
        let ghost shown = session::shown_pages(pages@);
        let mut thumbs: HashMap<PageId, Thumb> = HashMap::new();
        let mut decoding: HashSet<PageId> = HashSet::new();
        let mut i: usize = 0;
        while i < pages.len()
            invariant
                i <= pages@.len(),
                shown == session::shown_pages(pages@),
                self.failed == old(self).failed,
                self.decoding == old(self).decoding,
                m == old(self)@,
                all == old(self).thumbs@,
                forall|id: PageId| #[trigger]
                    thumbs@.dom().contains(id) <==> all.dom().contains(id) && is_shown(
                        shown.take(i as int),
                        id,
                    ),
                forall|id: PageId| #[trigger]
                    thumbs@.dom().contains(id) ==> thumbs@[id] == all[id],
                forall|id: PageId| #[trigger]
                    self.thumbs@.dom().contains(id) <==> all.dom().contains(id) && !is_shown(
                        shown.take(i as int),
                        id,
                    ),
                forall|id: PageId| #[trigger]
                    self.thumbs@.dom().contains(id) ==> self.thumbs@[id] == all[id],
                forall|id: PageId| #[trigger]
                    decoding@.contains(id) <==> self.decoding@.contains(id) && is_shown(
                        shown.take(i as int),
                        id,
                    ),
            decreases pages@.len() - i,
        {
            let page = &pages[i];
            let id: PageId = page.id;
            proof {
                lemma_shown_step(shown, i as int);
                assert(shown[i as int] == page@);
            }
            if page.image.is_some() {
                if let Some(t) = self.thumbs.remove(&id) {
                    thumbs.insert(id, t);
                }
                if self.decoding.contains(&id) {
                    decoding.insert(id);
                }
            }
            i = i + 1;
        }
        assert(shown.take(shown.len() as int) =~= shown);
        self.thumbs = thumbs;
        self.decoding = decoding;
        let ghost kept = Set::new(|id: PageId| is_shown(shown, id));
        assert(self@.thumbs =~= m.thumbs.restrict(kept));
        assert(self@.decoding =~= m.decoding.intersect(kept));
    }

    /// Holds the thumbnails against the pages, and tells what has to be
    /// decoded.
    pub fn on_pages_changed(&mut self, pages: &[PageView]) -> (r: Vec<Decode>)
        ensures
            final(self)@ == reconciled(old(self)@, session::shown_pages(pages@)).0,
            decodes(r@) == reconciled(old(self)@, session::shown_pages(pages@)).1,
    {
        let r = self.start(pages);
        self.forget(pages);
        r
    }

    /// An image has been decoded. True where the page already had a thumbnail,
    /// which is replaced.
    pub fn on_decoded(&mut self, id: PageId, path: FilePath, gen: u32) -> (r: bool)
        ensures
            final(self)@ == decoded(old(self)@, id, path@, gen),
            r == old(self)@.thumbs.dom().contains(id),
    {
        self.decoding.remove(&id);
        let r = self.thumbs.contains_key(&id);
        self.thumbs.insert(id, Thumb { path, gen });
        assert(self@.thumbs =~= old(self)@.thumbs.insert(id, (path@, gen)));
        r
    }

    /// An image could not be decoded: it is not tried again.
    pub fn on_failed(&mut self, id: PageId, path: FilePath, gen: u32)
        ensures
            final(self)@ == undecodable(old(self)@, id, path@, gen),
    {
        self.decoding.remove(&id);
        let ghost before = self.failed@.map_values(|f: (FilePath, u32)| (f.0@, f.1));
        self.failed.push((path, gen));
        let ghost after = self.failed@.map_values(|f: (FilePath, u32)| (f.0@, f.1));
        assert(after =~= before.push((path@, gen)));
        proof {
            lemma_push_to_set(before, (path@, gen));
        }
    }

    /// Whether a page has a thumbnail.
    pub fn has_image_for(&self, id: PageId) -> (r: bool)
        ensures
            r == self@.thumbs.dom().contains(id),
    {
        self.thumbs.contains_key(&id)
    }

    /// The cells whose thumbnails are encoded now, out of those that need it
    /// for their size: the rest waits for the next frame.
    pub fn sync_cells(&self, cells: &[(PageId, Rect)], needs: &[bool]) -> (r: Vec<usize>)
        requires
            cells@.len() == needs@.len(),
        ensures
            r@.map_values(|i: usize| i as int) == kicks(self@, cells@, needs@),
    {
        let mut r: Vec<usize> = Vec::new();
        let mut i: usize = 0;
        assert(cells@.take(0) =~= Seq::empty());
        assert(r@.map_values(|i: usize| i as int) =~= Seq::empty());
        while i < cells.len()
            invariant
                i <= cells@.len(),
                cells@.len() == needs@.len(),
                r@.map_values(|i: usize| i as int) == kicks(
                    self@,
                    cells@.take(i as int),
                    needs@,
                ),
            decreases cells@.len() - i,
        {
            assert(cells@.take(i + 1).drop_last() =~= cells@.take(i as int));
            assert(cells@.take(i + 1).last() == cells@[i as int]);
            let (id, rect) = cells[i];
            let ghost before = r@;
            assert(r@.len() == kicks(self@, cells@.take(i as int), needs@).len());
            if self.has_image_for(id) && rect.width > 0 && rect.height > 0 && needs[i] && r.len()
                < MAX_SYNC_KICKS_PER_FRAME {
                r.push(i);
                assert(r@.map_values(|i: usize| i as int) =~= before.map_values(
                    |i: usize| i as int,
                ).push(i as int));
            }
            i = i + 1;
        }
        assert(cells@.take(cells@.len() as int) =~= cells@);
        r
    }
}

proof fn lemma_shown_step(pages: Seq<PageShown>, i: int)
    requires
        0 <= i < pages.len(),
    ensures
        forall|id: PageId| #[trigger]
            is_shown(pages.take(i + 1), id) <==> is_shown(pages.take(i), id) || has_image(
                pages[i],
                id,
            ),
{
    let a = pages.take(i);
    let b = pages.take(i + 1);
    assert forall|id: PageId| #[trigger] is_shown(b, id) <==> is_shown(a, id) || has_image(
        pages[i],
        id,
    ) by {
        if is_shown(b, id) {
            let k = choose|k: int| 0 <= k < b.len() && has_image(#[trigger] b[k], id);
            if k < i {
                assert(has_image(a[k], id));
            }
        }
        if is_shown(a, id) {
            let k = choose|k: int| 0 <= k < a.len() && has_image(#[trigger] a[k], id);
            assert(has_image(b[k], id));
        }
        if has_image(pages[i], id) {
            assert(has_image(b[i], id));
        }
    }
}

proof fn lemma_push_to_set(s: Seq<(Seq<u8>, u32)>, x: (Seq<u8>, u32))
    ensures
        s.push(x).to_set() == s.to_set().insert(x),
{
    let t = s.push(x);
    assert forall|y: (Seq<u8>, u32)| #[trigger] t.to_set().contains(y) <==> s.to_set().insert(
        x,
    ).contains(y) by {
        if s.contains(y) {
            let i = choose|i: int| 0 <= i < s.len() && s[i] == y;
            assert(t[i] == y);
        }
        if y == x {
            assert(t[s.len() as int] == y);
        }
        if t.contains(y) {
            let i = choose|i: int| 0 <= i < t.len() && t[i] == y;
            if i < s.len() {
                assert(s[i] == y);
            }
        }
    }
    assert(t.to_set() =~= s.to_set().insert(x));
}

// ----------------------------------------------------------------- thumb laws

/// What has been started is remembered, and only pages that are shown and
/// were not being decoded are started.
proof fn lemma_started(m: ThumbsModel, pages: Seq<PageShown>)
    ensures
        m.decoding.subset_of(started(m, pages).0),
        forall|id: PageId| #[trigger]
            started(m, pages).0.contains(id) ==> m.decoding.contains(id) || is_shown(pages, id),
        forall|i: int|
            0 <= i < pages.len() ==> !wanted(m, started(m, pages).0, #[trigger] pages[i]),
        forall|k: int|
            0 <= k < started(m, pages).1.len() ==> started(m, pages).0.contains(
                (#[trigger] started(m, pages).1[k]).0,
            ) && !m.decoding.contains(started(m, pages).1[k].0) && !m.failed.contains(
                (started(m, pages).1[k].1, started(m, pages).1[k].2),
            ),
        forall|k: int, l: int|
            0 <= k < l < started(m, pages).1.len() ==> (#[trigger] started(m, pages).1[k]).0 != (
            #[trigger] started(m, pages).1[l]).0,
    decreases pages.len(),
{
    if pages.len() > 0 {
        let init = pages.drop_last();
        lemma_started(m, init);
        lemma_shown_step(pages, pages.len() - 1);
        assert(pages.take(pages.len() - 1) =~= init);
        assert(pages.take(pages.len() as int) =~= pages);
        assert forall|i: int| 0 <= i < pages.len() implies !wanted(
            m,
            started(m, pages).0,
            #[trigger] pages[i],
        ) by {
            if i < init.len() {
                assert(pages[i] == init[i]);
            }
        }
    }
}

/// A page is decoded once at a time: what is started for a list of pages
/// holds no page twice, none that is being decoded already, and no image that
/// has failed before.
pub proof fn law_one_decode_per_page(m: ThumbsModel, pages: Seq<PageShown>)
    ensures
        ({
            let list = reconciled(m, pages).1;
            &&& forall|k: int|
                0 <= k < list.len() ==> !m.decoding.contains((#[trigger] list[k]).0)
                    && !m.failed.contains((list[k].1, list[k].2))
            &&& forall|k: int, l: int|
                0 <= k < l < list.len() ==> (#[trigger] list[k]).0 != (#[trigger] list[l]).0
        }),
{
    lemma_started(m, pages);
}

/// Holding the thumbnails against the same pages again changes nothing and
/// starts nothing.
pub proof fn law_reconcile_settles(m: ThumbsModel, pages: Seq<PageShown>)
    ensures
        ({
            let once = reconciled(m, pages).0;
            reconciled(once, pages) == (once, Seq::<(PageId, Seq<u8>, u32)>::empty())
        }),
{
    let once = reconciled(m, pages).0;
    lemma_started(m, pages);
    assert forall|i: int| 0 <= i < pages.len() implies !wanted(
        once,
        once.decoding,
        #[trigger] pages[i],
    ) by {
        assert(!wanted(m, started(m, pages).0, pages[i]));
        if pages[i].image is Some {
            assert(has_image(pages[i], pages[i].id));
            assert(is_shown(pages, pages[i].id));
        }
    }
    lemma_nothing_wanted(once, pages);
    let kept = Set::new(|id: PageId| is_shown(pages, id));
    assert(once.thumbs.restrict(kept) =~= once.thumbs);
    assert(once.decoding.intersect(kept) =~= once.decoding);
}

proof fn lemma_nothing_wanted(m: ThumbsModel, pages: Seq<PageShown>)
    requires
        forall|i: int| 0 <= i < pages.len() ==> !wanted(m, m.decoding, #[trigger] pages[i]),
    ensures
        started(m, pages) == (m.decoding, Seq::<(PageId, Seq<u8>, u32)>::empty()),
    decreases pages.len(),
{
    if pages.len() > 0 {
        let init = pages.drop_last();
        assert forall|i: int| 0 <= i < init.len() implies !wanted(
            m,
            m.decoding,
            #[trigger] init[i],
        ) by {
            assert(init[i] == pages[i]);
        }
        lemma_nothing_wanted(m, init);
        assert(!wanted(m, m.decoding, pages[pages.len() - 1]));
    }
}

/// Pages that are gone leave nothing behind.
pub proof fn law_gone_pages_are_forgotten(m: ThumbsModel, pages: Seq<PageShown>, id: PageId)
    requires
        !is_shown(pages, id),
    ensures
        !reconciled(m, pages).0.thumbs.dom().contains(id),
        !reconciled(m, pages).0.decoding.contains(id),
{
}

/// A changed image is decoded again once nothing is being decoded for its page
/// any more.
pub proof fn law_changed_image_is_decoded(m: ThumbsModel, p: PageShown)
    requires
        p.image is Some,
        m.thumbs.dom().contains(p.id) ==> m.thumbs[p.id] != (p.image->0, p.image_gen),
        !m.failed.contains((p.image->0, p.image_gen)),
        !m.decoding.contains(p.id),
    ensures
        reconciled(m, seq![p]).1 == seq![(p.id, p.image->0, p.image_gen)],
{
    reveal_with_fuel(started, 2);
    assert(seq![p].drop_last() =~= Seq::empty());
}

/// At most four encodes are started per frame.
pub proof fn law_few_kicks(m: ThumbsModel, cells: Seq<(PageId, Rect)>, needs: Seq<bool>)
    ensures
        kicks(m, cells, needs).len() <= MAX_SYNC_KICKS_PER_FRAME,
    decreases cells.len(),
{
    if cells.len() > 0 {
        law_few_kicks(m, cells.drop_last(), needs);
    }
}

// --------------------------------------------------------------- editor image

/// A size in cells of the terminal.
#[derive(Debug, Clone, Copy, PartialEq, Eq, Structural)]
pub struct Cells {
    pub width: u16,
    pub height: u16,
}

/// A crop outline in pixels of the image in the editor.
pub type Outline = (u32, u32, u32, u32);

/// An encode that waits for the current one to end.
#[derive(Debug, Clone, Copy)]
pub struct QueuedEncode {
    pub cells: Cells,
    pub outline: Option<Outline>,
}

/// An encode that has to be done.
#[derive(Debug, Clone, Copy)]
pub struct EncodeJob {
    pub epoch: u64,
    pub cells: Cells,
    pub outline: Option<Outline>,
}

/// What is known of an encode that has ended.
#[derive(Debug, Clone, Copy)]
pub struct EncodedFacts {
    pub epoch: u64,
    pub cells: Cells,
    pub outline: Option<Outline>,
    /// It succeeded.
    pub ok: bool,
}

/// The bookkeeping of the image in the editor: which image it is, which encode
/// of it is displayed, and which encodes are still to come.
#[derive(Debug)]
pub struct EditorWorker {
    /// The image that is displayed.
    pub path: Option<FilePath>,
    pub gen: u32,
    /// There is something to display.
    pub display: bool,
    /// The size of the image, in pixels.
    pub orig_dims: (u32, u32),
    /// The image is there to be encoded.
    pub base: bool,
    /// Counts the decoded images. Encodes of earlier ones no longer count.
    pub epoch: u64,
    /// What the displayed encode was made for.
    pub encoded_size: Option<Cells>,
    /// The outline in the displayed encode.
    pub shown_outline: Option<Outline>,
    /// An encode is going on.
    pub in_flight: bool,
    /// The encode that comes next.
    pub queued: Option<QueuedEncode>,
}

/// The image in the editor.
#[verifier::ext_equal]
pub struct EditorImage {
    pub path: Option<Seq<u8>>,
    pub gen: u32,
    pub display: bool,
    pub orig_dims: (u32, u32),
    pub base: bool,
    pub epoch: u64,
    pub encoded_size: Option<Cells>,
    pub shown_outline: Option<Outline>,
    pub in_flight: bool,
    pub queued: Option<QueuedEncode>,
}

impl View for EditorWorker {
    type V = EditorImage;

    open spec fn view(&self) -> EditorImage {
        EditorImage {
            path: config::opt_path(self.path),
            gen: self.gen,
            display: self.display,
            orig_dims: self.orig_dims,
            base: self.base,
            epoch: self.epoch,
            encoded_size: self.encoded_size,
            shown_outline: self.shown_outline,
            in_flight: self.in_flight,
            queued: self.queued,
        }
    }
}

/// Whether an image has to be decoded: it is not the one on display.
pub open spec fn needs_decode(s: EditorImage, path: Seq<u8>, gen: u32) -> bool {
    !(s.path == Some(path) && s.gen == gen && s.display)
}

/// The number after `n`; the counter starts over at its end.
pub open spec fn next_epoch(n: u64) -> u64 {
    if n == u64::MAX {
        0
    } else {
        (n + 1) as u64
    }
}

/// An image has been decoded: it takes the place of the one on display, and
/// everything about the encodes starts anew.
pub open spec fn adopted(s: EditorImage, path: Seq<u8>, gen: u32, orig: (u32, u32)) -> EditorImage {
    EditorImage {
        path: Some(path),
        gen,
        display: true,
        orig_dims: orig,
        base: true,
        epoch: next_epoch(s.epoch),
        encoded_size: None,
        shown_outline: None,
        in_flight: false,
        queued: None,
    }
}

/// Whether the display shows just this.
pub open spec fn displays(s: EditorImage, cells: Cells, outline: Option<Outline>) -> bool {
    s.encoded_size == Some(cells) && s.shown_outline == outline
}

/// An encode is to be done, as far as there is an image.
pub open spec fn encoding(s: EditorImage, cells: Cells, outline: Option<Outline>) -> (
    EditorImage,
    Option<EncodeJob>,
) {
    if s.base {
        (
            EditorImage { in_flight: true, ..s },
            Some(EncodeJob { epoch: s.epoch, cells, outline }),
        )
    } else {
        (s, None)
    }
}

/// An encode is asked for: it begins, waits for the current one, or is not
/// needed.
pub open spec fn encode_asked(s: EditorImage, cells: Cells, outline: Option<Outline>) -> (
    EditorImage,
    Option<EncodeJob>,
) {
    if cells.width == 0 || cells.height == 0 || s.queued == Some(QueuedEncode { cells, outline })
        || displays(s, cells, outline) {
        (s, None)
    } else if s.in_flight {
        (EditorImage { queued: Some(QueuedEncode { cells, outline }), ..s }, None)
    } else {
        encoding(s, cells, outline)
    }
}

/// The encode that waits begins, once none is going on.
pub open spec fn flushed(s: EditorImage) -> (EditorImage, Option<EncodeJob>) {
    match s.queued {
        Some(q) => if s.in_flight {
            (s, None)
        } else {
            encoding(EditorImage { queued: None, ..s }, q.cells, q.outline)
        },
        None => (s, None),
    }
}

/// The last of some encodes that still counts.
pub open spec fn newest(epoch: u64, list: Seq<EncodedFacts>) -> Option<int>
    decreases list.len(),
{
    if list.len() == 0 {
        None
    } else if list.last().epoch == epoch {
        Some(list.len() - 1)
    } else {
        newest(epoch, list.drop_last())
    }
}

/// Some encodes have ended: the last one that still counts comes on display,
/// if it succeeded.
pub open spec fn encodes_ended(s: EditorImage, list: Seq<EncodedFacts>) -> (
    EditorImage,
    Option<int>,
) {
    match newest(s.epoch, list) {
        Some(i) => if list[i].ok {
            (
                EditorImage {
                    in_flight: false,
                    display: true,
                    encoded_size: Some(list[i].cells),
                    shown_outline: list[i].outline,
                    ..s
                },
                Some(i),
            )
        } else {
            (EditorImage { in_flight: false, ..s }, None)
        },
        None => (s, None),
    }
}

fn same_outline(a: Option<Outline>, b: Option<Outline>) -> (r: bool)
    ensures
        r == (a == b),
{
    match (a, b) {
        (Some(a), Some(b)) => a.0 == b.0 && a.1 == b.1 && a.2 == b.2 && a.3 == b.3,
        (None, None) => true,
        _ => false,
    }
}

impl EditorWorker {
    pub fn new() -> (r: Self)
        ensures
            r@ == (EditorImage {
                path: None,
                gen: 0,
                display: false,
                orig_dims: (0, 0),
                base: false,
                epoch: 0,
                encoded_size: None,
                shown_outline: None,
                in_flight: false,
                queued: None,
            }),
    {
        EditorWorker {
            path: None,
            gen: 0,
            display: false,
            orig_dims: (0, 0),
            base: false,
            epoch: 0,
            encoded_size: None,
            shown_outline: None,
            in_flight: false,
            queued: None,
        }
    }

    /// Whether an image is there. While a newer one is being decoded, it is
    /// the previous one.
    pub fn ready(&self) -> (r: bool)
        ensures
            r == self@.display,
    {
        self.display
    }

    /// The size of the image, in pixels.
    pub fn orig_dims(&self) -> (r: (u32, u32))
        ensures
            r == self@.orig_dims,
    {
        self.orig_dims
    }

    /// An image is to be shown. True where it has to be decoded.
    pub fn request(&self, path: &FilePath, gen: u32) -> (r: bool)
        ensures
            r == needs_decode(self@, path@, gen),
    {
        match &self.path {
            Some(p) => !(p.same(path) && self.gen == gen && self.display),
            None => true,
        }
    }

    /// An image has been decoded.
    pub fn on_decoded(&mut self, path: FilePath, gen: u32, orig: (u32, u32))
        ensures
            final(self)@ == adopted(old(self)@, path@, gen, orig),
    {
        self.path = Some(path);
        self.gen = gen;
        self.display = true;
        self.orig_dims = orig;
        self.base = true;
        self.epoch = if self.epoch == u64::MAX {
            0
        } else {
            self.epoch + 1
        };
        self.encoded_size = None;
        self.shown_outline = None;
        self.in_flight = false;
        self.queued = None;
    }

    /// Some encodes have ended, in this order. The result says which of them
    /// comes on display.
    pub fn poll_encodes(&mut self, list: &[EncodedFacts]) -> (r: Option<usize>)
        ensures
            final(self)@ == encodes_ended(old(self)@, list@).0,
            match r {
                Some(i) => encodes_ended(old(self)@, list@).1 == Some(i as int),
                None => encodes_ended(old(self)@, list@).1 is None,
            },
    {
        let mut last: Option<usize> = None;
        let mut i: usize = 0;
        let ghost all = list@;
        assert(all.take(0) =~= Seq::empty());
        while i < list.len()
            invariant
                i <= list@.len(),
                all == list@,
                *self == *old(self),
                match last {
                    Some(k) => k < i && newest(self@.epoch, all.take(i as int)) == Some(k as int),
                    None => newest(self@.epoch, all.take(i as int)) is None,
                },
            decreases list@.len() - i,
        {
            assert(all.take(i + 1).drop_last() =~= all.take(i as int));
            assert(all.take(i + 1).last() == all[i as int]);
            if list[i].epoch == self.epoch {
                last = Some(i);
            }
            i = i + 1;
        }
        assert(all.take(all.len() as int) =~= all);
        if let Some(k) = last {
            self.in_flight = false;
            let e = list[k];
            if e.ok {
                self.display = true;
                self.encoded_size = Some(e.cells);
                self.shown_outline = e.outline;
                return Some(k);
            }
        }
        None
    }

    /// An encode is to be done, as far as there is an image.
    fn start_encode(&mut self, cells: Cells, outline: Option<Outline>) -> (r: Option<EncodeJob>)
        ensures
            final(self)@ == encoding(old(self)@, cells, outline).0,
            r == encoding(old(self)@, cells, outline).1,
    {
        if !self.base {
            return None;
        }
        self.in_flight = true;
        Some(EncodeJob { epoch: self.epoch, cells, outline })
    }

    /// The encode that waits begins, once none is going on.
    pub fn flush_queue(&mut self) -> (r: Option<EncodeJob>)
        ensures
            final(self)@ == flushed(old(self)@).0,
            r == flushed(old(self)@).1,
    {
        if self.in_flight {
            return None;
        }
        match self.queued {
            Some(q) => {
                self.queued = None;
                self.start_encode(q.cells, q.outline)
            },
            None => None,
        }
    }

    /// An encode is asked for. The display stays as it is.
    pub fn request_encode(&mut self, cells: Cells, outline: Option<Outline>) -> (r: Option<
        EncodeJob,
    >)
        ensures
            final(self)@ == encode_asked(old(self)@, cells, outline).0,
            r == encode_asked(old(self)@, cells, outline).1,
    {
        if cells.width == 0 || cells.height == 0 {
            return None;
        }
        if let Some(q) = self.queued {
            if q.cells == cells && same_outline(q.outline, outline) {
                return None;
            }
        }
        if self.shown_matches(cells, outline) {
            return None;
        }
        if self.in_flight {
            self.queued = Some(QueuedEncode { cells, outline });
            return None;
        }
        self.start_encode(cells, outline)
    }

    /// Whether the display shows just this.
    pub fn shown_matches(&self, cells: Cells, outline: Option<Outline>) -> (r: bool)
        ensures
            r == displays(self@, cells, outline),
    {
        match self.encoded_size {
            Some(c) => c == cells && same_outline(self.shown_outline, outline),
            None => false,
        }
    }
}

// ---------------------------------------------------------------- editor laws

/// The display is never blanked: asking for an encode, and starting one, leave
/// it as it is.
pub proof fn law_display_never_blanks(s: EditorImage, cells: Cells, outline: Option<Outline>)
    ensures
        encode_asked(s, cells, outline).0.display == s.display,
        encode_asked(s, cells, outline).0.encoded_size == s.encoded_size,
        encode_asked(s, cells, outline).0.shown_outline == s.shown_outline,
        flushed(s).0.display == s.display,
        flushed(s).0.encoded_size == s.encoded_size,
        flushed(s).0.shown_outline == s.shown_outline,
{
}

/// One encode at a time: while one is going on, none begins.
pub proof fn law_one_encode_at_a_time(s: EditorImage, cells: Cells, outline: Option<Outline>)
    requires
        s.in_flight,
    ensures
        encode_asked(s, cells, outline).1 is None,
        flushed(s).1 is None,
        encode_asked(s, cells, outline).0.in_flight,
{
}

/// The last request wins: whatever was asked for while an encode was going on,
/// the one that was asked for last comes next.
pub proof fn law_last_request_wins(
    s: EditorImage,
    a: (Cells, Option<Outline>),
    b: (Cells, Option<Outline>),
)
    requires
        s.in_flight,
        s.base,
        b.0.width > 0,
        b.0.height > 0,
        !displays(s, b.0, b.1),
    ensures
        ({
            let t = encode_asked(encode_asked(s, a.0, a.1).0, b.0, b.1).0;
            let ended = EditorImage { in_flight: false, ..t };
            flushed(ended).1 == Some(EncodeJob { epoch: s.epoch, cells: b.0, outline: b.1 })
        }),
{
}

/// An encode that was started before an image was decoded never comes on
/// display afterwards.
pub proof fn law_stale_encodes_are_dropped(
    s: EditorImage,
    path: Seq<u8>,
    gen: u32,
    orig: (u32, u32),
    list: Seq<EncodedFacts>,
)
    requires
        forall|i: int| 0 <= i < list.len() ==> (#[trigger] list[i]).epoch == s.epoch,
    ensures
        encodes_ended(adopted(s, path, gen, orig), list) == (
            adopted(s, path, gen, orig),
            None::<int>,
        ),
{
    lemma_none_counts(next_epoch(s.epoch), list);
}

proof fn lemma_none_counts(epoch: u64, list: Seq<EncodedFacts>)
    requires
        forall|i: int| 0 <= i < list.len() ==> (#[trigger] list[i]).epoch != epoch,
    ensures
        newest(epoch, list) is None,
    decreases list.len(),
{
    if list.len() > 0 {
        let init = list.drop_last();
        assert(list[list.len() - 1].epoch != epoch);
        assert forall|i: int| 0 <= i < init.len() implies (#[trigger] init[i]).epoch != epoch by {
            assert(init[i] == list[i]);
        }
        lemma_none_counts(epoch, init);
    }
}

/// What was asked for is what comes on display: an encode that succeeds shows
/// its own size and outline, and asking for the same again does nothing.
pub proof fn law_encode_is_shown(s: EditorImage, cells: Cells, outline: Option<Outline>)
    requires
        encode_asked(s, cells, outline).1 is Some,
    ensures
        ({
            let (t, job) = encode_asked(s, cells, outline);
            let done = EncodedFacts {
                epoch: job->0.epoch,
                cells: job->0.cells,
                outline: job->0.outline,
                ok: true,
            };
            let u = encodes_ended(t, seq![done]).0;
            displays(u, cells, outline) && encode_asked(u, cells, outline) == (
                u,
                None::<EncodeJob>,
            )
        }),
{
}

// -------------------------------------------------------------------- outline

/// A block of pixels, from `x0`, `y0` to `x1`, `y1`, both included.
#[derive(Debug, Clone, Copy, PartialEq, Eq, Structural)]
pub struct Band {
    pub x0: u32,
    pub x1: u32,
    pub y0: u32,
    pub y1: u32,
}

impl Band {
    pub open spec fn covers(self, px: int, py: int) -> bool {
        self.x0 <= px <= self.x1 && self.y0 <= py <= self.y1
    }
}

/// The last pixel of a length that starts at `from`, inside an image of size
/// `size`.
pub open spec fn end_of(from: u32, len: u32, size: u32) -> int {
    let end = if from + len > u32::MAX {
        u32::MAX - 1
    } else {
        from + len - 1
    };
    if end < size - 1 {
        end
    } else {
        size - 1
    }
}

/// The first pixel of a length that starts at `from` and ends at `end`.
pub open spec fn start_of(from: u32, end: int) -> int {
    if from <= end {
        from as int
    } else {
        end
    }
}

/// How thick an outline is, at least one pixel.
pub open spec fn thick(t: u32) -> int {
    if t >= 1 {
        t as int
    } else {
        1
    }
}

/// Whether a pixel belongs to the outline of a rectangle: it lies in the
/// rectangle, and close to one of its edges.
pub open spec fn on_outline(size: (u32, u32), rect: Outline, t: u32, px: int, py: int) -> bool {
    let x2 = end_of(rect.0, rect.2, size.0);
    let y2 = end_of(rect.1, rect.3, size.1);
    let x = start_of(rect.0, x2);
    let y = start_of(rect.1, y2);
    &&& rect.2 > 0 && rect.3 > 0
    &&& x <= px <= x2
    &&& y <= py <= y2
    &&& px < x + thick(t) || px > x2 - thick(t) || py < y + thick(t) || py > y2 - thick(t)
}

/// Whether a pixel lies in one of some blocks.
pub open spec fn painted(bands: Seq<Band>, px: int, py: int) -> bool {
    exists|i: int| 0 <= i < bands.len() && (#[trigger] bands[i]).covers(px, py)
}

fn end_pixel(from: u32, len: u32, size: u32) -> (r: u32)
    requires
        size > 0,
        len > 0,
    ensures
        r == end_of(from, len, size),
        r < size,
{
    let end: u32 = if len > u32::MAX - from {
        u32::MAX - 1
    } else {
        from + len - 1
    };
    if end < size - 1 {
        end
    } else {
        size - 1
    }
}

/// The blocks of pixels that make up the outline of a rectangle in an image.
pub fn outline_bands(size: (u32, u32), rect: Outline, thickness: u32) -> (r: Vec<Band>)
    requires
        rect.2 > 0 && rect.3 > 0 ==> {
            &&& size.0 > 0 && size.1 > 0
            &&& start_of(rect.0, end_of(rect.0, rect.2, size.0)) + thick(thickness) <= u32::MAX
            &&& start_of(rect.1, end_of(rect.1, rect.3, size.1)) + thick(thickness) <= u32::MAX
        },
    ensures
        forall|px: int, py: int| #[trigger]
            painted(r@, px, py) <==> on_outline(size, rect, thickness, px, py),
        forall|px: int, py: int| #[trigger]
            painted(r@, px, py) ==> 0 <= px < size.0 && 0 <= py < size.1,
{
    let mut r: Vec<Band> = Vec::new();
    if rect.2 == 0 || rect.3 == 0 {
        return r;
    }
    let x2: u32 = end_pixel(rect.0, rect.2, size.0);
    let y2: u32 = end_pixel(rect.1, rect.3, size.1);
    let x: u32 = if rect.0 <= x2 {
        rect.0
    } else {
        x2
    };
    let y: u32 = if rect.1 <= y2 {
        rect.1
    } else {
        y2
    };
    let t: u32 = if thickness >= 1 {
        thickness
    } else {
        1
    };
    let below: u32 = y + (t - 1);
    let beside: u32 = x + (t - 1);
    let top = Band {
        x0: x,
        x1: x2,
        y0: y,
        y1: if below < y2 {
            below
        } else {
            y2
        },
    };
    let left = Band {
        x0: x,
        x1: if beside < x2 {
            beside
        } else {
            x2
        },
        y0: y,
        y1: y2,
    };
    r.push(top);
    r.push(left);
    if y2 > below {
        r.push(Band { x0: x, x1: x2, y0: y2 + 1 - t, y1: y2 });
    }
    if x2 > beside {
        r.push(Band { x0: x2 + 1 - t, x1: x2, y0: y, y1: y2 });
    }
    proof {
        assert forall|px: int, py: int| #[trigger] painted(r@, px, py) <==> on_outline(
            size,
            rect,
            thickness,
            px,
            py,
        ) by {
            if on_outline(size, rect, thickness, px, py) {
                if py < y + t {
                    assert(r@[0].covers(px, py));
                } else if px < x + t {
                    assert(r@[1].covers(px, py));
                } else if py > y2 - t {
                    assert(r@[2].covers(px, py));
                } else {
                    let last = r@.len() - 1;
                    assert(r@[last].covers(px, py));
                }
            }
            if painted(r@, px, py) {
                let i = choose|i: int| 0 <= i < r@.len() && (#[trigger] r@[i]).covers(px, py);
                assert(i == 0 || i == 1 || i == 2 || i == 3);
            }
        }
    }
    r
}

} // verus!
