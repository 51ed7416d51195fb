//! What lies over the main view and takes all input first: help,
//! diagnostics, the language picker and questions.

use vstd::prelude::*;

use crate::backend::pdf::CropRect;
use crate::path;
use crate::path::FilePath;
use crate::session::PageId;
use crate::text;
use crate::text::{
    cat, cat3, cat5, has_text, join_texts, position_of, sort_texts, split_text, u64_text,
};
use crate::tui::input::{Key, KeyCode, Mouse, MouseKind, Rect};

verus! {

/// What a question leads to when it is answered with yes.
#[derive(Debug)]
pub enum ConfirmKind {
    Quit,
    /// Build the document at a place.
    Finish { out: FilePath, overwrite: bool },
    NewSession,
    DeletePage(PageId),
    DeleteBusy,
    /// Cut a page down to a rectangle.
    Crop { id: PageId, rect: CropRect },
}

/// What a question leads to, with the path as bytes.
#[verifier::ext_equal]
pub enum ConfirmKindView {
    Quit,
    Finish { out: Seq<u8>, overwrite: bool },
    NewSession,
    DeletePage(PageId),
    DeleteBusy,
    Crop { id: PageId, rect: CropRect },
}

impl View for ConfirmKind {
    type V = ConfirmKindView;

    open spec fn view(&self) -> ConfirmKindView {
        match *self {
            ConfirmKind::Quit => ConfirmKindView::Quit,
            ConfirmKind::Finish { out, overwrite } => ConfirmKindView::Finish {
                out: out@,
                overwrite,
            },
            ConfirmKind::NewSession => ConfirmKindView::NewSession,
            ConfirmKind::DeletePage(id) => ConfirmKindView::DeletePage(id),
            ConfirmKind::DeleteBusy => ConfirmKindView::DeleteBusy,
            ConfirmKind::Crop { id, rect } => ConfirmKindView::Crop { id, rect },
        }
    }
}

/// A question.
#[derive(Debug)]
pub struct Confirm {
    pub kind: ConfirmKind,
    pub title: String,
    pub lines: Vec<String>,
    pub accept_label: String,
}

/// A question, with text as sequences of characters.
#[verifier::ext_equal]
pub struct ConfirmView {
    pub kind: ConfirmKindView,
    pub title: Seq<char>,
    pub lines: Seq<Seq<char>>,
    pub accept_label: Seq<char>,
}

impl View for Confirm {
    type V = ConfirmView;

    open spec fn view(&self) -> ConfirmView {
        ConfirmView {
            kind: self.kind@,
            title: self.title@,
            lines: text::texts(self.lines@),
            accept_label: self.accept_label@,
        }
    }
}

/// The question before the program ends.
pub open spec fn quit_question() -> ConfirmView {
    ConfirmView {
        kind: ConfirmKindView::Quit,
        title: "Quit?"@,
        lines: seq![
            "Pages exist that are not part of a built PDF."@,
            "They will be lost."@,
        ],
        accept_label: "y quit anyway"@,
    }
}

/// The question before the document is built at a place.
pub open spec fn finish_question(out: Seq<u8>) -> ConfirmView {
    ConfirmView {
        kind: ConfirmKindView::Finish { out, overwrite: false },
        title: "Build searchable PDF?"@,
        lines: seq![
            "Output: "@ + path::lossy(out),
            "OCR runs over all pages; this can take a while."@,
        ],
        accept_label: "Enter build"@,
    }
}

/// The question before a session is dropped.
pub open spec fn new_session_question() -> ConfirmView {
    ConfirmView {
        kind: ConfirmKindView::NewSession,
        title: "Start a new session?"@,
        lines: seq!["All scanned pages of this session will be dropped."@],
        accept_label: "y new session"@,
    }
}

/// The question before a page is deleted.
pub open spec fn delete_question(id: PageId) -> ConfirmView {
    ConfirmView {
        kind: ConfirmKindView::DeletePage(id),
        title: "Delete page "@ + text::dec(id as nat) + "?"@,
        lines: seq!["The scanned image will be removed."@],
        accept_label: "y delete"@,
    }
}

/// The question before a page is deleted that is being worked on.
pub open spec fn delete_busy_question() -> ConfirmView {
    ConfirmView {
        kind: ConfirmKindView::DeleteBusy,
        title: "Delete page while it is processing?"@,
        lines: seq!["The running job will be cancelled."@],
        accept_label: "y delete"@,
    }
}

/// The question before a page is cut down.
pub open spec fn crop_question(id: PageId, rect: CropRect) -> ConfirmView {
    ConfirmView {
        kind: ConfirmKindView::Crop { id, rect },
        title: "Crop page "@ + text::dec(id as nat) + "?"@,
        lines: seq![
            "Keep "@ + text::dec(rect.w as nat) + "x"@ + text::dec(rect.h as nat)
                + " px of the page; removed pixels are"@,
            "discarded (rescan restores them)."@,
        ],
        accept_label: "Enter crop"@,
    }
}

fn one_line(a: &str) -> (r: Vec<String>)
    ensures
        text::texts(r@) == seq![a@],
{
    let r = vec![a.to_owned()];
    assert(text::texts(r@) =~= seq![a@]);
    r
}

fn two_lines(a: &str, b: &str) -> (r: Vec<String>)
    ensures
        text::texts(r@) == seq![a@, b@],
{
    let r = vec![a.to_owned(), b.to_owned()];
    assert(text::texts(r@) =~= seq![a@, b@]);
    r
}

impl Confirm {
    pub fn quit() -> (r: Self)
        ensures
            r@ == quit_question(),
    {
        Confirm {
            kind: ConfirmKind::Quit,
            title: "Quit?".to_owned(),
            lines: two_lines(
                "Pages exist that are not part of a built PDF.",
                "They will be lost.",
            ),
            accept_label: "y quit anyway".to_owned(),
        }
    }

    pub fn finish(out: FilePath) -> (r: Self)
        ensures
            r@ == finish_question(out@),
    {
        let line = cat("Output: ", out.display().as_str());
        Confirm {
            kind: ConfirmKind::Finish { out, overwrite: false },
            title: "Build searchable PDF?".to_owned(),
            lines: two_lines(line.as_str(), "OCR runs over all pages; this can take a while."),
            accept_label: "Enter build".to_owned(),
        }
    }

    pub fn new_session() -> (r: Self)
        ensures
            r@ == new_session_question(),
    {
        Confirm {
            kind: ConfirmKind::NewSession,
            title: "Start a new session?".to_owned(),
            lines: one_line("All scanned pages of this session will be dropped."),
            accept_label: "y new session".to_owned(),
        }
    }

    pub fn delete_page(id: PageId) -> (r: Self)
        ensures
            r@ == delete_question(id),
    {
        Confirm {
            kind: ConfirmKind::DeletePage(id),
            title: cat3("Delete page ", u64_text(id as u64).as_str(), "?"),
            lines: one_line("The scanned image will be removed."),
            accept_label: "y delete".to_owned(),
        }
    }

    pub fn delete_busy() -> (r: Self)
        ensures
            r@ == delete_busy_question(),
    {
        Confirm {
            kind: ConfirmKind::DeleteBusy,
            title: "Delete page while it is processing?".to_owned(),
            lines: one_line("The running job will be cancelled."),
            accept_label: "y delete".to_owned(),
        }
    }

    pub fn crop(id: PageId, rect: CropRect) -> (r: Self)
        ensures
            r@ == crop_question(id, rect),
    {
        let line = cat5(
            "Keep ",
            u64_text(rect.w as u64).as_str(),
            "x",
            u64_text(rect.h as u64).as_str(),
            " px of the page; removed pixels are",
        );
        Confirm {
            kind: ConfirmKind::Crop { id, rect },
            title: cat3("Crop page ", u64_text(id as u64).as_str(), "?"),
            lines: two_lines(line.as_str(), "discarded (rescan restores them)."),
            accept_label: "Enter crop".to_owned(),
        }
    }
}

// ------------------------------------------------------------ language picker

/// The choice of OCR languages.
#[derive(Debug)]
pub struct LangPicker {
    pub available: Vec<String>,
    pub selected: Vec<String>,
    pub cursor: usize,
    pub loading: bool,
}

/// The choice of OCR languages, with text as sequences of characters.
#[verifier::ext_equal]
pub struct LangPickerView {
    pub available: Seq<Seq<char>>,
    pub selected: Seq<Seq<char>>,
    pub cursor: nat,
    pub loading: bool,
}

impl View for LangPicker {
    type V = LangPickerView;

    open spec fn view(&self) -> LangPickerView {
        LangPickerView {
            available: text::texts(self.available@),
            selected: text::texts(self.selected@),
            cursor: self.cursor as nat,
            loading: self.loading,
        }
    }
}

/// The choice before the installed languages are known.
pub open spec fn picker_opened(current: Seq<char>) -> LangPickerView {
    LangPickerView {
        available: Seq::empty(),
        selected: text::split(current, '+'),
        cursor: 0,
        loading: true,
    }
}

/// Some languages, with the missing ones of others behind them.
pub open spec fn with_missing(langs: Seq<Seq<char>>, wanted: Seq<Seq<char>>) -> Seq<Seq<char>>
    decreases wanted.len(),
{
    if wanted.len() == 0 {
        langs
    } else {
        let rest = with_missing(langs, wanted.drop_last());
        if rest.contains(wanted.last()) {
            rest
        } else {
            rest.push(wanted.last())
        }
    }
}

/// The choice once the installed languages are known: they are offered in
/// order, together with those that are chosen but not installed, and the
/// cursor is on the first chosen one.
pub open spec fn langs_known(p: LangPickerView, langs: Seq<Seq<char>>, q: LangPickerView) -> bool {
    &&& text::sorted_from(q.available, with_missing(langs, p.selected))
    &&& q.selected == p.selected
    &&& !q.loading
    &&& q.cursor == (if p.selected.len() > 0 && text::first_at(
        q.available,
        p.selected[0],
    ) is Some {
        text::first_at(q.available, p.selected[0])->0 as nat
    } else {
        p.cursor
    })
}

/// The choice after the language under the cursor was chosen, or not any
/// more.
pub open spec fn toggled(p: LangPickerView) -> LangPickerView {
    if p.cursor < p.available.len() {
        let lang = p.available[p.cursor as int];
        LangPickerView {
            selected: match text::first_at(p.selected, lang) {
                Some(i) => p.selected.remove(i),
                None => p.selected.push(lang),
            },
            ..p
        }
    } else {
        p
    }
}

impl LangPicker {
    pub fn new(current: &str) -> (r: Self)
        ensures
            r@ == picker_opened(current@),
    {
        let r = LangPicker {
            available: Vec::new(),
            selected: split_text(current, '+'),
            cursor: 0,
            loading: true,
        };
        assert(r@.available =~= Seq::empty());
        r
    }

    /// The installed languages are known.
    pub fn set_available(&mut self, langs: Vec<String>)
        ensures
            langs_known(old(self)@, text::texts(langs@), final(self)@),
    {
        let mut all = langs;
        let ghost start = text::texts(all@);
        let ghost wanted = text::texts(self.selected@);
        let mut i: usize = 0;
        assert(text::texts(all@) =~= with_missing(start, wanted.take(0)));
        while i < self.selected.len()
            invariant
                i <= self.selected@.len(),
                wanted == text::texts(self.selected@),
                text::texts(all@) == with_missing(start, wanted.take(i as int)),
                *self == *old(self),
            decreases self.selected@.len() - i,
        {
            let ghost before = all@;
            assert(wanted.take(i + 1).drop_last() =~= wanted.take(i as int));
            assert(wanted.take(i + 1).last() == self.selected@[i as int]@);
            if !has_text(all.as_slice(), self.selected[i].as_str()) {
                all.push(self.selected[i].clone());
                assert(text::texts(all@) =~= text::texts(before).push(wanted[i as int]));
            }
            i = i + 1;
        }
        assert(wanted.take(wanted.len() as int) =~= wanted);
        self.available = sort_texts(all);
        self.loading = false;
        if self.selected.len() > 0 {
            assert(wanted[0] == self.selected@[0]@);
            if let Some(k) = position_of(self.available.as_slice(), self.selected[0].as_str()) {
                self.cursor = k;
            }
        }
    }

    /// The choice as the OCR engine takes it.
    pub fn result(&self) -> (r: String)
        ensures
            r@ == text::join(self@.selected, "+"@),
    {
        join_texts(self.selected.as_slice(), "+")
    }

    /// The language under the cursor is chosen, or not any more.
    pub fn toggle(&mut self)
        ensures
            final(self)@ == toggled(old(self)@),
    {
        if self.cursor < self.available.len() {
            let lang = self.available[self.cursor].clone();
            assert(self@.available[self.cursor as int] == lang@);
            match position_of(self.selected.as_slice(), lang.as_str()) {
                Some(i) => {
                    self.selected.remove(i);
                    assert(self@.selected =~= old(self)@.selected.remove(i as int));
                },
                None => {
                    self.selected.push(lang);
                    assert(self@.selected =~= old(self)@.selected.push(lang@));
                },
            }
        }
    }
}

/// The choice that the configuration held is the result as long as nothing
/// is changed.
pub proof fn law_picker_starts_with_current(current: Seq<char>)
    ensures
        text::join(picker_opened(current).selected, "+"@) == current,
{
    reveal_strlit("+");
    assert("+"@ =~= seq!['+']);
    text::law_join_split(current, '+');
}

proof fn lemma_first_at_bounds(list: Seq<Seq<char>>, s: Seq<char>)
    ensures
        match text::first_at(list, s) {
            Some(i) => 0 <= i < list.len() && list[i] == s,
            None => !list.contains(s),
        },
    decreases list.len(),
{
    if list.len() > 0 {
        let init = list.drop_last();
        lemma_first_at_bounds(init, s);
        if text::first_at(list, s) is None {
            assert forall|i: int| 0 <= i < list.len() implies list[i] != s by {
                if i < init.len() {
                    assert(init[i] == list[i]);
                }
            }
        }
    }
}

proof fn lemma_first_at_push(list: Seq<Seq<char>>, s: Seq<char>)
    requires
        text::first_at(list, s) is None,
    ensures
        text::first_at(list.push(s), s) == Some(list.len() as int),
{
    assert(list.push(s).drop_last() =~= list);
}

/// Choosing a language and taking it back changes nothing.
pub proof fn law_toggle_twice(p: LangPickerView)
    requires
        p.cursor < p.available.len(),
        text::first_at(p.selected, p.available[p.cursor as int]) is None,
    ensures
        toggled(toggled(p)) == p,
{
    let lang = p.available[p.cursor as int];
    lemma_first_at_push(p.selected, lang);
    assert(p.selected.push(lang).remove(p.selected.len() as int) =~= p.selected);
}

/// Every chosen language is offered once the installed ones are known, also
/// one that is not installed.
pub proof fn law_chosen_is_offered(
    p: LangPickerView,
    langs: Seq<Seq<char>>,
    q: LangPickerView,
    k: int,
)
    requires
        langs_known(p, langs, q),
        0 <= k < p.selected.len(),
    ensures
        q.available.contains(p.selected[k]),
{
    let all = with_missing(langs, p.selected);
    lemma_with_missing(langs, p.selected, k);
    let s = p.selected[k];
    all.to_multiset_ensures();
    q.available.to_multiset_ensures();
    assert(all.to_multiset().count(s) > 0);
    assert(q.available.to_multiset().count(s) > 0);
}

proof fn lemma_with_missing(langs: Seq<Seq<char>>, wanted: Seq<Seq<char>>, k: int)
    requires
        0 <= k < wanted.len(),
    ensures
        with_missing(langs, wanted).contains(wanted[k]),
    decreases wanted.len(),
{
    let init = wanted.drop_last();
    let rest = with_missing(langs, init);
    let all = with_missing(langs, wanted);
    if k < init.len() {
        lemma_with_missing(langs, init, k);
        assert(init[k] == wanted[k]);
        let j = choose|j: int| 0 <= j < rest.len() && rest[j] == wanted[k];
        assert(all[j] == wanted[k]);
    } else if !rest.contains(wanted.last()) {
        assert(all[all.len() - 1] == wanted[k]);
    }
}

// -------------------------------------------------------------------- overlay

/// What lies over the main view.
#[derive(Debug)]
pub enum Overlay {
    Help,
    Diagnostics,
    LangPicker(LangPicker),
    Confirm(Confirm),
}

/// What lies over the main view, with text as sequences of characters.
#[verifier::ext_equal]
pub enum OverlayView {
    Help,
    Diagnostics,
    LangPicker(LangPickerView),
    Confirm(ConfirmView),
}

impl View for Overlay {
    type V = OverlayView;

    open spec fn view(&self) -> OverlayView {
        match *self {
            Overlay::Help => OverlayView::Help,
            Overlay::Diagnostics => OverlayView::Diagnostics,
            Overlay::LangPicker(p) => OverlayView::LangPicker(p@),
            Overlay::Confirm(c) => OverlayView::Confirm(c@),
        }
    }
}

/// What a key in an overlay leads to.
#[derive(Debug)]
pub enum OverlayReply {
    /// The overlay stays.
    Keep,
    /// The overlay goes.
    Close,
    /// The overlay stays, and the checks are to be made again.
    RunChecks,
    /// The overlay goes, and these languages are to be used.
    SetLangs(String),
    /// The overlay goes; the question was answered with yes.
    Accept(ConfirmKind),
}

/// A reply, with text as sequences of characters.
#[verifier::ext_equal]
pub enum OverlayReplyView {
    Keep,
    Close,
    RunChecks,
    SetLangs(Seq<char>),
    Accept(ConfirmKindView),
}

impl View for OverlayReply {
    type V = OverlayReplyView;

    open spec fn view(&self) -> OverlayReplyView {
        match *self {
            OverlayReply::Keep => OverlayReplyView::Keep,
            OverlayReply::Close => OverlayReplyView::Close,
            OverlayReply::RunChecks => OverlayReplyView::RunChecks,
            OverlayReply::SetLangs(s) => OverlayReplyView::SetLangs(s@),
            OverlayReply::Accept(k) => OverlayReplyView::Accept(k@),
        }
    }
}

pub open spec fn help_key(code: KeyCode) -> OverlayReplyView {
    if code == KeyCode::Esc || code == KeyCode::Char('?') || code == KeyCode::Char('q') {
        OverlayReplyView::Close
    } else {
        OverlayReplyView::Keep
    }
}

pub open spec fn diagnostics_key(code: KeyCode) -> OverlayReplyView {
    if code == KeyCode::Esc || code == KeyCode::Char('!') || code == KeyCode::Char('q') {
        OverlayReplyView::Close
    } else if code == KeyCode::Char('r') || code == KeyCode::Char('R') {
        OverlayReplyView::RunChecks
    } else {
        OverlayReplyView::Keep
    }
}

/// What a key in the language picker does: an empty choice is not taken over.
pub open spec fn picker_key(p: LangPickerView, code: KeyCode) -> (LangPickerView, OverlayReplyView) {
    if code == KeyCode::Esc || code == KeyCode::Char('q') {
        (p, OverlayReplyView::Close)
    } else if code == KeyCode::Up || code == KeyCode::Char('k') {
        (
            LangPickerView {
                cursor: if p.cursor > 0 {
                    (p.cursor - 1) as nat
                } else {
                    0
                },
                ..p
            },
            OverlayReplyView::Keep,
        )
    } else if code == KeyCode::Down || code == KeyCode::Char('j') {
        (
            LangPickerView {
                cursor: if p.cursor + 1 < p.available.len() {
                    p.cursor + 1
                } else {
                    p.cursor
                },
                ..p
            },
            OverlayReplyView::Keep,
        )
    } else if code == KeyCode::Char(' ') {
        (toggled(p), OverlayReplyView::Keep)
    } else if code == KeyCode::Enter {
        (
            p,
            if p.selected.len() == 0 {
                OverlayReplyView::Close
            } else {
                OverlayReplyView::SetLangs(text::join(p.selected, "+"@))
            },
        )
    } else {
        (p, OverlayReplyView::Keep)
    }
}

/// What a key does to a question.
pub open spec fn confirm_key(kind: ConfirmKindView, code: KeyCode) -> OverlayReplyView {
    if code == KeyCode::Esc || code == KeyCode::Char('q') || code == KeyCode::Char('n') {
        OverlayReplyView::Close
    } else if code == KeyCode::Char('y') || code == KeyCode::Char('Y') || code == KeyCode::Enter {
        OverlayReplyView::Accept(kind)
    } else {
        OverlayReplyView::Keep
    }
}

/// What a key does in an overlay.
pub open spec fn overlay_key(o: OverlayView, code: KeyCode) -> (OverlayView, OverlayReplyView) {
    match o {
        OverlayView::Help => (o, help_key(code)),
        OverlayView::Diagnostics => (o, diagnostics_key(code)),
        OverlayView::LangPicker(p) => (
            OverlayView::LangPicker(picker_key(p, code).0),
            picker_key(p, code).1,
        ),
        OverlayView::Confirm(c) => (o, confirm_key(c.kind, code)),
    }
}

fn copy_kind(k: &ConfirmKind) -> (r: ConfirmKind)
    ensures
        r@ == k@,
{
    match k {
        ConfirmKind::Quit => ConfirmKind::Quit,
        ConfirmKind::Finish { out, overwrite } => ConfirmKind::Finish {
            out: out.clone(),
            overwrite: *overwrite,
        },
        ConfirmKind::NewSession => ConfirmKind::NewSession,
        ConfirmKind::DeletePage(id) => ConfirmKind::DeletePage(*id),
        ConfirmKind::DeleteBusy => ConfirmKind::DeleteBusy,
        ConfirmKind::Crop { id, rect } => ConfirmKind::Crop { id: *id, rect: *rect },
    }
}

impl LangPicker {
    fn handle_key(&mut self, code: KeyCode) -> (r: OverlayReply)
        ensures
            final(self)@ == picker_key(old(self)@, code).0,
            r@ == picker_key(old(self)@, code).1,
    {
        if code == KeyCode::Esc || code == KeyCode::Char('q') {
            OverlayReply::Close
        } else if code == KeyCode::Up || code == KeyCode::Char('k') {
            if self.cursor > 0 {
                self.cursor = self.cursor - 1;
            }
            OverlayReply::Keep
        } else if code == KeyCode::Down || code == KeyCode::Char('j') {
            let n: usize = self.available.len();
            if self.cursor < n && self.cursor + 1 < n {
                self.cursor = self.cursor + 1;
            }
            OverlayReply::Keep
        } else if code == KeyCode::Char(' ') {
            self.toggle();
            OverlayReply::Keep
        } else if code == KeyCode::Enter {
            if self.selected.len() == 0 {
                OverlayReply::Close
            } else {
                OverlayReply::SetLangs(self.result())
            }
        } else {
            OverlayReply::Keep
        }
    }
}

/// A key was pressed in an overlay.
pub fn handle_key(overlay: &mut Overlay, key: Key) -> (r: OverlayReply)
    ensures
        final(overlay)@ == overlay_key(old(overlay)@, key.code).0,
        r@ == overlay_key(old(overlay)@, key.code).1,
{
    let code = key.code;
    match overlay {
        Overlay::Help => if code == KeyCode::Esc || code == KeyCode::Char('?') || code
            == KeyCode::Char('q') {
            OverlayReply::Close
        } else {
            OverlayReply::Keep
        },
        Overlay::Diagnostics => if code == KeyCode::Esc || code == KeyCode::Char('!') || code
            == KeyCode::Char('q') {
            OverlayReply::Close
        } else if code == KeyCode::Char('r') || code == KeyCode::Char('R') {
            OverlayReply::RunChecks
        } else {
            OverlayReply::Keep
        },
        Overlay::LangPicker(picker) => picker.handle_key(code),
        Overlay::Confirm(c) => if code == KeyCode::Esc || code == KeyCode::Char('q') || code
            == KeyCode::Char('n') {
            OverlayReply::Close
        } else if code == KeyCode::Char('y') || code == KeyCode::Char('Y') || code
            == KeyCode::Enter {
            OverlayReply::Accept(copy_kind(&c.kind))
        } else {
            OverlayReply::Keep
        },
    }
}

/// Whether an overlay stays when the mouse does something: only a left click
/// outside of it closes it, and never the diagnostics.
pub open spec fn mouse_keeps(o: OverlayView, rect: Option<Rect>, m: Mouse) -> bool {
    ||| m.kind != MouseKind::DownLeft
    ||| rect is None
    ||| rect->0.width == 0
    ||| rect->0.height == 0
    ||| rect->0.has(m.column, m.row)
    ||| o is Diagnostics
}

/// Whether an overlay stays when the mouse does something. The rectangle is
/// where the overlay was last drawn.
pub fn handle_mouse(overlay: &Overlay, rect: Option<Rect>, mouse: Mouse) -> (r: bool)
    ensures
        r == mouse_keeps(overlay@, rect, mouse),
{
    if mouse.kind != MouseKind::DownLeft {
        return true;
    }
    match rect {
        None => true,
        Some(q) => {
            if q.width == 0 || q.height == 0 {
                return true;
            }
            let diagnostics = match overlay {
                Overlay::Diagnostics => true,
                _ => false,
            };
            q.contains(mouse.column, mouse.row) || diagnostics
        },
    }
}

/// Only a left click can close an overlay with the mouse: movement, releases,
/// drags and scrolling never do.
pub proof fn law_only_clicks_close(o: OverlayView, rect: Option<Rect>, m: Mouse)
    ensures
        !mouse_keeps(o, rect, m) ==> m.kind == MouseKind::DownLeft && !(o is Diagnostics),
{
}

} // verus!
