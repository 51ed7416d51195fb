//! The texts of the screen, in the order in which they are written, each with
//! the name of its style.

use vstd::prelude::*;
use vstd::utf8::*;

use crate::config::{PreviewOcr, PROGRAM};
use crate::session::model as session_model;
use crate::session::model::PageShown;
use crate::session::{Busy, PageId, PageStatus, PageView};
use crate::text;
use crate::text::{cat, cat3, cat5, lines_of, padded_left, repeated, u64_text};
use crate::tui::app::{Action, App};
use crate::tui::model;
use crate::tui::model::AppModel;
use crate::tui::theme::Paint;

verus! {

/// A piece of text in one style.
#[derive(Debug)]
pub struct Span {
    pub text: String,
    pub paint: Paint,
}

/// A piece of text in one style, with text as a sequence of characters.
#[verifier::ext_equal]
pub struct SpanView {
    pub text: Seq<char>,
    pub paint: Paint,
}

impl View for Span {
    type V = SpanView;

    open spec fn view(&self) -> SpanView {
        SpanView { text: self.text@, paint: self.paint }
    }
}

pub open spec fn piece(text: Seq<char>, paint: Paint) -> SpanView {
    SpanView { text, paint }
}

/// The pieces of a line.
pub open spec fn spans(v: Seq<Span>) -> Seq<SpanView> {
    v.map_values(|s: Span| s@)
}

/// Several lines.
pub open spec fn span_lines(v: Seq<Vec<Span>>) -> Seq<Seq<SpanView>> {
    v.map_values(|l: Vec<Span>| spans(l@))
}

pub(crate) fn span(text: String, paint: Paint) -> (r: Span)
    ensures
        r@ == piece(text@, paint),
{
    Span { text, paint }
}

pub(crate) fn lit(text: &str, paint: Paint) -> (r: Span)
    ensures
        r@ == piece(text@, paint),
{
    Span { text: text.to_owned(), paint }
}

pub(crate) fn line1(a: Span) -> (r: Vec<Span>)
    ensures
        spans(r@) == seq![a@],
{
    let r = vec![a];
    assert(spans(r@) =~= seq![a@]);
    r
}

pub(crate) fn add_span(v: &mut Vec<Span>, a: Span)
    ensures
        spans(final(v)@) == spans(old(v)@).push(a@),
{
    v.push(a);
    assert(spans(v@) =~= spans(old(v)@).push(a@));
}

pub(crate) fn add_line(v: &mut Vec<Vec<Span>>, a: Vec<Span>)
    ensures
        span_lines(final(v)@) == span_lines(old(v)@).push(spans(a@)),
{
    v.push(a);
    assert(span_lines(v@) =~= span_lines(old(v)@).push(spans(a@)));
}

/// A number cut down to sixteen bits.
pub open spec fn low16(n: nat) -> nat {
    n % 65536
}

/// The length of a text in bytes, cut down to sixteen bits.
pub open spec fn size16(s: Seq<char>) -> nat {
    low16(encode_utf8(s).len())
}

pub(crate) fn bytes16(s: &str) -> (r: u16)
    ensures
        r == size16(s@),
{
    let n: usize = s.as_bytes_vec().len();
    (n % 65536) as u16
}

/// The seconds from one time in milliseconds to another.
pub open spec fn seconds(since: Option<u64>, now: u64) -> nat {
    match since {
        Some(t) => if now >= t {
            ((now - t) / 1000) as nat
        } else {
            0
        },
        None => 0,
    }
}

fn seconds_since(since: Option<u64>, now: u64) -> (r: u64)
    ensures
        r == seconds(since, now),
{
    match since {
        Some(t) => if now >= t {
            (now - t) / 1000
        } else {
            0
        },
        None => 0,
    }
}

// --------------------------------------------------------------------- header

/// The left end of the header: the program and the settings.
pub open spec fn header_title(s: AppModel) -> Seq<char> {
    " "@ + PROGRAM@ + " "@ + text::dec(s.dpi as nat) + "dpi "@ + s.mode + " "@ + s.cfg.langs + (
    if s.meta is Some && s.meta->0.dirty {
        " ●"@
    } else {
        ""@
    }) + " "@
}

/// How many spaces stand between two texts in a row.
pub open spec fn gap(width: u16, left: Seq<char>, right: Seq<char>) -> nat {
    let used = size16(left) + size16(right);
    if used <= width {
        (width - used) as nat
    } else {
        0
    }
}

/// The header: the settings on the left, the scanner on the right.
pub open spec fn header_line(s: AppModel, width: u16) -> Seq<SpanView> {
    let title = header_title(s);
    let device = s.device_label + " "@;
    seq![
        piece(title, Paint::Header),
        piece(Seq::new(gap(width, title, device), |i: int| ' '), Paint::HeaderFiller),
        piece(device, Paint::HeaderFiller),
    ]
}

/// The header, for a row of the given width.
pub fn header_spans(app: &App, width: u16) -> (r: Vec<Span>)
    ensures
        spans(r@) == header_line(app@, width),
{
    let dirty = match &app.meta {
        Some(m) => m.dirty,
        None => false,
    };
    let head = cat5(" ", PROGRAM, " ", u64_text(app.settings.dpi as u64).as_str(), "dpi ");
    let tail = cat5(
        app.settings.mode.as_str(),
        " ",
        app.cfg.langs.as_str(),
        if dirty {
            " ●"
        } else {
            ""
        },
        " ",
    );
    let title = cat(head.as_str(), tail.as_str());
    assert(title@ =~= header_title(app@));
    let device = cat(app.device_label.as_str(), " ");
    let used: u32 = bytes16(title.as_str()) as u32 + bytes16(device.as_str()) as u32;
    let gap: usize = if used <= width as u32 {
        (width as u32 - used) as usize
    } else {
        0
    };
    let r = vec![
        span(title, Paint::Header),
        span(repeated(' ', gap), Paint::HeaderFiller),
        span(device, Paint::HeaderFiller),
    ];
    assert(spans(r@) =~= header_line(app@, width));
    r
}

// -------------------------------------------------------------------- sidebar

/// The state of a page, as the page list shows it.
pub open spec fn badge(p: PageShown, now: u64) -> SpanView {
    match p.status {
        PageStatus::Ready => piece(" ready "@, Paint::BadgeOk),
        PageStatus::Failed => piece(" FAILED "@, Paint::BadgeFail),
        PageStatus::DeletePending => piece(" deleting "@, Paint::BadgeMuted),
        _ => piece(
            " "@ + session_model::status_name(p.status, p.stage) + " "@ + text::pad_left(
                text::dec(seconds(p.stage_started, now)),
                3,
                ' ',
            ) + "s "@,
            Paint::BadgeBusy,
        ),
    }
}

/// The state of a page, with the seconds since the current stage started.
pub fn page_badge(page: &PageView, now: u64) -> (r: Span)
    ensures
        r@ == badge(page@, now),
{
    match page.status {
        PageStatus::Ready => lit(" ready ", Paint::BadgeOk),
        PageStatus::Failed => lit(" FAILED ", Paint::BadgeFail),
        PageStatus::DeletePending => lit(" deleting ", Paint::BadgeMuted),
        _ => {
            let secs = u64_text(seconds_since(page.stage_started, now));
            let t = cat5(
                " ",
                page.stage_label().as_str(),
                " ",
                padded_left(secs.as_str(), 3, ' ').as_str(),
                "s ",
            );
            span(t, Paint::BadgeBusy)
        },
    }
}

/// A row of the page list.
pub open spec fn row(i: nat, selected: bool, p: PageShown, now: u64) -> Seq<SpanView> {
    seq![
        piece(
            text::pad_left(text::dec(i + 1), 2, ' ') + ". "@,
            if selected {
                Paint::Bold
            } else {
                Paint::Plain
            },
        ),
        badge(p, now),
        piece(" "@, Paint::Plain),
        piece(text::dec(p.dpi as nat) + "dpi "@ + p.mode, Paint::Muted),
        piece(
            if p.rotated {
                " ↻"@
            } else {
                ""@
            },
            Paint::Rotated,
        ),
    ]
}

/// A row of the page list.
pub fn page_row(i: usize, selected: bool, page: &PageView, now: u64) -> (r: Vec<Span>)
    requires
        i < usize::MAX,
    ensures
        spans(r@) == row(i as nat, selected, page@, now),
{
    let num = u64_text(i as u64 + 1);
    let num = cat(padded_left(num.as_str(), 2, ' ').as_str(), ". ");
    let settings = cat3(u64_text(page.dpi as u64).as_str(), "dpi ", page.mode.as_str());
    let r = vec![
        span(
            num,
            if selected {
                Paint::Bold
            } else {
                Paint::Plain
            },
        ),
        page_badge(page, now),
        lit(" ", Paint::Plain),
        span(settings, Paint::Muted),
        lit(
            if page.rotated {
                " ↻"
            } else {
                ""
            },
            Paint::Rotated,
        ),
    ];
    assert(spans(r@) =~= row(i as nat, selected, page@, now));
    r
}

/// What the page list shows while there are no pages.
pub open spec fn no_pages() -> Seq<Seq<SpanView>> {
    seq![
        seq![piece(""@, Paint::Plain)],
        seq![piece("No pages yet."@, Paint::Plain)],
        seq![piece(""@, Paint::Plain)],
        seq![piece("Press s to scan your first page."@, Paint::Plain)],
        seq![piece("Press ? for help, ! for diagnostics."@, Paint::Plain)],
    ]
}

/// The page list.
pub open spec fn sidebar(s: AppModel, now: u64) -> Seq<Seq<SpanView>> {
    if s.pages.len() == 0 {
        no_pages()
    } else {
        Seq::new(
            s.pages.len(),
            |i: int| row(i as nat, i == s.selected, s.pages[i], now),
        )
    }
}

/// The page list: one row per page, or what to do where there is none.
pub fn sidebar_lines(app: &App, now: u64) -> (r: Vec<Vec<Span>>)
    ensures
        span_lines(r@) == sidebar(app@, now),
{
    if app.pages.len() == 0 {
        let r = vec![
            line1(lit("", Paint::Plain)),
            line1(lit("No pages yet.", Paint::Plain)),
            line1(lit("", Paint::Plain)),
            line1(lit("Press s to scan your first page.", Paint::Plain)),
            line1(lit("Press ? for help, ! for diagnostics.", Paint::Plain)),
        ];
        assert(span_lines(r@) =~= no_pages());
        return r;
    }
    let n: usize = app.pages.len();
    let ghost full = sidebar(app@, now);
    let mut r: Vec<Vec<Span>> = Vec::new();
    assert(span_lines(r@) =~= full.take(0));
    let mut i: usize = 0;
    while i < n
        invariant
            i <= n,
            n == app.pages@.len(),
            full == sidebar(app@, now),
            full.len() == n,
            span_lines(r@) == full.take(i as int),
        decreases n - i,
    {
        let line = page_row(i, i == app.selected, &app.pages[i], now);
        assert(app@.pages[i as int] == app.pages@[i as int]@);
        assert(full.take(i + 1) =~= full.take(i as int).push(full[i as int]));
        add_line(&mut r, line);
        i = i + 1;
    }
    assert(full.take(n as int) =~= full);
    r
}

// -------------------------------------------------------------------- preview

/// What a cell of the preview shows while the page has no thumbnail.
pub open spec fn hint(p: PageShown) -> Seq<char> {
    match p.status {
        PageStatus::Ready => "no image"@,
        PageStatus::Scanning => "scanning…"@,
        PageStatus::Processing => session_model::status_name(p.status, p.stage) + "…"@,
        PageStatus::Failed => "failed"@,
        PageStatus::DeletePending => "deleting…"@,
    }
}

pub fn cell_hint(page: &PageView) -> (r: String)
    ensures
        r@ == hint(page@),
{
    match page.status {
        PageStatus::Ready => "no image".to_owned(),
        PageStatus::Scanning => "scanning…".to_owned(),
        PageStatus::Processing => cat(page.stage_label().as_str(), "…"),
        PageStatus::Failed => "failed".to_owned(),
        PageStatus::DeletePending => "deleting…".to_owned(),
    }
}

/// What is written into a cell of the preview without a thumbnail: nothing
/// where it would not fit.
pub open spec fn cell_text(s: AppModel, id: PageId, width: u16) -> Seq<char> {
    if width <= 4 {
        ""@
    } else {
        match model::place_of(s.pages, id) {
            Some(i) => hint(s.pages[i]),
            None => "…"@,
        }
    }
}

/// The text of a cell of the preview that has no thumbnail, `width` columns
/// wide.
pub fn cell_span(app: &App, id: PageId, width: u16) -> (r: Span)
    ensures
        r@ == piece(cell_text(app@, id, width), Paint::Muted),
{
    if width <= 4 {
        return lit("", Paint::Muted);
    }
    match app.place(id) {
        Some(i) => {
            assert(app@.pages[i as int] == app.pages@[i as int]@);
            span(cell_hint(&app.pages[i]), Paint::Muted)
        },
        None => lit("…", Paint::Muted),
    }
}

/// The title of a cell of the preview.
pub open spec fn cell_name(id: PageId, selected: bool) -> SpanView {
    piece(
        " "@ + text::dec(id as nat) + " "@,
        if selected {
            Paint::AccentBold
        } else {
            Paint::Muted
        },
    )
}

pub fn cell_title(id: PageId, selected: bool) -> (r: Span)
    ensures
        r@ == cell_name(id, selected),
{
    span(
        cat3(" ", u64_text(id as u64).as_str(), " "),
        if selected {
            Paint::AccentBold
        } else {
            Paint::Muted
        },
    )
}

/// The title of a pane.
pub open spec fn pane_name(title: Seq<char>, focused: bool) -> SpanView {
    piece(
        " "@ + title + " "@,
        if focused {
            Paint::AccentBold
        } else {
            Paint::Muted
        },
    )
}

pub fn pane_title(title: &str, focused: bool) -> (r: Span)
    ensures
        r@ == pane_name(title@, focused),
{
    span(
        cat3(" ", title, " "),
        if focused {
            Paint::AccentBold
        } else {
            Paint::Muted
        },
    )
}

// ----------------------------------------------------------------------- text

/// Why there is no text of the selected page.
pub open spec fn text_hint(s: AppModel) -> Seq<char> {
    match model::chosen(s) {
        Some(p) => if p.status == PageStatus::Failed {
            match p.error {
                Some(e) => e,
                None => "unknown error"@,
            }
        } else if p.text_pending {
            "extracting text…"@
        } else if p.status == PageStatus::Ready && s.cfg.preview_ocr == PreviewOcr::Off {
            "(preview OCR disabled)"@
        } else if p.status == PageStatus::Ready && p.ocr_failed_gen == Some(p.image_gen) {
            "(preview OCR failed - rescan or rotate to retry)"@
        } else {
            "(no text extracted yet)"@
        },
        None => "(no text extracted yet)"@,
    }
}

fn no_text_hint(app: &App) -> (r: String)
    ensures
        r@ == text_hint(app@),
{
    if let Some(p) = app.selected_page() {
        if p.status == PageStatus::Failed {
            return match &p.error {
                Some(e) => e.clone(),
                None => "unknown error".to_owned(),
            };
        }
        if p.text_pending {
            return "extracting text…".to_owned();
        }
        let tried = match p.ocr_failed_gen {
            Some(g) => g == p.image_gen,
            None => false,
        };
        if p.status == PageStatus::Ready && app.cfg.preview_ocr == PreviewOcr::Off {
            return "(preview OCR disabled)".to_owned();
        }
        if p.status == PageStatus::Ready && tried {
            return "(preview OCR failed - rescan or rotate to retry)".to_owned();
        }
    }
    "(no text extracted yet)".to_owned()
}

/// The text of the selected page, as far as there is one.
pub open spec fn page_text(s: AppModel) -> Seq<char> {
    match model::chosen(s) {
        Some(p) => match p.text {
            Some(t) => t,
            None => ""@,
        },
        None => ""@,
    }
}

/// The text pane: the text of the selected page, or why there is none.
pub open spec fn text_pane(s: AppModel) -> Seq<SpanView> {
    if page_text(s).len() == 0 {
        seq![piece(text_hint(s), Paint::Muted)]
    } else {
        text::lines(page_text(s)).map_values(|l: Seq<char>| piece(l, Paint::Plain))
    }
}

/// The lines of the text pane.
pub fn text_lines(app: &App) -> (r: Vec<Span>)
    ensures
        spans(r@) == text_pane(app@),
{
    let text = match app.selected_page() {
        Some(p) => match &p.text {
            Some(t) => t.clone(),
            None => "".to_owned(),
        },
        None => "".to_owned(),
    };
    assert(text@ == page_text(app@));
    if text.as_str().is_empty() {
        return line1(span(no_text_hint(app), Paint::Muted));
    }
    let all = lines_of(text.as_str());
    let ghost ls = text::lines(text@);
    let ghost full = ls.map_values(|l: Seq<char>| piece(l, Paint::Plain));
    let mut r: Vec<Span> = Vec::new();
    assert(spans(r@) =~= full.take(0));
    let mut i: usize = 0;
    while i < all.len()
        invariant
            i <= all@.len(),
            ls == text::texts(all@),
            full == ls.map_values(|l: Seq<char>| piece(l, Paint::Plain)),
            spans(r@) == full.take(i as int),
        decreases all@.len() - i,
    {
        assert(ls[i as int] == all@[i as int]@);
        assert(full.take(i + 1) =~= full.take(i as int).push(full[i as int]));
        add_span(&mut r, span(all[i].clone(), Paint::Plain));
        i = i + 1;
    }
    assert(full.take(full.len() as int) =~= full);
    r
}

/// How far the text pane is scrolled: never past the last line.
pub open spec fn scrolled(wanted: nat, lines: nat, height: u16) -> nat {
    let most = if lines >= height {
        (lines - height) as nat
    } else {
        0
    };
    low16(
        if wanted <= most {
            wanted
        } else {
            most
        },
    )
}

pub fn text_offset(wanted: usize, lines: usize, height: u16) -> (r: u16)
    ensures
        r == scrolled(wanted as nat, lines as nat, height),
{
    let most: usize = if lines >= height as usize {
        lines - height as usize
    } else {
        0
    };
    let at: usize = if wanted <= most {
        wanted
    } else {
        most
    };
    (at % 65536) as u16
}

// --------------------------------------------------------------------- footer

/// The exclusive work that is going on.
pub open spec fn busy_line(s: AppModel, now: u64) -> Seq<SpanView> {
    match s.meta {
        Some(m) => match m.busy {
            Busy::Idle => Seq::empty(),
            Busy::Scanning => seq![
                piece(
                    " SCANNING "@ + text::dec(seconds(m.busy_since, now)) + "s "@,
                    Paint::BadgeBusy,
                ),
            ],
            Busy::Finishing => seq![
                piece(
                    " BUILDING PDF "@ + text::dec(seconds(m.busy_since, now)) + "s "@,
                    Paint::BadgeBusy,
                ),
            ],
        },
        None => Seq::empty(),
    }
}

/// How many jobs are running on single pages.
pub open spec fn jobs_line(s: AppModel) -> Seq<SpanView> {
    if s.meta is Some && s.meta->0.jobs_running > 0 {
        seq![piece(" "@ + text::dec(s.meta->0.jobs_running) + " processing "@, Paint::BadgeInfo)]
    } else {
        Seq::empty()
    }
}

/// The style of a key: muted while it does nothing.
pub open spec fn key_paint(allowed: bool) -> Paint {
    if allowed {
        Paint::Accent
    } else {
        Paint::Muted
    }
}

/// A key, and what it is for.
pub open spec fn key_line(
    s: AppModel,
    key: Seq<char>,
    a: Action,
    label: Seq<char>,
) -> Seq<SpanView> {
    seq![
        piece(" "@ + key, key_paint(model::allowed(s, a))),
        piece(" "@ + label + " ·"@, Paint::Muted),
    ]
}

/// The footer: what is going on, and the keys, those that do nothing now
/// muted.
pub open spec fn footer(s: AppModel, now: u64) -> Seq<SpanView> {
    let settings = key_paint(model::allowed(s, Action::Settings));
    busy_line(s, now) + jobs_line(s) + key_line(s, "s"@, Action::Scan, "scan"@) + key_line(
        s,
        "r"@,
        Action::Rescan,
        "rescan"@,
    ) + key_line(s, "R"@, Action::Rotate, "rotate"@) + key_line(s, "d"@, Action::Delete, "del"@)
        + key_line(s, "J/K"@, Action::Reorder, "move"@) + key_line(
        s,
        "f"@,
        Action::Finish,
        "finish"@,
    ) + key_line(s, "o"@, Action::Open, "open"@) + seq![
        piece(" +/-"@, settings),
        piece(" "@ + text::dec(s.dpi as nat) + "dpi ·"@, Paint::Muted),
        piece(" m"@, settings),
        piece(" "@ + s.mode + " ·"@, Paint::Muted),
        piece(" Tab"@, Paint::Accent),
        piece(" pane · "@, Paint::Muted),
        piece("?"@, Paint::Accent),
        piece(" help · "@, Paint::Muted),
        piece("!"@, Paint::Accent),
        piece(" diag · "@, Paint::Muted),
        piece("q"@, Paint::Accent),
        piece(" quit"@, Paint::Muted),
    ]
}

fn add_key(v: &mut Vec<Span>, app: &App, key: &str, a: Action, label: &str)
    ensures
        spans(final(v)@) == spans(old(v)@) + key_line(app@, key@, a, label@),
{
    let paint = if app.action_allowed(a) {
        Paint::Accent
    } else {
        Paint::Muted
    };
    add_span(v, span(cat(" ", key), paint));
    add_span(v, span(cat3(" ", label, " ·"), Paint::Muted));
    assert(spans(v@) =~= spans(old(v)@) + key_line(app@, key@, a, label@));
}

fn busy_spans(app: &App, now: u64) -> (r: Vec<Span>)
    ensures
        spans(r@) == busy_line(app@, now),
{
    if let Some(m) = &app.meta {
        let label = match m.busy {
            Busy::Idle => {
                let r: Vec<Span> = Vec::new();
                assert(spans(r@) =~= Seq::empty());
                return r;
            },
            Busy::Scanning => " SCANNING ",
            Busy::Finishing => " BUILDING PDF ",
        };
        let secs = u64_text(seconds_since(m.busy_since, now));
        return line1(span(cat3(label, secs.as_str(), "s "), Paint::BadgeBusy));
    }
    let r: Vec<Span> = Vec::new();
    assert(spans(r@) =~= Seq::empty());
    r
}

fn add_jobs(v: &mut Vec<Span>, app: &App)
    ensures
        spans(final(v)@) == spans(old(v)@) + jobs_line(app@),
{
    if let Some(m) = &app.meta {
        if m.jobs_running > 0 {
            let n = u64_text(m.jobs_running as u64);
            add_span(v, span(cat3(" ", n.as_str(), " processing "), Paint::BadgeInfo));
            assert(spans(v@) =~= spans(old(v)@) + jobs_line(app@));
            return;
        }
    }
    assert(spans(v@) =~= spans(old(v)@) + jobs_line(app@));
}

fn settings_spans(app: &App) -> (r: Vec<Span>)
    ensures
        spans(r@) == ({
            let settings = key_paint(model::allowed(app@, Action::Settings));
            seq![
                piece(" +/-"@, settings),
                piece(" "@ + text::dec(app@.dpi as nat) + "dpi ·"@, Paint::Muted),
                piece(" m"@, settings),
                piece(" "@ + app@.mode + " ·"@, Paint::Muted),
                piece(" Tab"@, Paint::Accent),
                piece(" pane · "@, Paint::Muted),
                piece("?"@, Paint::Accent),
                piece(" help · "@, Paint::Muted),
                piece("!"@, Paint::Accent),
                piece(" diag · "@, Paint::Muted),
                piece("q"@, Paint::Accent),
                piece(" quit"@, Paint::Muted),
            ]
        }),
{
    let settings = if app.action_allowed(Action::Settings) {
        Paint::Accent
    } else {
        Paint::Muted
    };
    vec![
        lit(" +/-", settings),
        span(cat3(" ", u64_text(app.settings.dpi as u64).as_str(), "dpi ·"), Paint::Muted),
        lit(" m", settings),
        span(cat3(" ", app.settings.mode.as_str(), " ·"), Paint::Muted),
        lit(" Tab", Paint::Accent),
        lit(" pane · ", Paint::Muted),
        lit("?", Paint::Accent),
        lit(" help · ", Paint::Muted),
        lit("!", Paint::Accent),
        lit(" diag · ", Paint::Muted),
        lit("q", Paint::Accent),
        lit(" quit", Paint::Muted),
    ]
}

/// The footer: what is going on, and the keys.
pub fn footer_spans(app: &App, now: u64) -> (r: Vec<Span>)
    ensures
        spans(r@) == footer(app@, now),
{
    let mut r = busy_spans(app, now);
    add_jobs(&mut r, app);
    add_key(&mut r, app, "s", Action::Scan, "scan");
    add_key(&mut r, app, "r", Action::Rescan, "rescan");
    add_key(&mut r, app, "R", Action::Rotate, "rotate");
    add_key(&mut r, app, "d", Action::Delete, "del");
    add_key(&mut r, app, "J/K", Action::Reorder, "move");
    add_key(&mut r, app, "f", Action::Finish, "finish");
    add_key(&mut r, app, "o", Action::Open, "open");
    let mut rest = settings_spans(app);
    let ghost a = r@;
    let ghost b = rest@;
    r.append(&mut rest);
    assert(spans(r@) =~= spans(a) + spans(b));
    r
}

} // verus!
