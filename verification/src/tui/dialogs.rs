//! The texts of the dialogs that lie over the view, and their places.

use vstd::prelude::*;

use crate::check::{CheckItem, CheckItemView, Report, Status};
use crate::text;
use crate::text::{cat, cat3, has_text, lines_of, padded_right};
use crate::tui::app::App;
use crate::tui::draw;
use crate::tui::draw::{add_line, bytes16, line1, lit, span, Span, SpanView};
use crate::tui::editor;
use crate::tui::input::Rect;
use crate::tui::model::AppModel;
use crate::tui::overlays::{Confirm, ConfirmView, LangPicker, LangPickerView, Overlay, OverlayView};
use crate::tui::theme::Paint;
use crate::tui::ui;
use crate::tui::ui::centered_rect;

verus! {

// ----------------------------------------------------------------------- help

/// The keys and what they do. A line without the latter is a heading.
pub const HELP: [(&'static str, &'static str); 23] = [
    ("Scanning", ""),
    ("s / Enter (pages)", "scan next page"),
    ("Esc / c", "cancel running scan"),
    ("Pages", ""),
    ("j k / ↑ ↓", "select page"),
    ("J K / ← →", "move page down / up"),
    ("r", "rescan page (keeps old until success)"),
    ("R", "rotate page 90° clockwise"),
    ("<", "rotate page 90° counter-clockwise"),
    ("d", "delete page"),
    ("1-9", "jump to page N"),
    ("Finish", ""),
    ("f", "build searchable PDF (confirm dialog)"),
    ("o", "open PDF with xdg-open"),
    ("n", "new session"),
    ("Settings", ""),
    ("m", "cycle mode: gray → color → lineart"),
    ("+ = / -", "DPI presets 150 / 200 / 300 / 600"),
    ("L", "OCR languages picker"),
    ("Interface", ""),
    ("Tab / BackTab", "cycle pane focus (also: click)"),
    ("? / !", "this help / diagnostics"),
    ("q / Ctrl-C", "quit (confirm if unsaved pages)"),
];

/// A line of the help.
pub open spec fn help_line(key: Seq<char>, what: Seq<char>) -> Seq<SpanView> {
    if what.len() == 0 {
        seq![draw::piece(key, Paint::AccentBold)]
    } else {
        seq![
            draw::piece("  "@ + text::pad_right(key, 20), Paint::Key),
            draw::piece(what, Paint::Plain),
        ]
    }
}

/// The help.
pub open spec fn help() -> Seq<Seq<SpanView>> {
    Seq::new(23, |i: int| help_line(HELP@[i].0@, HELP@[i].1@))
}

/// The lines of the help.
pub fn help_lines() -> (r: Vec<Vec<Span>>)
    ensures
        draw::span_lines(r@) == help(),
{
    let rows = HELP;
    let mut r: Vec<Vec<Span>> = Vec::new();
    assert(draw::span_lines(r@) =~= help().take(0));
    let mut i: usize = 0;
    while i < 23
        invariant
            i <= 23,
            rows == HELP,
            draw::span_lines(r@) == help().take(i as int),
        decreases 23 - i,
    {
        let (key, what) = rows[i];
        let line = if what.is_empty() {
            line1(lit(key, Paint::AccentBold))
        } else {
            let key = padded_right(key, 20);
            let l = vec![
                span(cat("  ", key.as_str()), Paint::Key),
                lit(what, Paint::Plain),
            ];
            assert(draw::spans(l@) =~= help_line(HELP@[i as int].0@, HELP@[i as int].1@));
            l
        };
        assert(help().take(i + 1) =~= help().take(i as int).push(help()[i as int]));
        add_line(&mut r, line);
        i = i + 1;
    }
    assert(help().take(23) =~= help());
    r
}

// ---------------------------------------------------------------- diagnostics

/// How the diagnostics mark the outcome of a check.
pub open spec fn mark(s: Status) -> SpanView {
    match s {
        Status::Pass => draw::piece(" [ OK ] "@, Paint::BadgeOk),
        Status::Warn => draw::piece(" [WARN] "@, Paint::BadgeWarn),
        Status::Fail => draw::piece(" [FAIL] "@, Paint::BadgeFail),
        Status::Skip => draw::piece(" [SKIP] "@, Paint::BadgeMuted),
        Status::Pending => draw::piece(" [ ...] "@, Paint::BadgeInfo),
    }
}

/// What is told about a check: while it is pending, what is waited for.
pub open spec fn told(i: CheckItemView) -> Seq<char> {
    match (i.status, i.pending_detail) {
        (Status::Pending, Some(p)) => p,
        _ => i.detail,
    }
}

/// The lines of one check.
pub open spec fn item_lines(i: CheckItemView) -> Seq<Seq<SpanView>> {
    seq![seq![mark(i.status), draw::piece(i.what, Paint::Plain)]] + (if told(i).len() == 0 {
        Seq::empty()
    } else {
        seq![seq![draw::piece("        "@ + told(i), Paint::Muted)]]
    }) + (match i.hint {
        Some(h) => text::lines(h).map_values(
            |l: Seq<char>| seq![draw::piece("        install: "@ + l, Paint::Key)],
        ),
        None => Seq::empty(),
    })
}

/// The lines of several checks.
pub open spec fn items_lines(items: Seq<CheckItemView>) -> Seq<Seq<SpanView>>
    decreases items.len(),
{
    if items.len() == 0 {
        seq![seq![draw::piece("press r to re-run checks · Esc to close"@, Paint::Muted)]]
    } else {
        items_lines(items.drop_last()) + item_lines(items.last())
    }
}

fn status_mark(s: Status) -> (r: Span)
    ensures
        r@ == mark(s),
{
    match s {
        Status::Pass => lit(" [ OK ] ", Paint::BadgeOk),
        Status::Warn => lit(" [WARN] ", Paint::BadgeWarn),
        Status::Fail => lit(" [FAIL] ", Paint::BadgeFail),
        Status::Skip => lit(" [SKIP] ", Paint::BadgeMuted),
        Status::Pending => lit(" [ ...] ", Paint::BadgeInfo),
    }
}

fn add_hint(v: &mut Vec<Vec<Span>>, hint: &str)
    ensures
        draw::span_lines(final(v)@) == draw::span_lines(old(v)@) + text::lines(hint@).map_values(
            |l: Seq<char>| seq![draw::piece("        install: "@ + l, Paint::Key)],
        ),
{
    let all = lines_of(hint);
    let ghost ls = text::lines(hint@);
    let ghost full = ls.map_values(
        |l: Seq<char>| seq![draw::piece("        install: "@ + l, Paint::Key)],
    );
    let ghost start = draw::span_lines(v@);
    assert(start =~= start + full.take(0));
    let mut i: usize = 0;
    while i < all.len()
        invariant
            i <= all@.len(),
            ls == text::texts(all@),
            full == ls.map_values(
                |l: Seq<char>| seq![draw::piece("        install: "@ + l, Paint::Key)],
            ),
            draw::span_lines(v@) == start + full.take(i as int),
        decreases all@.len() - i,
    {
        assert(ls[i as int] == all@[i as int]@);
        assert(start + full.take(i + 1) =~= (start + full.take(i as int)).push(full[i as int]));
        add_line(v, line1(span(cat("        install: ", all[i].as_str()), Paint::Key)));
        i = i + 1;
    }
    assert(full.take(full.len() as int) =~= full);
}

fn add_item(v: &mut Vec<Vec<Span>>, item: &CheckItem)
    ensures
        draw::span_lines(final(v)@) == draw::span_lines(old(v)@) + item_lines(item@),
{
    let ghost start = draw::span_lines(v@);
    let first = vec![status_mark(item.status), span(item.what.clone(), Paint::Plain)];
    assert(draw::spans(first@) =~= seq![mark(item@.status), draw::piece(item@.what, Paint::Plain)]);
    add_line(v, first);
    let detail = match item.status {
        Status::Pending => match &item.pending_detail {
            Some(p) => p.as_str(),
            None => item.detail.as_str(),
        },
        _ => item.detail.as_str(),
    };
    assert(detail@ == told(item@));
    if !detail.is_empty() {
        add_line(v, line1(span(cat("        ", detail), Paint::Muted)));
    }
    if let Some(h) = &item.hint {
        add_hint(v, h.as_str());
    }
    assert(draw::span_lines(v@) =~= start + item_lines(item@));
}

/// The lines of the diagnostics.
pub fn diagnostics_lines(report: &Report) -> (r: Vec<Vec<Span>>)
    ensures
        draw::span_lines(r@) == items_lines(report@.items),
{
    let ghost items = report@.items;
    let mut r: Vec<Vec<Span>> = Vec::new();
    add_line(&mut r, line1(lit("press r to re-run checks · Esc to close", Paint::Muted)));
    assert(draw::span_lines(r@) =~= items_lines(items.take(0)));
    let mut i: usize = 0;
    while i < report.items.len()
        invariant
            i <= report.items@.len(),
            items == report@.items,
            draw::span_lines(r@) == items_lines(items.take(i as int)),
        decreases report.items@.len() - i,
    {
        assert(items.take(i + 1).drop_last() =~= items.take(i as int));
        assert(items.take(i + 1).last() == report.items@[i as int]@);
        add_item(&mut r, &report.items[i]);
        i = i + 1;
    }
    assert(items.take(items.len() as int) =~= items);
    r
}

// ------------------------------------------------------------------ languages

/// What is said about the list of languages as a whole.
pub open spec fn picker_note(p: LangPickerView) -> Seq<Seq<SpanView>> {
    if p.loading {
        seq![seq![draw::piece("loading installed languages…"@, Paint::Plain)]]
    } else if p.available.len() == 0 {
        seq![seq![draw::piece("no tesseract languages found"@, Paint::Plain)]]
    } else {
        Seq::empty()
    }
}

/// The line of one language.
pub open spec fn lang_line(p: LangPickerView, i: int) -> Seq<SpanView> {
    seq![
        draw::piece(
            " "@ + (if p.selected.contains(p.available[i]) {
                "[x]"@
            } else {
                "[ ]"@
            }) + " "@ + p.available[i],
            if i == p.cursor {
                Paint::Highlight
            } else {
                Paint::Plain
            },
        ),
    ]
}

/// The dialog in which the languages are chosen.
pub open spec fn picker(p: LangPickerView) -> Seq<Seq<SpanView>> {
    picker_note(p) + Seq::new(p.available.len(), |i: int| lang_line(p, i)) + seq![
        seq![draw::piece(""@, Paint::Plain)],
        seq![
            draw::piece(
                "space toggle · enter confirm ("@ + (if p.selected.len() == 0 {
                    "none selected"@
                } else {
                    text::join(p.selected, "+"@)
                }) + ") · esc cancel"@,
                Paint::Muted,
            ),
        ],
    ]
}

fn picker_start(p: &LangPicker) -> (r: Vec<Vec<Span>>)
    ensures
        draw::span_lines(r@) == picker_note(p@),
{
    let mut r: Vec<Vec<Span>> = Vec::new();
    if p.loading {
        add_line(&mut r, line1(lit("loading installed languages…", Paint::Plain)));
    } else if p.available.len() == 0 {
        add_line(&mut r, line1(lit("no tesseract languages found", Paint::Plain)));
    }
    assert(draw::span_lines(r@) =~= picker_note(p@));
    r
}

fn picker_line(p: &LangPicker, i: usize) -> (r: Vec<Span>)
    requires
        i < p.available@.len(),
    ensures
        draw::spans(r@) == lang_line(p@, i as int),
{
    let lang = p.available[i].as_str();
    let chosen = has_text(p.selected.as_slice(), lang);
    assert(p@.available[i as int] == lang@);
    let mark = if chosen {
        "[x]"
    } else {
        "[ ]"
    };
    let start = cat3(" ", mark, " ");
    line1(
        span(
            cat(start.as_str(), lang),
            if i == p.cursor {
                Paint::Highlight
            } else {
                Paint::Plain
            },
        ),
    )
}

/// The lines of the dialog in which the languages are chosen.
pub fn picker_lines(p: &LangPicker) -> (r: Vec<Vec<Span>>)
    ensures
        draw::span_lines(r@) == picker(p@),
{
    let mut r = picker_start(p);
    let n: usize = p.available.len();
    let ghost start = picker_note(p@);
    let ghost full = Seq::new(p@.available.len(), |i: int| lang_line(p@, i));
    assert(start =~= start + full.take(0));
    let mut i: usize = 0;
    while i < n
        invariant
            i <= n,
            n == p.available@.len(),
            full == Seq::new(p@.available.len(), |i: int| lang_line(p@, i)),
            draw::span_lines(r@) == start + full.take(i as int),
        decreases n - i,
    {
        assert(start + full.take(i + 1) =~= (start + full.take(i as int)).push(full[i as int]));
        add_line(&mut r, picker_line(p, i));
        i = i + 1;
    }
    assert(full.take(n as int) =~= full);
    add_line(&mut r, line1(lit("", Paint::Plain)));
    let chosen = if p.selected.len() == 0 {
        "none selected".to_owned()
    } else {
        p.result()
    };
    let keys = cat3("space toggle · enter confirm (", chosen.as_str(), ") · esc cancel");
    add_line(&mut r, line1(span(keys, Paint::Muted)));
    assert(draw::span_lines(r@) =~= picker(p@));
    r
}

// ------------------------------------------------------------------ questions

/// A question.
pub open spec fn question(c: ConfirmView) -> Seq<Seq<SpanView>> {
    c.lines.map_values(|l: Seq<char>| seq![draw::piece(l, Paint::Plain)]) + seq![
        seq![draw::piece(""@, Paint::Plain)],
        seq![
            draw::piece(" ["@ + c.accept_label + "] "@, Paint::BadgeOk),
            draw::piece("  "@, Paint::Plain),
            draw::piece("[Esc] cancel"@, Paint::Muted),
        ],
    ]
}

/// The lines of a question.
pub fn confirm_lines(c: &Confirm) -> (r: Vec<Vec<Span>>)
    ensures
        draw::span_lines(r@) == question(c@),
{
    let n: usize = c.lines.len();
    let ghost full = c@.lines.map_values(|l: Seq<char>| seq![draw::piece(l, Paint::Plain)]);
    let mut r: Vec<Vec<Span>> = Vec::new();
    assert(draw::span_lines(r@) =~= full.take(0));
    let mut i: usize = 0;
    while i < n
        invariant
            i <= n,
            n == c.lines@.len(),
            full == c@.lines.map_values(|l: Seq<char>| seq![draw::piece(l, Paint::Plain)]),
            draw::span_lines(r@) == full.take(i as int),
        decreases n - i,
    {
        assert(c@.lines[i as int] == c.lines@[i as int]@);
        assert(full.take(i + 1) =~= full.take(i as int).push(full[i as int]));
        add_line(&mut r, line1(span(c.lines[i].clone(), Paint::Plain)));
        i = i + 1;
    }
    assert(full.take(n as int) =~= full);
    add_line(&mut r, line1(lit("", Paint::Plain)));
    let last = vec![
        span(cat3(" [", c.accept_label.as_str(), "] "), Paint::BadgeOk),
        lit("  ", Paint::Plain),
        lit("[Esc] cancel", Paint::Muted),
    ];
    assert(draw::spans(last@) =~= seq![
        draw::piece(" ["@ + c@.accept_label + "] "@, Paint::BadgeOk),
        draw::piece("  "@, Paint::Plain),
        draw::piece("[Esc] cancel"@, Paint::Muted),
    ]);
    add_line(&mut r, last);
    assert(draw::span_lines(r@) =~= question(c@));
    r
}

/// The longer of two lengths.
pub open spec fn longer(a: nat, b: nat) -> nat {
    if a >= b {
        a
    } else {
        b
    }
}

/// The shorter of two lengths.
pub open spec fn shorter(a: nat, b: nat) -> nat {
    if a <= b {
        a
    } else {
        b
    }
}

/// The length of the longest of some lines, in bytes.
pub open spec fn longest(lines: Seq<Seq<char>>) -> nat
    decreases lines.len(),
{
    if lines.len() == 0 {
        0
    } else {
        longer(longest(lines.drop_last()), draw::size16(lines.last()))
    }
}

/// How wide a question wants to be.
pub open spec fn question_width(c: ConfirmView) -> nat {
    longer(
        longest(c.lines) + 4,
        longer(draw::size16(c.title) + 4, draw::size16(c.accept_label) + 20),
    )
}

fn longest_of(lines: &[String]) -> (r: u16)
    ensures
        r == longest(text::texts(lines@)),
{
    let ghost ls = text::texts(lines@);
    let mut r: u16 = 0;
    let mut i: usize = 0;
    assert(ls.take(0) =~= Seq::empty());
    while i < lines.len()
        invariant
            i <= lines@.len(),
            ls == text::texts(lines@),
            r == longest(ls.take(i as int)),
        decreases lines@.len() - i,
    {
        assert(ls.take(i + 1).drop_last() =~= ls.take(i as int));
        assert(ls.take(i + 1).last() == lines@[i as int]@);
        let n: u16 = bytes16(lines[i].as_str());
        if n > r {
            r = n;
        }
        i = i + 1;
    }
    assert(ls.take(ls.len() as int) =~= ls);
    r
}

fn confirm_width(c: &Confirm) -> (r: u32)
    ensures
        r == question_width(c@),
{
    let a: u32 = longest_of(c.lines.as_slice()) as u32 + 4;
    let b: u32 = bytes16(c.title.as_str()) as u32 + 4;
    let d: u32 = bytes16(c.accept_label.as_str()) as u32 + 20;
    let bd: u32 = if b >= d {
        b
    } else {
        d
    };
    if a >= bd {
        a
    } else {
        bd
    }
}

// --------------------------------------------------------------------- places

/// Where the dialog over the view is.
pub open spec fn place(s: AppModel, o: OverlayView, area: Rect) -> Rect {
    match o {
        OverlayView::Help => ui::centered(62, 25, area),
        OverlayView::Diagnostics => match s.report {
            Some(r) => ui::centered(
                90,
                shorter(
                    draw::low16(items_lines(r.items).len()) + 2,
                    editor::less(area.height, 2) as nat,
                ) as u16,
                area,
            ),
            None => ui::centered(60, 8, area),
        },
        OverlayView::LangPicker(p) => ui::centered(
            40,
            shorter(draw::low16(p.available.len()) + 6, 24) as u16,
            area,
        ),
        OverlayView::Confirm(c) => ui::centered(
            shorter(question_width(c), editor::less(area.width, 4) as nat) as u16,
            shorter(draw::low16(c.lines.len()) + 4, 12) as u16,
            area,
        ),
    }
}

fn least(a: u32, b: u16) -> (r: u16)
    ensures
        r == shorter(a as nat, b as nat),
{
    if a <= b as u32 {
        a as u16
    } else {
        b
    }
}

fn minus(a: u16, b: u16) -> (r: u16)
    ensures
        r == editor::less(a, b as int),
{
    if a >= b {
        a - b
    } else {
        0
    }
}

/// Where the dialog over the view is, on a screen.
pub fn overlay_place(app: &App, o: &Overlay, area: Rect) -> (r: Rect)
    requires
        area.ok(),
    ensures
        r == place(app@, o@, area),
        area.covers(r),
{
    match o {
        Overlay::Help => centered_rect(62, 25, area),
        Overlay::Diagnostics => match &app.report {
            Some(report) => {
                let lines = diagnostics_lines(report);
                let n: usize = lines.len();
                assert(n == items_lines(report@.items).len());
                let n: u32 = (n % 65536) as u32 + 2;
                centered_rect(90, least(n, minus(area.height, 2)), area)
            },
            None => centered_rect(60, 8, area),
        },
        Overlay::LangPicker(p) => {
            let n: usize = p.available.len();
            let n: u32 = (n % 65536) as u32 + 6;
            centered_rect(40, least(n, 24), area)
        },
        Overlay::Confirm(c) => {
            let n: usize = c.lines.len();
            let n: u32 = (n % 65536) as u32 + 4;
            let w: u16 = least(confirm_width(c), minus(area.width, 4));
            centered_rect(w, least(n, 12), area)
        },
    }
}

/// The title of the dialog over the view.
pub open spec fn heading(o: OverlayView) -> Seq<char> {
    match o {
        OverlayView::Help => "Help - Esc to close"@,
        OverlayView::Diagnostics => "Diagnostics"@,
        OverlayView::LangPicker(_) => "OCR languages"@,
        OverlayView::Confirm(c) => c.title,
    }
}

/// The title of the dialog over the view.
pub fn overlay_title(o: &Overlay) -> (r: Span)
    ensures
        r@ == draw::pane_name(heading(o@), true),
{
    let t = match o {
        Overlay::Help => "Help - Esc to close",
        Overlay::Diagnostics => "Diagnostics",
        Overlay::LangPicker(_) => "OCR languages",
        Overlay::Confirm(c) => c.title.as_str(),
    };
    draw::pane_title(t, true)
}

/// What the dialog over the view says.
pub open spec fn contents(s: AppModel, o: OverlayView) -> Seq<Seq<SpanView>> {
    match o {
        OverlayView::Help => help(),
        OverlayView::Diagnostics => match s.report {
            Some(r) => items_lines(r.items),
            None => Seq::empty(),
        },
        OverlayView::LangPicker(p) => picker(p),
        OverlayView::Confirm(c) => question(c),
    }
}

/// The lines of the dialog over the view.
pub fn overlay_lines(app: &App, o: &Overlay) -> (r: Vec<Vec<Span>>)
    ensures
        draw::span_lines(r@) == contents(app@, o@),
{
    match o {
        Overlay::Help => help_lines(),
        Overlay::Diagnostics => match &app.report {
            Some(report) => diagnostics_lines(report),
            None => {
                let r: Vec<Vec<Span>> = Vec::new();
                assert(draw::span_lines(r@) =~= Seq::empty());
                r
            },
        },
        Overlay::LangPicker(p) => picker_lines(p),
        Overlay::Confirm(c) => confirm_lines(c),
    }
}

} // verus!
