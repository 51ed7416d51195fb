//! The styles, and what is painted with them.

use auto_scanner_ocr::backend::scan::Device;
use auto_scanner_ocr::check::{CheckItem, Report, ReportSource, Status};
use auto_scanner_ocr::config::Config;
use auto_scanner_ocr::session::{Busy, PageStatus, PageView, SessionMeta, Stage};
use auto_scanner_ocr::path::FilePath;
use auto_scanner_ocr::tui::app::App;
use auto_scanner_ocr::tui::dialogs::{overlay_lines, overlay_title};
use auto_scanner_ocr::tui::draw::{
    cell_span, cell_title, footer_spans, header_spans, pane_title, sidebar_lines, text_lines, Span,
};
use auto_scanner_ocr::tui::overlays::{Confirm, LangPicker, Overlay};
use auto_scanner_ocr::tui::theme::{
    border_focused, border_unfocused, header, header_filler, style, Color, Style, ACCENT,
    ACCENT_BOLD, BADGE_BUSY, BADGE_FAIL, BADGE_INFO, BADGE_MUTED, BADGE_OK, BADGE_WARN, HIGHLIGHT,
    KEY, MUTED, ROTATED,
};

type Palette = [Rgb; 16];
type Rgb = [u8; 3];

const VGA: Palette = [
    [0, 0, 0], [170, 0, 0], [0, 170, 0], [170, 85, 0], [0, 0, 170],
    [170, 0, 170], [0, 170, 170], [170, 170, 170], [85, 85, 85],
    [255, 85, 85], [85, 255, 85], [255, 255, 85], [85, 85, 255],
    [255, 85, 255], [85, 255, 255], [255, 255, 255],
];
const DRACULA: Palette = [
    [33, 34, 44], [255, 85, 85], [80, 250, 123], [241, 250, 140],
    [189, 147, 249], [255, 121, 198], [139, 233, 253], [248, 248, 242],
    [98, 114, 164], [255, 110, 110], [105, 255, 148], [255, 255, 165],
    [214, 172, 255], [255, 146, 223], [164, 255, 255], [255, 255, 255],
];
const GRUVBOX_DARK: Palette = [
    [40, 40, 40], [204, 36, 29], [152, 151, 26], [215, 153, 33],
    [69, 133, 136], [177, 98, 134], [142, 192, 124], [168, 153, 132],
    [60, 56, 54], [251, 73, 52], [184, 187, 38], [250, 189, 47],
    [131, 165, 152], [211, 134, 155], [214, 147, 87], [235, 219, 178],
];
const GRUVBOX_LIGHT: Palette = [
    [251, 241, 199], [204, 36, 29], [152, 151, 26], [215, 153, 33],
    [69, 133, 136], [177, 98, 134], [142, 192, 124], [124, 111, 100],
    [60, 56, 54], [157, 0, 6], [121, 116, 14], [181, 118, 20],
    [7, 102, 120], [143, 63, 113], [66, 123, 88], [60, 56, 54],
];
const NORD: Palette = [
    [59, 66, 82], [191, 97, 106], [163, 190, 140], [235, 203, 139],
    [129, 161, 193], [180, 142, 173], [143, 188, 187], [229, 233, 240],
    [76, 86, 106], [191, 97, 106], [163, 190, 140], [235, 203, 139],
    [129, 161, 193], [180, 142, 173], [143, 188, 187], [236, 239, 244],
];
const ONE_HALF_DARK: Palette = [
    [40, 44, 52], [224, 108, 117], [152, 195, 121], [229, 192, 123],
    [97, 175, 239], [198, 120, 221], [86, 182, 194], [220, 223, 228],
    [93, 103, 122], [224, 108, 117], [152, 195, 121], [229, 192, 123],
    [97, 175, 239], [198, 120, 221], [86, 182, 194], [220, 223, 228],
];
const ONE_HALF_LIGHT: Palette = [
    [56, 58, 66], [224, 108, 117], [152, 195, 121], [229, 192, 123],
    [97, 175, 239], [198, 120, 221], [86, 182, 194], [250, 250, 250],
    [79, 82, 94], [224, 108, 117], [152, 195, 121], [229, 192, 123],
    [97, 175, 239], [198, 120, 221], [86, 182, 194], [255, 255, 255],
];
const SOLARIZED_DARK: Palette = [
    [7, 54, 66], [220, 50, 47], [133, 153, 0], [181, 137, 0],
    [38, 139, 210], [211, 54, 130], [42, 161, 152], [238, 232, 213],
    [0, 43, 54], [203, 75, 22], [88, 110, 117], [147, 161, 161],
    [147, 161, 161], [203, 75, 22], [108, 113, 196], [253, 246, 227],
];
const SOLARIZED_LIGHT: Palette = [
    [7, 54, 66], [220, 50, 47], [133, 153, 0], [181, 137, 0],
    [38, 139, 210], [211, 54, 130], [42, 161, 152], [238, 232, 213],
    [0, 43, 54], [203, 75, 22], [88, 110, 117], [147, 161, 161],
    [147, 161, 161], [203, 75, 22], [108, 113, 196], [253, 246, 227],
];
const TANGO_DARK: Palette = [
    [0, 0, 0], [204, 0, 0], [78, 154, 6], [196, 160, 0], [52, 101, 164],
    [117, 80, 123], [6, 152, 154], [211, 215, 207], [85, 87, 83],
    [239, 41, 41], [138, 226, 52], [252, 233, 79], [114, 159, 207],
    [173, 127, 168], [52, 226, 226], [238, 238, 236],
];

const PALETTES: &[(&str, Palette)] = &[
    ("VGA", VGA),
    ("Dracula", DRACULA),
    ("Gruvbox Dark", GRUVBOX_DARK),
    ("Gruvbox Light", GRUVBOX_LIGHT),
    ("Nord", NORD),
    ("One Half Dark", ONE_HALF_DARK),
    ("One Half Light", ONE_HALF_LIGHT),
    ("Solarized Dark", SOLARIZED_DARK),
    ("Solarized Light", SOLARIZED_LIGHT),
    ("Tango Dark", TANGO_DARK),
];

fn channel(c: u8) -> f64 {
    let c = f64::from(c) / 255.0;
    if c <= 0.04045 {
        c / 12.92
    } else {
        ((c + 0.055) / 1.055).powf(2.4)
    }
}

fn luminance(rgb: Rgb) -> f64 {
    0.2126 * channel(rgb[0]) + 0.7152 * channel(rgb[1]) + 0.0722 * channel(rgb[2])
}

/// The contrast ratio of WCAG 2.1, from 1 to 21.
fn contrast(a: Rgb, b: Rgb) -> f64 {
    let (hi, lo) = if luminance(a) >= luminance(b) { (a, b) } else { (b, a) };
    (luminance(hi) + 0.05) / (luminance(lo) + 0.05)
}

fn resolve(color: Color, palette: &Palette) -> Rgb {
    match color {
        Color::Black => palette[0],
        Color::Red => palette[1],
        Color::Green => palette[2],
        Color::Yellow => palette[3],
        Color::Cyan => palette[6],
        Color::Gray => palette[7],
        Color::DarkGray => palette[8],
        Color::LightBlue => palette[12],
        Color::White => palette[15],
        Color::Rgb(r, g, b) => [r, g, b],
    }
}

/// Every style, with the contrast that one with a background must have on any
/// palette.
fn registry() -> Vec<(&'static str, Style, Option<f64>)> {
    vec![
        ("HIGHLIGHT", HIGHLIGHT(), Some(4.5)),
        ("BADGE_OK", BADGE_OK(), Some(2.5)),
        ("BADGE_FAIL", BADGE_FAIL(), Some(2.0)),
        ("BADGE_BUSY", BADGE_BUSY(), Some(2.0)),
        ("BADGE_WARN", BADGE_WARN(), Some(2.0)),
        ("BADGE_INFO", BADGE_INFO(), Some(1.5)),
        ("BADGE_MUTED", BADGE_MUTED(), Some(3.0)),
        ("header()", header(), Some(3.0)),
        ("header_filler()", header_filler(), Some(3.0)),
        ("KEY", KEY(), None),
        ("ACCENT", ACCENT(), None),
        ("ACCENT_BOLD", ACCENT_BOLD(), None),
        ("MUTED", MUTED(), None),
        ("ROTATED", ROTATED(), None),
        ("border_focused()", border_focused(), None),
        ("border_unfocused()", border_unfocused(), None),
    ]
}

#[test]
fn palettes_pass_contrast() {
    for (name, style, threshold) in registry() {
        let Some(threshold) = threshold else { continue };
        for (palette_name, palette) in PALETTES {
            let (Some(fg), Some(bg)) = (style.fg, style.bg) else {
                panic!("{name} has no explicit fg/bg pair");
            };
            let ratio = contrast(resolve(fg, palette), resolve(bg, palette));
            assert!(
                ratio >= threshold,
                "{name} on {palette_name}: {ratio:.1}:1 (threshold {threshold})"
            );
        }
    }
}

#[test]
fn backgrounds_pin_their_foreground() {
    for (name, style, threshold) in registry() {
        if threshold.is_some() {
            assert!(style.bg.is_some() && style.fg.is_some(), "{name}");
        } else {
            assert!(style.bg.is_none(), "{name} unexpectedly paints a background");
        }
    }
}

fn page(id: u32, status: PageStatus) -> PageView {
    PageView {
        id,
        status,
        stage: Some(Stage::Clean),
        stage_started: Some(1000),
        image: None,
        image_gen: 0,
        text: None,
        text_pending: false,
        ocr_failed_gen: None,
        error: None,
        dpi: 300,
        mode: "gray".to_string(),
        rotated: true,
    }
}

fn item(status: Status) -> CheckItem {
    CheckItem {
        what: "tool".to_string(),
        status,
        detail: "detail".to_string(),
        hint: Some("install it".to_string()),
        pending_detail: None,
    }
}

/// A screen with everything on it.
fn full_app() -> App {
    let mut app = App::new(Config::default());
    app.pages = vec![
        page(1, PageStatus::Ready),
        page(2, PageStatus::Failed),
        page(3, PageStatus::Scanning),
        page(4, PageStatus::Processing),
        page(5, PageStatus::DeletePending),
    ];
    app.meta = Some(SessionMeta {
        busy: Busy::Scanning,
        busy_since: Some(0),
        jobs_running: 2,
        output_path: FilePath::from_text("/out/a.pdf"),
        dirty: true,
        finished: false,
    });
    app.report = Some(Report {
        items: vec![
            item(Status::Pass),
            item(Status::Warn),
            item(Status::Fail),
            item(Status::Skip),
            item(Status::Pending),
        ],
        device: Some(Device { name: "n".to_string(), label: "l".to_string() }),
        source: ReportSource::ReRun,
    });
    app
}

/// Every piece of text that is shown is painted by name, and every name is in
/// the catalog of styles or leaves the colors of the terminal alone.
#[test]
fn consumers_do_not_paint_their_own_colors() {
    let app = full_app();
    let mut picker = LangPicker::new("deu");
    picker.set_available(vec!["deu".to_string(), "eng".to_string()]);
    let overlays = [
        Overlay::Help,
        Overlay::Diagnostics,
        Overlay::LangPicker(picker),
        Overlay::Confirm(Confirm::quit()),
    ];
    let mut all: Vec<Span> = Vec::new();
    all.extend(header_spans(&app, 80));
    all.extend(sidebar_lines(&app, 5000).into_iter().flatten());
    all.extend(footer_spans(&app, 5000));
    all.extend(text_lines(&app));
    all.push(cell_span(&app, 3, 20));
    all.push(cell_title(3, true));
    all.push(pane_title("Pages", false));
    for o in &overlays {
        all.extend(overlay_lines(&app, o).into_iter().flatten());
        all.push(overlay_title(o));
    }
    let catalog = registry();
    for span in &all {
        let s = style(span.paint);
        assert!(
            catalog.iter().any(|(_, c, _)| *c == s) || (s.fg.is_none() && s.bg.is_none()),
            "{span:?} is painted outside the catalog"
        );
    }
    assert!(all.len() > 80);
}
