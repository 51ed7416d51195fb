//! Named styles. Every decision about a color is made here, so that all of
//! them can be held against the palettes of real terminals.

use vstd::prelude::*;

verus! {

/// A color: a slot of the terminal's palette, or a fixed one.
#[derive(Debug, Clone, Copy, PartialEq, Eq, Structural)]
pub enum Color {
    Black,
    Red,
    Green,
    Yellow,
    Cyan,
    Gray,
    DarkGray,
    LightBlue,
    White,
    Rgb(u8, u8, u8),
}

/// How text is painted.
#[derive(Debug, Clone, Copy, PartialEq, Eq)]
pub struct Style {
    pub fg: Option<Color>,
    pub bg: Option<Color>,
    pub bold: bool,
}

/// The name of a style. What is shown carries names only.
#[derive(Debug, Clone, Copy, PartialEq, Eq, Structural)]
pub enum Paint {
    /// The terminal's own colors.
    Plain,
    /// The terminal's own colors, in bold.
    Bold,
    Accent,
    AccentBold,
    Highlight,
    BadgeOk,
    BadgeFail,
    BadgeBusy,
    BadgeWarn,
    BadgeInfo,
    BadgeMuted,
    Muted,
    Key,
    Header,
    HeaderFiller,
    BorderFocused,
    BorderUnfocused,
    Rotated,
}

/// The background of a selection: it does not follow the palette.
pub open spec fn navy() -> Color {
    Color::Rgb(40, 60, 80)
}

/// The foreground of a selection: it does not follow the palette either.
pub open spec fn true_white() -> Color {
    Color::Rgb(255, 255, 255)
}

/// The borders of panes without focus: visible on every palette.
pub open spec fn border_dim() -> Color {
    Color::Rgb(110, 110, 110)
}

pub open spec fn on(fg: Color, bg: Color, bold: bool) -> Style {
    Style { fg: Some(fg), bg: Some(bg), bold }
}

pub open spec fn fore(fg: Color, bold: bool) -> Style {
    Style { fg: Some(fg), bg: None, bold }
}

/// The style behind a name.
pub open spec fn style_of(p: Paint) -> Style {
    match p {
        Paint::Plain => Style { fg: None, bg: None, bold: false },
        Paint::Bold => Style { fg: None, bg: None, bold: true },
        Paint::Accent => fore(Color::Cyan, false),
        Paint::AccentBold => fore(Color::Cyan, true),
        Paint::Highlight => on(true_white(), navy(), false),
        Paint::BadgeOk => on(Color::Black, Color::Green, false),
        Paint::BadgeFail => on(Color::White, Color::Red, false),
        Paint::BadgeBusy => on(Color::Black, Color::Yellow, true),
        Paint::BadgeWarn => on(Color::Black, Color::Yellow, false),
        Paint::BadgeInfo => on(Color::Black, Color::Cyan, false),
        Paint::BadgeMuted => on(Color::Black, Color::Gray, false),
        Paint::Muted => fore(Color::DarkGray, false),
        Paint::Key => fore(Color::Yellow, false),
        Paint::Header => on(Color::Black, Color::LightBlue, true),
        Paint::HeaderFiller => on(Color::Black, Color::LightBlue, false),
        Paint::BorderFocused => fore(Color::Cyan, false),
        Paint::BorderUnfocused => fore(border_dim(), false),
        Paint::Rotated => fore(Color::Cyan, false),
    }
}

/// The style behind a name.
pub fn style(p: Paint) -> (r: Style)
    ensures
        r == style_of(p),
{
    let (fg, bg, bold) = match p {
        Paint::Plain => (None, None, false),
        Paint::Bold => (None, None, true),
        Paint::Accent => (Some(Color::Cyan), None, false),
        Paint::AccentBold => (Some(Color::Cyan), None, true),
        Paint::Highlight => (Some(Color::Rgb(255, 255, 255)), Some(Color::Rgb(40, 60, 80)), false),
        Paint::BadgeOk => (Some(Color::Black), Some(Color::Green), false),
        Paint::BadgeFail => (Some(Color::White), Some(Color::Red), false),
        Paint::BadgeBusy => (Some(Color::Black), Some(Color::Yellow), true),
        Paint::BadgeWarn => (Some(Color::Black), Some(Color::Yellow), false),
        Paint::BadgeInfo => (Some(Color::Black), Some(Color::Cyan), false),
        Paint::BadgeMuted => (Some(Color::Black), Some(Color::Gray), false),
        Paint::Muted => (Some(Color::DarkGray), None, false),
        Paint::Key => (Some(Color::Yellow), None, false),
        Paint::Header => (Some(Color::Black), Some(Color::LightBlue), true),
        Paint::HeaderFiller => (Some(Color::Black), Some(Color::LightBlue), false),
        Paint::BorderFocused => (Some(Color::Cyan), None, false),
        Paint::BorderUnfocused => (Some(Color::Rgb(110, 110, 110)), None, false),
        Paint::Rotated => (Some(Color::Cyan), None, false),
    };
    Style { fg, bg, bold }
}

/// A style that paints a background also fixes the foreground: the terminal's
/// own foreground could be anything.
pub proof fn law_backgrounds_pin_their_foreground(p: Paint)
    ensures
        style_of(p).bg is Some ==> style_of(p).fg is Some && style_of(p).fg != style_of(p).bg,
{
}

#[allow(non_snake_case)]
pub fn ACCENT() -> (r: Style)
    ensures
        r == style_of(Paint::Accent),
{
    style(Paint::Accent)
}

#[allow(non_snake_case)]
pub fn ACCENT_BOLD() -> (r: Style)
    ensures
        r == style_of(Paint::AccentBold),
{
    style(Paint::AccentBold)
}

/// The selection, and the cursor of the language picker.
#[allow(non_snake_case)]
pub fn HIGHLIGHT() -> (r: Style)
    ensures
        r == style_of(Paint::Highlight),
{
    style(Paint::Highlight)
}

#[allow(non_snake_case)]
pub fn BADGE_OK() -> (r: Style)
    ensures
        r == style_of(Paint::BadgeOk),
{
    style(Paint::BadgeOk)
}

#[allow(non_snake_case)]
pub fn BADGE_FAIL() -> (r: Style)
    ensures
        r == style_of(Paint::BadgeFail),
{
    style(Paint::BadgeFail)
}

#[allow(non_snake_case)]
pub fn BADGE_BUSY() -> (r: Style)
    ensures
        r == style_of(Paint::BadgeBusy),
{
    style(Paint::BadgeBusy)
}

#[allow(non_snake_case)]
pub fn BADGE_WARN() -> (r: Style)
    ensures
        r == style_of(Paint::BadgeWarn),
{
    style(Paint::BadgeWarn)
}

#[allow(non_snake_case)]
pub fn BADGE_INFO() -> (r: Style)
    ensures
        r == style_of(Paint::BadgeInfo),
{
    style(Paint::BadgeInfo)
}

#[allow(non_snake_case)]
pub fn BADGE_MUTED() -> (r: Style)
    ensures
        r == style_of(Paint::BadgeMuted),
{
    style(Paint::BadgeMuted)
}

/// Text of lesser importance.
#[allow(non_snake_case)]
pub fn MUTED() -> (r: Style)
    ensures
        r == style_of(Paint::Muted),
{
    style(Paint::Muted)
}

/// The names of keys in the help and the diagnostics.
#[allow(non_snake_case)]
pub fn KEY() -> (r: Style)
    ensures
        r == style_of(Paint::Key),
{
    style(Paint::Key)
}

/// The mark of a page that was rotated.
#[allow(non_snake_case)]
pub fn ROTATED() -> (r: Style)
    ensures
        r == style_of(Paint::Rotated),
{
    style(Paint::Rotated)
}

pub fn header() -> (r: Style)
    ensures
        r == style_of(Paint::Header),
{
    style(Paint::Header)
}

pub fn header_filler() -> (r: Style)
    ensures
        r == style_of(Paint::HeaderFiller),
{
    style(Paint::HeaderFiller)
}

pub fn border_focused() -> (r: Style)
    ensures
        r == style_of(Paint::BorderFocused),
{
    style(Paint::BorderFocused)
}

pub fn border_unfocused() -> (r: Style)
    ensures
        r == style_of(Paint::BorderUnfocused),
{
    style(Paint::BorderUnfocused)
}

} // verus!
