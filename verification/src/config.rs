//! Configuration: what a session is run with, how a configuration file and
//! the command line shape it, and which values are acceptable.

use vstd::prelude::*;
use vstd::utf8::*;

use crate::path;
use crate::path::{pick_file, FilePath};
use crate::text;
use crate::text::{blank, cat, cat3, cat5, copy_texts, join_texts, same, split_text, u64_text};

verus! {

pub const PROGRAM: &'static str = "auto-scanner-ocr";

pub const VERSION: &'static str = "0.2.0";

/// The scan modes a user can choose.
pub const SCAN_MODES: [&'static str; 3] = ["gray", "color", "lineart"];

/// What each scan mode is called in `scanimage --mode=...`.
pub const SCANIMAGE_MODES: [(&'static str, &'static str); 3] = [
    ("gray", "Gray"),
    ("color", "Color"),
    ("lineart", "Lineart"),
];

/// The resolutions that `+` and `-` step through.
pub const DPI_PRESETS: [u16; 4] = [150, 200, 300, 600];

/// The lowest resolution that gives usable OCR results.
pub const MIN_DPI: u16 = 150;

/// The scan modes a user can choose.
pub open spec fn scan_modes() -> Seq<Seq<char>> {
    seq!["gray"@, "color"@, "lineart"@]
}

/// Copies of three names.
fn names_of(a: &[&'static str; 3]) -> (v: Vec<String>)
    ensures
        text::texts(v@) == seq![a@[0]@, a@[1]@, a@[2]@],
{
    let mut v: Vec<String> = Vec::new();
    v.push(a[0].to_owned());
    v.push(a[1].to_owned());
    v.push(a[2].to_owned());
    assert(text::texts(v@) =~= seq![a@[0]@, a@[1]@, a@[2]@]);
    v
}

// ------------------------------------------------------------------ cleanup

/// Page cleanup strategy.
#[derive(Debug, Clone, Copy, PartialEq, Eq, Structural)]
pub enum Cleanup {
    /// No unpaper pass; ocrmypdf cleans at finish. The default: unpaper's
    /// default filters destroy flatbed page content.
    Off,
    /// unpaper with all content-altering filters disabled.
    Conservative,
    /// unpaper's full default filter stack, which can erase page edges.
    Legacy,
}

impl Default for Cleanup {
    fn default() -> (r: Self)
        ensures
            r == Cleanup::Off,
    {
        Cleanup::Off
    }
}

impl Cleanup {
    /// The name of a strategy.
    pub open spec fn name(self) -> Seq<char> {
        match self {
            Cleanup::Off => "off"@,
            Cleanup::Conservative => "conservative"@,
            Cleanup::Legacy => "legacy"@,
        }
    }

    /// The strategy with the given name.
    pub open spec fn named(s: Seq<char>) -> Option<Cleanup> {
        if s == "off"@ {
            Some(Cleanup::Off)
        } else if s == "conservative"@ {
            Some(Cleanup::Conservative)
        } else if s == "legacy"@ {
            Some(Cleanup::Legacy)
        } else {
            None
        }
    }

    pub fn parse(s: &str) -> (r: Option<Self>)
        ensures
            r == Cleanup::named(s@),
    {
        if same(s, "off") {
            Some(Cleanup::Off)
        } else if same(s, "conservative") {
            Some(Cleanup::Conservative)
        } else if same(s, "legacy") {
            Some(Cleanup::Legacy)
        } else {
            None
        }
    }

    pub fn as_str(self) -> (r: &'static str)
        ensures
            r@ == self.name(),
    {
        match self {
            Cleanup::Off => "off",
            Cleanup::Conservative => "conservative",
            Cleanup::Legacy => "legacy",
        }
    }

    /// The names of all strategies.
    pub open spec fn names() -> Seq<Seq<char>> {
        seq!["off"@, "conservative"@, "legacy"@]
    }

    /// The names of all strategies.
    pub const ALL: [&'static str; 3] = ["off", "conservative", "legacy"];
}

/// Every cleanup strategy is found again under its own name, and only there.
pub proof fn law_cleanup_names(c: Cleanup, s: Seq<char>)
    ensures
        Cleanup::named(c.name()) == Some(c),
        Cleanup::named(s) == Some(c) <==> s == c.name(),
        Cleanup::named(s) is Some <==> Cleanup::names().contains(s),
{
    lemma_cleanup_literals();
    let n = Cleanup::names();
    assert(n[0] == "off"@ && n[1] == "conservative"@ && n[2] == "legacy"@);
}

proof fn lemma_cleanup_literals()
    ensures
        "off"@.len() == 3,
        "conservative"@.len() == 12,
        "legacy"@.len() == 6,
{
    reveal_strlit("off");
    reveal_strlit("conservative");
    reveal_strlit("legacy");
}

// -------------------------------------------------------------- preview OCR

/// When the OCR for the text pane of the terminal interface runs. The text
/// layer of the finished PDF is not affected.
#[derive(Debug, Clone, Copy, PartialEq, Eq, Structural)]
pub enum PreviewOcr {
    /// Every page right after it was captured.
    Eager,
    /// Only the selected page, when it has no text yet. The default.
    Lazy,
    /// Never, not even after a page was rotated.
    Off,
}

impl Default for PreviewOcr {
    fn default() -> (r: Self)
        ensures
            r == PreviewOcr::Lazy,
    {
        PreviewOcr::Lazy
    }
}

impl PreviewOcr {
    /// The name of a setting.
    pub open spec fn name(self) -> Seq<char> {
        match self {
            PreviewOcr::Eager => "eager"@,
            PreviewOcr::Lazy => "lazy"@,
            PreviewOcr::Off => "off"@,
        }
    }

    /// The setting with the given name.
    pub open spec fn named(s: Seq<char>) -> Option<PreviewOcr> {
        if s == "eager"@ {
            Some(PreviewOcr::Eager)
        } else if s == "lazy"@ {
            Some(PreviewOcr::Lazy)
        } else if s == "off"@ {
            Some(PreviewOcr::Off)
        } else {
            None
        }
    }

    pub fn parse(s: &str) -> (r: Option<Self>)
        ensures
            r == PreviewOcr::named(s@),
    {
        if same(s, "eager") {
            Some(PreviewOcr::Eager)
        } else if same(s, "lazy") {
            Some(PreviewOcr::Lazy)
        } else if same(s, "off") {
            Some(PreviewOcr::Off)
        } else {
            None
        }
    }

    pub fn as_str(self) -> (r: &'static str)
        ensures
            r@ == self.name(),
    {
        match self {
            PreviewOcr::Eager => "eager",
            PreviewOcr::Lazy => "lazy",
            PreviewOcr::Off => "off",
        }
    }

    /// The names of all settings.
    pub open spec fn names() -> Seq<Seq<char>> {
        seq!["eager"@, "lazy"@, "off"@]
    }

    /// The names of all settings.
    pub const ALL: [&'static str; 3] = ["eager", "lazy", "off"];
}

/// Every preview setting is found again under its own name, and only there.
pub proof fn law_preview_ocr_names(p: PreviewOcr, s: Seq<char>)
    ensures
        PreviewOcr::named(p.name()) == Some(p),
        PreviewOcr::named(s) == Some(p) <==> s == p.name(),
        PreviewOcr::named(s) is Some <==> PreviewOcr::names().contains(s),
{
    reveal_strlit("eager");
    reveal_strlit("lazy");
    reveal_strlit("off");
    assert("eager"@.len() == 5 && "lazy"@.len() == 4 && "off"@.len() == 3);
    let n = PreviewOcr::names();
    assert(n[0] == "eager"@ && n[1] == "lazy"@ && n[2] == "off"@);
}

// ------------------------------------------------------------ configuration

/// What a session is run with.
#[derive(Debug, PartialEq, Eq)]
pub struct Config {
    pub dpi: u16,
    pub mode: String,
    pub langs: String,
    pub device: String,
    pub output: FilePath,
    pub cleanup: Cleanup,
    /// When the OCR for the text pane runs.
    pub preview_ocr: PreviewOcr,
    /// Extra argument words for the unpaper command, written before the file
    /// arguments. Only used when `cleanup` is not off.
    pub unpaper_extra_args: Vec<String>,
    pub notify: bool,
}

/// A configuration, with text as sequences of characters.
#[verifier::ext_equal]
pub struct ConfigView {
    pub dpi: u16,
    pub mode: Seq<char>,
    pub langs: Seq<char>,
    pub device: Seq<char>,
    pub output: Seq<u8>,
    pub cleanup: Cleanup,
    pub preview_ocr: PreviewOcr,
    pub unpaper_extra_args: Seq<Seq<char>>,
    pub notify: bool,
}

impl View for Config {
    type V = ConfigView;

    open spec fn view(&self) -> ConfigView {
        ConfigView {
            dpi: self.dpi,
            mode: self.mode@,
            langs: self.langs@,
            device: self.device@,
            output: self.output@,
            cleanup: self.cleanup,
            preview_ocr: self.preview_ocr,
            unpaper_extra_args: text::texts(self.unpaper_extra_args@),
            notify: self.notify,
        }
    }
}

impl Clone for Config {
    fn clone(&self) -> (r: Self)
        ensures
            r@ == self@,
    {
        Config {
            dpi: self.dpi,
            mode: self.mode.clone(),
            langs: self.langs.clone(),
            device: self.device.clone(),
            output: self.output.clone(),
            cleanup: self.cleanup,
            preview_ocr: self.preview_ocr,
            unpaper_extra_args: copy_texts(self.unpaper_extra_args.as_slice()),
            notify: self.notify,
        }
    }
}

/// The directory finished documents go to when the user names none.
pub open spec fn default_output(home: Option<Seq<u8>>) -> Seq<u8> {
    let base = match home {
        Some(h) => h,
        None => encode_utf8("."@),
    };
    path::join_path(base, encode_utf8("Documents/scans"@))
}

/// The configuration of a user with the given home directory who has set
/// nothing.
pub open spec fn default_config(home: Option<Seq<u8>>) -> ConfigView {
    ConfigView {
        dpi: 300,
        mode: "gray"@,
        langs: "deu+Latin"@,
        device: "auto"@,
        output: default_output(home),
        cleanup: Cleanup::Off,
        preview_ocr: PreviewOcr::Lazy,
        unpaper_extra_args: Seq::empty(),
        notify: true,
    }
}

/// The bytes of an optional path.
pub open spec fn opt_path(p: Option<FilePath>) -> Option<Seq<u8>> {
    match p {
        Some(p) => Some(p@),
        None => None,
    }
}

/// The characters of an optional string.
pub open spec fn opt_text(s: Option<String>) -> Option<Seq<char>> {
    match s {
        Some(s) => Some(s@),
        None => None,
    }
}

/// `dirs::home_dir`: the home directory of the user, where the system knows
/// one. It depends on the environment, so nothing is claimed of it.
#[verifier::external_body]
fn home_dir() -> (r: Option<FilePath>) {
    dirs::home_dir().map(|p| FilePath { bytes: p.into_os_string().into_encoded_bytes() })
}

/// Whether this is what `home_dir` may give for the home directory.
pub closed spec fn is_home(home: Option<Seq<u8>>) -> bool {
    exists|h: Option<FilePath>| #[trigger] call_ensures(home_dir, (), h) && home == opt_path(h)
}

/// The home directory of the user.
pub(crate) fn user_home() -> (r: Option<FilePath>)
    ensures
        is_home(opt_path(r)),
{
    let r = home_dir();
    assert(call_ensures(home_dir, (), r));
    r
}

impl Config {
    /// The configuration of a user with the given home directory who has set
    /// nothing.
    pub fn default_for(home: Option<FilePath>) -> (r: Self)
        ensures
            r@ == default_config(opt_path(home)),
    {
        let base = match home {
            Some(h) => h,
            None => FilePath::from_text("."),
        };
        let r = Config {
            dpi: 300,
            mode: "gray".to_owned(),
            langs: "deu+Latin".to_owned(),
            device: "auto".to_owned(),
            output: base.join("Documents/scans"),
            cleanup: Cleanup::Off,
            preview_ocr: PreviewOcr::Lazy,
            unpaper_extra_args: Vec::new(),
            notify: true,
        };
        assert(r@.unpaper_extra_args =~= Seq::empty());
        r
    }
}

impl Default for Config {
    /// The configuration of this machine's user who has set nothing.
    fn default() -> (r: Self)
        ensures
            exists|home: Option<Seq<u8>>| is_home(home) && r@ == #[trigger] default_config(home),
    {
        let home = user_home();
        let ghost h = opt_path(home);
        let r = Config::default_for(home);
        assert(r@ == default_config(h));
        r
    }
}

/// One set of configuration keys, each of which a file may leave out.
#[derive(Debug)]
pub struct ScanSection {
    pub dpi: Option<u16>,
    pub mode: Option<String>,
    pub langs: Option<String>,
    pub device: Option<String>,
    pub output: Option<String>,
    /// Superseded by `cleanup` (see [`migrate_unpaper`]).
    pub unpaper: Option<bool>,
    pub cleanup: Option<String>,
    pub preview_ocr: Option<String>,
    pub unpaper_extra_args: Option<Vec<String>>,
    pub notify: Option<bool>,
}

/// What a configuration file holds: the keys of a `[scan]` section, or the
/// keys at its top level.
#[derive(Debug)]
pub struct RawConfig {
    pub scan: Option<ScanSection>,
    pub flat: ScanSection,
}

impl RawConfig {
    /// The keys that count: those of the `[scan]` section where there is one.
    pub open spec fn chosen(self) -> ScanSection {
        match self.scan {
            Some(s) => s,
            None => self.flat,
        }
    }

    /// The keys that count: those of the `[scan]` section where there is one.
    pub fn section(self) -> (r: ScanSection)
        ensures
            r == self.chosen(),
    {
        match self.scan {
            Some(s) => s,
            None => self.flat,
        }
    }
}

/// Why a configuration is refused.
#[derive(Debug, PartialEq, Eq)]
pub enum ConfigError {
    /// The file that was asked for does not exist.
    NotFound(FilePath),
    /// A path with a variable that cannot be expanded.
    PathExpression(String),
    Cleanup(String),
    PreviewOcr(String),
    Dpi(u16),
    Mode(String),
    Langs(String),
    ExtraArgs,
}

/// A refusal, with text as sequences of characters.
#[verifier::ext_equal]
pub enum ConfigErrorView {
    NotFound(Seq<u8>),
    PathExpression(Seq<char>),
    Cleanup(Seq<char>),
    PreviewOcr(Seq<char>),
    Dpi(u16),
    Mode(Seq<char>),
    Langs(Seq<char>),
    ExtraArgs,
}

impl View for ConfigError {
    type V = ConfigErrorView;

    open spec fn view(&self) -> ConfigErrorView {
        match *self {
            ConfigError::NotFound(p) => ConfigErrorView::NotFound(p@),
            ConfigError::PathExpression(s) => ConfigErrorView::PathExpression(s@),
            ConfigError::Cleanup(s) => ConfigErrorView::Cleanup(s@),
            ConfigError::PreviewOcr(s) => ConfigErrorView::PreviewOcr(s@),
            ConfigError::Dpi(d) => ConfigErrorView::Dpi(d),
            ConfigError::Mode(s) => ConfigErrorView::Mode(s@),
            ConfigError::Langs(s) => ConfigErrorView::Langs(s@),
            ConfigError::ExtraArgs => ConfigErrorView::ExtraArgs,
        }
    }
}

/// The text that the `Debug` formatting of a string gives.
pub uninterp spec fn quoted(s: Seq<char>) -> Seq<char>;

/// `Debug` for `str`: the string in double quotes, with what is not printable
/// escaped.
#[verifier::external_body]
pub(crate) fn quoted_text(s: &str) -> (r: String)
    ensures
        r@ == quoted(s@),
{
    format!("{s:?}")
}

/// What is reported of a refusal.
pub open spec fn config_error_text(e: ConfigErrorView) -> Seq<char> {
    match e {
        ConfigErrorView::NotFound(p) => "Config file not found: "@ + path::lossy(p),
        ConfigErrorView::PathExpression(s) => "invalid path expression: "@ + quoted(s),
        ConfigErrorView::Cleanup(s) => "invalid cleanup '"@ + s + "' (use: "@ + text::join(
            Cleanup::names(),
            ", "@,
        ) + ")"@,
        ConfigErrorView::PreviewOcr(s) => "invalid preview_ocr '"@ + s + "' (use: "@
            + text::join(PreviewOcr::names(), ", "@) + ")"@,
        ConfigErrorView::Dpi(d) => "dpi must be >= 150 for usable OCR results (got "@
            + text::dec(d as nat) + ")"@,
        ConfigErrorView::Mode(s) => "invalid mode '"@ + s + "' (use: "@ + text::join(
            scan_modes(),
            ", "@,
        ) + ")"@,
        ConfigErrorView::Langs(s) => "invalid langs '"@ + s
            + "' (use plus-separated codes, e.g. deu+Latin)"@,
        ConfigErrorView::ExtraArgs => "unpaper_extra_args must be non-empty strings"@,
    }
}

impl ConfigError {
    /// What is reported of a refusal.
    pub fn message(&self) -> (r: String)
        ensures
            r@ == config_error_text(self@),
    {
        match self {
            ConfigError::NotFound(p) => cat("Config file not found: ", p.display().as_str()),
            ConfigError::PathExpression(s) => cat(
                "invalid path expression: ",
                quoted_text(s.as_str()).as_str(),
            ),
            ConfigError::Cleanup(s) => {
                let names = join_texts(names_of(&Cleanup::ALL).as_slice(), ", ");
                cat5("invalid cleanup '", s.as_str(), "' (use: ", names.as_str(), ")")
            },
            ConfigError::PreviewOcr(s) => {
                let names = join_texts(names_of(&PreviewOcr::ALL).as_slice(), ", ");
                cat5("invalid preview_ocr '", s.as_str(), "' (use: ", names.as_str(), ")")
            },
            ConfigError::Dpi(d) => cat3(
                "dpi must be >= 150 for usable OCR results (got ",
                u64_text(*d as u64).as_str(),
                ")",
            ),
            ConfigError::Mode(s) => {
                let names = join_texts(names_of(&SCAN_MODES).as_slice(), ", ");
                cat5("invalid mode '", s.as_str(), "' (use: ", names.as_str(), ")")
            },
            ConfigError::Langs(s) => cat3(
                "invalid langs '",
                s.as_str(),
                "' (use plus-separated codes, e.g. deu+Latin)",
            ),
            ConfigError::ExtraArgs => "unpaper_extra_args must be non-empty strings".to_owned(),
        }
    }
}

// --------------------------------------------------------------- languages

/// Whether `lang` names a tesseract script model rather than a language.
pub open spec fn script_lang(lang: Seq<char>) -> bool {
    lang == "Latin"@
}

/// Whether `lang` names a tesseract script model rather than a language.
pub fn is_script_lang(lang: &str) -> (r: bool)
    ensures
        r == script_lang(lang@),
{
    same(lang, "Latin")
}

/// The Debian/Ubuntu package that ships a script model, if there is one.
pub fn script_lang_package(lang: &str) -> (r: Option<String>)
    ensures
        match r {
            Some(p) => script_lang(lang@) && p@ == "tesseract-ocr-script-latn"@,
            None => !script_lang(lang@),
        },
{
    if is_script_lang(lang) {
        Some("tesseract-ocr-script-latn".to_owned())
    } else {
        None
    }
}

/// A character of a language code.
pub open spec fn code_char(c: char) -> bool {
    'a' <= c <= 'z' || c == '_'
}

/// One language: a script model, or a code of lowercase letters and
/// underscores.
pub open spec fn lang_part_ok(part: Seq<char>) -> bool {
    part.len() > 0 && (script_lang(part) || forall|i: int|
        0 <= i < part.len() ==> code_char(#[trigger] part[i]))
}

/// A list of languages as tesseract takes it: parts with `+` between them.
pub open spec fn langs_ok(langs: Seq<char>) -> bool {
    langs.len() > 0 && forall|i: int|
        0 <= i < text::split(langs, '+').len() ==> lang_part_ok(
            #[trigger] text::split(langs, '+')[i],
        )
}

fn part_valid(part: &str) -> (r: bool)
    ensures
        r == lang_part_ok(part@),
{
    let cs = text::chars_of(part);
    if cs.len() == 0 {
        return false;
    }
    if is_script_lang(part) {
        return true;
    }
    let mut i: usize = 0;
    while i < cs.len()
        invariant
            i <= cs@.len(),
            cs@ == part@,
            cs@.len() > 0,
            !script_lang(part@),
            forall|j: int| 0 <= j < i ==> code_char(#[trigger] cs@[j]),
        decreases cs@.len() - i,
    {
        let c = cs[i];
        if !(('a' <= c && c <= 'z') || c == '_') {
            assert(!code_char(part@[i as int]));
            return false;
        }
        i = i + 1;
    }
    true
}

pub fn langs_valid(langs: &str) -> (r: bool)
    ensures
        r == langs_ok(langs@),
{
    if langs.is_empty() {
        return false;
    }
    let parts = split_text(langs, '+');
    let ghost all = text::split(langs@, '+');
    let mut i: usize = 0;
    while i < parts.len()
        invariant
            i <= parts@.len(),
            langs@.len() > 0,
            all == text::split(langs@, '+'),
            text::texts(parts@) == all,
            forall|j: int| 0 <= j < i ==> lang_part_ok(#[trigger] all[j]),
        decreases parts@.len() - i,
    {
        assert(all[i as int] == parts@[i as int]@);
        if !part_valid(parts[i].as_str()) {
            return false;
        }
        i = i + 1;
    }
    true
}

// --------------------------------------------------------------- validation

/// An argument word that is not blank.
pub open spec fn word_ok(a: Seq<char>) -> bool {
    text::trim(a).len() > 0
}

/// Whether a session can be run with a configuration.
pub open spec fn config_ok(c: ConfigView) -> bool {
    &&& c.dpi >= MIN_DPI
    &&& scan_modes().contains(c.mode)
    &&& langs_ok(c.langs)
    &&& words_ok(c.unpaper_extra_args)
}

/// Which refusal a configuration earns: the first of the four rules that it
/// breaks.
pub open spec fn config_fault(c: ConfigView) -> Option<ConfigErrorView> {
    if c.dpi < MIN_DPI {
        Some(ConfigErrorView::Dpi(c.dpi))
    } else if !scan_modes().contains(c.mode) {
        Some(ConfigErrorView::Mode(c.mode))
    } else if !langs_ok(c.langs) {
        Some(ConfigErrorView::Langs(c.langs))
    } else if !config_ok(c) {
        Some(ConfigErrorView::ExtraArgs)
    } else {
        None
    }
}

/// The outcome of holding a configuration against the rules.
pub open spec fn validated(c: ConfigView) -> Result<ConfigView, ConfigErrorView> {
    match config_fault(c) {
        Some(e) => Err(e),
        None => Ok(c),
    }
}

/// A configuration or a refusal, with text as sequences of characters.
pub open spec fn config_result(r: Result<Config, ConfigError>) -> Result<
    ConfigView,
    ConfigErrorView,
> {
    match r {
        Ok(c) => Ok(c@),
        Err(e) => Err(e@),
    }
}

/// A configuration passes exactly when it obeys the rules.
pub proof fn law_validated_ok(c: ConfigView)
    ensures
        validated(c) is Ok <==> config_ok(c),
        validated(c) is Ok ==> validated(c) == Ok::<ConfigView, ConfigErrorView>(c),
{
}

/// The configuration of a user who has set nothing obeys the rules.
pub proof fn law_default_valid(home: Option<Seq<u8>>)
    ensures
        config_ok(default_config(home)),
{
    let c = default_config(home);
    assert(scan_modes()[0] == "gray"@);
    reveal_strlit("deu+Latin");
    reveal_strlit("deu");
    reveal_strlit("Latin");
    text::lemma_split_pair("deu"@, '+', "Latin"@);
    assert("deu"@.push('+') + "Latin"@ =~= c.langs);
}

/// Whether `s` is one of the scan modes.
pub fn is_scan_mode(s: &str) -> (r: bool)
    ensures
        r == scan_modes().contains(s@),
{
    let r = same(s, "gray") || same(s, "color") || same(s, "lineart");
    proof {
        let m = scan_modes();
        assert(m[0] == "gray"@ && m[1] == "color"@ && m[2] == "lineart"@);
    }
    r
}

/// Argument words none of which is blank.
pub open spec fn words_ok(args: Seq<Seq<char>>) -> bool {
    forall|i: int| 0 <= i < args.len() ==> word_ok(#[trigger] args[i])
}

fn words_valid(args: &[String]) -> (r: bool)
    ensures
        r == words_ok(text::texts(args@)),
{
    let mut i: usize = 0;
    while i < args.len()
        invariant
            i <= args@.len(),
            forall|j: int| 0 <= j < i ==> word_ok(#[trigger] text::texts(args@)[j]),
        decreases args@.len() - i,
    {
        if blank(args[i].as_str()) {
            assert(!word_ok(text::texts(args@)[i as int]));
            return false;
        }
        i = i + 1;
    }
    true
}

/// Refuses a configuration that no session can be run with.
pub fn validate(cfg: Config) -> (r: Result<Config, ConfigError>)
    ensures
        config_result(r) == validated(cfg@),
{
    if cfg.dpi < MIN_DPI {
        return Err(ConfigError::Dpi(cfg.dpi));
    }
    if !is_scan_mode(cfg.mode.as_str()) {
        return Err(ConfigError::Mode(cfg.mode));
    }
    if !langs_valid(cfg.langs.as_str()) {
        return Err(ConfigError::Langs(cfg.langs));
    }
    if !words_valid(cfg.unpaper_extra_args.as_slice()) {
        return Err(ConfigError::ExtraArgs);
    }
    Ok(cfg)
}

// ----------------------------------------------------------------- loading

/// A configuration whose superseded `unpaper` key is not resolved yet.
#[derive(Debug)]
pub struct LoadedConfig {
    pub dpi: u16,
    pub mode: String,
    pub langs: String,
    pub device: String,
    pub output: FilePath,
    pub cleanup: Cleanup,
    /// Whether the file set `cleanup` itself.
    pub cleanup_explicit: bool,
    pub unpaper_legacy: Option<bool>,
    pub preview_ocr: PreviewOcr,
    pub unpaper_extra_args: Vec<String>,
    pub notify: bool,
}

impl View for LoadedConfig {
    type V = ConfigView;

    /// What is set so far, the `unpaper` key aside.
    open spec fn view(&self) -> ConfigView {
        ConfigView {
            dpi: self.dpi,
            mode: self.mode@,
            langs: self.langs@,
            device: self.device@,
            output: self.output@,
            cleanup: self.cleanup,
            preview_ocr: self.preview_ocr,
            unpaper_extra_args: text::texts(self.unpaper_extra_args@),
            notify: self.notify,
        }
    }
}

/// The cleanup strategy that the `unpaper` key leads to: a strategy that was
/// set explicitly wins, `true` becomes conservative, `false` becomes off.
pub open spec fn migrated(cleanup: Cleanup, explicit: bool, unpaper: Option<bool>) -> Cleanup {
    match unpaper {
        Some(on) => if explicit {
            cleanup
        } else if on {
            Cleanup::Conservative
        } else {
            Cleanup::Off
        },
        None => cleanup,
    }
}

/// Resolves the superseded `unpaper` key.
pub fn migrate_unpaper(cfg: LoadedConfig) -> (r: Config)
    ensures
        r@ == (ConfigView {
            cleanup: migrated(cfg.cleanup, cfg.cleanup_explicit, cfg.unpaper_legacy),
            ..cfg@
        }),
{
    let cleanup = match cfg.unpaper_legacy {
        Some(on) => if cfg.cleanup_explicit {
            cfg.cleanup
        } else if on {
            Cleanup::Conservative
        } else {
            Cleanup::Off
        },
        None => cfg.cleanup,
    };
    Config {
        dpi: cfg.dpi,
        mode: cfg.mode,
        langs: cfg.langs,
        device: cfg.device,
        output: cfg.output,
        cleanup,
        preview_ocr: cfg.preview_ocr,
        unpaper_extra_args: cfg.unpaper_extra_args,
        notify: cfg.notify,
    }
}

/// What is to be said about the keys of a file: nothing, or why the
/// `unpaper` key should go.
pub fn migration_warning(cfg: &LoadedConfig) -> (r: Option<String>)
    ensures
        match r {
            Some(w) => w@ == (if cfg.cleanup_explicit {
                "config has both 'unpaper' and 'cleanup'; ignoring 'unpaper' ('cleanup' wins)"@
            } else {
                "config key 'unpaper' is deprecated; use cleanup = \"conservative\" (or \"off\" / \"legacy\")"@
            }) && (cfg.unpaper_legacy == Some(true) || (cfg.unpaper_legacy is Some
                && cfg.cleanup_explicit)),
            None => cfg.unpaper_legacy is None || (cfg.unpaper_legacy == Some(false)
                && !cfg.cleanup_explicit),
        },
{
    match cfg.unpaper_legacy {
        Some(on) => if cfg.cleanup_explicit {
            Some(
                "config has both 'unpaper' and 'cleanup'; ignoring 'unpaper' ('cleanup' wins)".to_owned(),
            )
        } else if on {
            Some(
                "config key 'unpaper' is deprecated; use cleanup = \"conservative\" (or \"off\" / \"legacy\")".to_owned(),
            )
        } else {
            None
        },
        None => None,
    }
}

/// A text that begins with the sign for the home directory: `~` alone or as
/// the first component.
pub open spec fn starts_at_home(s: Seq<char>) -> bool {
    s.len() > 0 && s[0] == '~' && (s.len() == 1 || s[1] == '/' || s[1] == '\\')
}

/// A text that begins with `~`, with something else in its place.
pub open spec fn below_home(home: Seq<char>, s: Seq<char>) -> Seq<char> {
    home + s.skip(1)
}

/// `shellexpand::full`: the text with a leading `~` and the variables in it
/// expanded. What they become depends on the environment. Of a text with
/// neither, the function returns the text itself, and without a variable it
/// does not fail: what follows a leading `~` is kept then, behind the home
/// directory (or behind the `~`, where no home directory is known). An error
/// is handed over as its message.
#[verifier::external_body]
pub(crate) fn expand(s: &str) -> (r: Result<String, String>)
    ensures
        !s@.contains('$') ==> r is Ok,
        !s@.contains('$') && !starts_at_home(s@) ==> r->Ok_0@ == s@,
        !s@.contains('$') && starts_at_home(s@) ==> exists|home: Seq<char>|
            r->Ok_0@ == #[trigger] below_home(home, s@),
{
    match shellexpand::full(s) {
        Ok(t) => Ok(t.into_owned()),
        Err(e) => Err(e.to_string()),
    }
}

/// The path that the outcome of an expansion stands for.
pub fn expanded_path(s: &str, expanded: Result<String, String>) -> (r: Result<
    FilePath,
    ConfigError,
>)
    ensures
        path_result(r) == path_of_expansion(s@, expanded),
{
    match expanded {
        Ok(t) => Ok(FilePath::from_text(t.as_str())),
        Err(_) => Err(ConfigError::PathExpression(s.to_owned())),
    }
}

/// The outcome of an expansion, as bytes.
pub open spec fn path_result(r: Result<FilePath, ConfigError>) -> Result<Seq<u8>, ConfigErrorView> {
    match r {
        Ok(p) => Ok(p@),
        Err(e) => Err(e@),
    }
}

/// The path that the outcome of an expansion stands for.
pub open spec fn path_of_expansion(s: Seq<char>, out: Result<String, String>) -> Result<
    Seq<u8>,
    ConfigErrorView,
> {
    match out {
        Ok(t) => Ok(encode_utf8(t@)),
        Err(_) => Err(ConfigErrorView::PathExpression(s)),
    }
}

/// Whether a path is what an expansion of just this text, by `expand`, stands
/// for.
pub closed spec fn comes_from_expansion(s: Seq<char>, r: Result<Seq<u8>, ConfigErrorView>) -> bool {
    exists|arg: &str, out: Result<String, String>|
        arg@ == s && #[trigger] call_ensures(expand, (arg,), out) && r == path_of_expansion(s, out)
}

/// What holds of the path that a text with `~` and `$VARS` stands for,
/// whatever the environment is: it comes from the expansion of that text; it
/// is the text itself where there is nothing to expand; what follows a leading
/// `~` is kept; and only a variable can make it fail.
pub open spec fn may_expand_to(s: Seq<char>, r: Result<Seq<u8>, ConfigErrorView>) -> bool {
    &&& comes_from_expansion(s, r)
    &&& match r {
        Ok(p) => !s.contains('$') ==> if starts_at_home(s) {
            exists|home: Seq<char>| p == encode_utf8(#[trigger] below_home(home, s))
        } else {
            p == encode_utf8(s)
        },
        Err(e) => s.contains('$') && e == ConfigErrorView::PathExpression(s),
    }
}

/// The path that a text with `~` and `$VARS` stands for.
pub fn expand_path(s: &str) -> (r: Result<FilePath, ConfigError>)
    ensures
        may_expand_to(s@, path_result(r)),
{
    let out = expand(s);
    let ghost o = out;
    let r = expanded_path(s, out);
    assert(call_ensures(expand, (s,), o));
    r
}

/// Where the configuration is looked for when the user names no file.
pub open spec fn default_candidates(home: Option<Seq<u8>>) -> Seq<Seq<u8>> {
    let here = seq![encode_utf8("config.toml"@)];
    match home {
        Some(h) => here.push(
            path::join_path(
                path::join_path(
                    path::join_path(h, encode_utf8(".config"@)),
                    encode_utf8(PROGRAM@),
                ),
                encode_utf8("config.toml"@),
            ),
        ),
        None => here,
    }
}

/// The places where the configuration is looked for, given the home
/// directory.
pub fn candidates_for(home: Option<FilePath>) -> (r: Vec<FilePath>)
    ensures
        path::paths(r@) == default_candidates(opt_path(home)),
{
    let mut v: Vec<FilePath> = Vec::new();
    v.push(FilePath::from_text("config.toml"));
    match home {
        Some(h) => v.push(h.join(".config").join(PROGRAM).join("config.toml")),
        None => {},
    }
    assert(path::paths(v@) =~= default_candidates(opt_path(home)));
    v
}

/// The places where the configuration is looked for, in order: the file that
/// the user names, else `./config.toml`, then
/// `~/.config/auto-scanner-ocr/config.toml`.
pub fn config_candidates(explicit: Option<&FilePath>) -> (r: Result<Vec<FilePath>, ConfigError>)
    ensures
        match explicit {
            Some(p) => match r {
                Ok(v) => v@.len() == 1 && may_expand_to(path::lossy(p@), Ok(v@[0]@)),
                Err(e) => may_expand_to(path::lossy(p@), Err(e@)),
            },
            None => r is Ok && exists|home: Option<Seq<u8>>|
                is_home(home) && path::paths(r->Ok_0@) == #[trigger] default_candidates(home),
        },
{
    match explicit {
        Some(p) => {
            let text = p.display();
            match expand_path(text.as_str()) {
                Ok(q) => {
                    let mut v: Vec<FilePath> = Vec::new();
                    v.push(q);
                    Ok(v)
                },
                Err(e) => Err(e),
            }
        },
        None => {
            let home = user_home();
            let ghost h = opt_path(home);
            let v = candidates_for(home);
            assert(path::paths(v@) == default_candidates(h));
            Ok(v)
        },
    }
}

/// The configuration file to read: the first place at which there is a file.
/// A file that the user names must exist.
pub fn find_config(explicit: bool, candidates: &[FilePath], is_file: &[bool]) -> (r: Result<
    Option<FilePath>,
    ConfigError,
>)
    requires
        candidates@.len() == is_file@.len(),
    ensures
        match path::first_file(path::paths(candidates@), is_file@) {
            Some(p) => r is Ok && opt_path(r->Ok_0) == Some(p),
            None => if explicit && candidates@.len() > 0 {
                r is Err && r->Err_0@ == ConfigErrorView::NotFound(candidates@[0]@)
            } else {
                r is Ok && r->Ok_0 is None
            },
        },
{
    if let Some(p) = pick_file(candidates, is_file) {
        return Ok(Some(p));
    }
    if explicit && candidates.len() > 0 {
        Err(ConfigError::NotFound(candidates[0].clone()))
    } else {
        Ok(None)
    }
}

/// The keys of a file, applied to a configuration. The output directory is
/// given expanded.
pub open spec fn section_applied(
    base: ConfigView,
    s: ScanSection,
    output: Option<Result<Seq<u8>, ConfigErrorView>>,
) -> Result<ConfigView, ConfigErrorView> {
    if output is Some && output->0 is Err {
        Err(output->0->Err_0)
    } else if s.cleanup is Some && Cleanup::named(s.cleanup->0@) is None {
        Err(ConfigErrorView::Cleanup(s.cleanup->0@))
    } else if s.preview_ocr is Some && PreviewOcr::named(s.preview_ocr->0@) is None {
        Err(ConfigErrorView::PreviewOcr(s.preview_ocr->0@))
    } else {
        Ok(
            ConfigView {
                dpi: match s.dpi {
                    Some(v) => v,
                    None => base.dpi,
                },
                mode: match s.mode {
                    Some(v) => v@,
                    None => base.mode,
                },
                langs: match s.langs {
                    Some(v) => v@,
                    None => base.langs,
                },
                device: match s.device {
                    Some(v) => v@,
                    None => base.device,
                },
                output: match output {
                    Some(Ok(v)) => v,
                    _ => base.output,
                },
                cleanup: migrated(
                    match s.cleanup {
                        Some(v) => Cleanup::named(v@)->0,
                        None => base.cleanup,
                    },
                    s.cleanup is Some,
                    s.unpaper,
                ),
                preview_ocr: match s.preview_ocr {
                    Some(v) => PreviewOcr::named(v@)->0,
                    None => base.preview_ocr,
                },
                unpaper_extra_args: match s.unpaper_extra_args {
                    Some(v) => text::texts(v@),
                    None => base.unpaper_extra_args,
                },
                notify: match s.notify {
                    Some(v) => v,
                    None => base.notify,
                },
            },
        )
    }
}

/// An expanded output directory, as bytes.
pub open spec fn output_view(output: Option<Result<FilePath, ConfigError>>) -> Option<
    Result<Seq<u8>, ConfigErrorView>,
> {
    match output {
        Some(r) => Some(path_result(r)),
        None => None,
    }
}

/// The keys of a file, applied to a configuration, before the superseded
/// `unpaper` key is resolved.
pub fn apply_section(
    base: Config,
    s: ScanSection,
    output: Option<Result<FilePath, ConfigError>>,
) -> (r: Result<LoadedConfig, ConfigError>)
    ensures
        match (section_applied(base@, s, output_view(output)), r) {
            (Ok(c), Ok(l)) => c == (ConfigView {
                cleanup: migrated(l.cleanup, l.cleanup_explicit, l.unpaper_legacy),
                ..l@
            }) && l.cleanup_explicit == (s.cleanup is Some) && l.unpaper_legacy == s.unpaper,
            (Err(e), Err(f)) => e == f@,
            _ => false,
        },
{
    let mut cfg = LoadedConfig {
        dpi: base.dpi,
        mode: base.mode,
        langs: base.langs,
        device: base.device,
        output: base.output,
        cleanup: base.cleanup,
        cleanup_explicit: false,
        unpaper_legacy: None,
        preview_ocr: base.preview_ocr,
        unpaper_extra_args: base.unpaper_extra_args,
        notify: base.notify,
    };
    if let Some(v) = s.dpi {
        cfg.dpi = v;
    }
    if let Some(v) = s.mode {
        cfg.mode = v;
    }
    if let Some(v) = s.langs {
        cfg.langs = v;
    }
    if let Some(v) = s.device {
        cfg.device = v;
    }
    match output {
        Some(Ok(p)) => {
            cfg.output = p;
        },
        Some(Err(e)) => {
            return Err(e);
        },
        None => {},
    }
    if let Some(v) = s.unpaper {
        cfg.unpaper_legacy = Some(v);
    }
    if let Some(v) = s.cleanup {
        match Cleanup::parse(v.as_str()) {
            Some(c) => {
                cfg.cleanup = c;
                cfg.cleanup_explicit = true;
            },
            None => {
                return Err(ConfigError::Cleanup(v));
            },
        }
    }
    if let Some(v) = s.preview_ocr {
        match PreviewOcr::parse(v.as_str()) {
            Some(p) => {
                cfg.preview_ocr = p;
            },
            None => {
                return Err(ConfigError::PreviewOcr(v));
            },
        }
    }
    if let Some(v) = s.unpaper_extra_args {
        cfg.unpaper_extra_args = v;
    }
    if let Some(v) = s.notify {
        cfg.notify = v;
    }
    Ok(cfg)
}

/// The configuration that a file leads to. Without a file it is the
/// default one.
pub open spec fn loaded(
    base: ConfigView,
    section: Option<ScanSection>,
    output: Option<Result<Seq<u8>, ConfigErrorView>>,
) -> Result<ConfigView, ConfigErrorView> {
    match section {
        None => Ok(base),
        Some(s) => match section_applied(base, s, output) {
            Ok(c) => validated(c),
            Err(e) => Err(e),
        },
    }
}

/// The configuration that a file leads to, given the default one and the
/// expanded output directory.
pub fn load_from(
    base: Config,
    section: Option<ScanSection>,
    output: Option<Result<FilePath, ConfigError>>,
) -> (r: Result<Config, ConfigError>)
    ensures
        config_result(r) == loaded(base@, section, output_view(output)),
{
    match section {
        None => Ok(base),
        Some(s) => match apply_section(base, s, output) {
            Ok(l) => validate(migrate_unpaper(l)),
            Err(e) => Err(e),
        },
    }
}

/// The keys that count in what a file holds, if there is a file.
pub open spec fn raw_section(raw: Option<RawConfig>) -> Option<ScanSection> {
    match raw {
        Some(c) => Some(c.chosen()),
        None => None,
    }
}

/// The configuration that the contents of a configuration file lead to, with
/// this machine's defaults; without a file, the defaults themselves.
pub fn load_config(raw: Option<RawConfig>) -> (r: Result<Config, ConfigError>)
    ensures
        exists|home: Option<Seq<u8>>, output: Option<Result<Seq<u8>, ConfigErrorView>>|
            {
                &&& is_home(home)
                &&& config_result(r) == #[trigger] loaded(
                    default_config(home),
                    raw_section(raw),
                    output,
                )
                &&& (output is Some <==> raw is Some && raw->0.chosen().output is Some)
                &&& (output matches Some(o) ==> may_expand_to(raw->0.chosen().output->0@, o))
            },
{
    let home = user_home();
    let ghost h = opt_path(home);
    let base = Config::default_for(home);
    match raw {
        None => {
            let r = load_from(base, None, None);
            assert(config_result(r) == loaded(default_config(h), None, None));
            r
        },
        Some(c) => {
            let s = c.section();
            let output = match &s.output {
                Some(v) => Some(expand_path(v.as_str())),
                None => None,
            };
            let ghost o = output_view(output);
            let ghost gs = s;
            let r = load_from(base, Some(s), output);
            assert(config_result(r) == loaded(default_config(h), Some(gs), o));
            r
        },
    }
}

/// Whatever a file holds, the configuration that comes out of it obeys the
/// rules.
pub proof fn law_loaded_valid(
    home: Option<Seq<u8>>,
    section: Option<ScanSection>,
    output: Option<Result<Seq<u8>, ConfigErrorView>>,
)
    ensures
        loaded(default_config(home), section, output) matches Ok(c) ==> config_ok(c),
{
    law_default_valid(home);
}

/// Every key that a file sets is the value of the configuration, and every key
/// that it leaves out keeps its default. A superseded `unpaper` key counts
/// only where the file does not say how to clean.
pub proof fn law_file_keys_count(
    base: ConfigView,
    s: ScanSection,
    output: Option<Result<Seq<u8>, ConfigErrorView>>,
)
    ensures
        loaded(base, Some(s), output) matches Ok(c) ==> {
            &&& c.dpi == (if s.dpi is Some {
                s.dpi->0
            } else {
                base.dpi
            })
            &&& c.mode == (if s.mode is Some {
                s.mode->0@
            } else {
                base.mode
            })
            &&& c.langs == (if s.langs is Some {
                s.langs->0@
            } else {
                base.langs
            })
            &&& c.device == (if s.device is Some {
                s.device->0@
            } else {
                base.device
            })
            &&& output is None ==> c.output == base.output
            &&& output matches Some(o) ==> o == Ok::<Seq<u8>, ConfigErrorView>(c.output)
            &&& s.preview_ocr is Some ==> c.preview_ocr.name() == s.preview_ocr->0@
            &&& s.preview_ocr is None ==> c.preview_ocr == base.preview_ocr
            &&& s.cleanup is Some ==> c.cleanup.name() == s.cleanup->0@
            &&& s.cleanup is None && s.unpaper is None ==> c.cleanup == base.cleanup
            &&& s.cleanup is None && s.unpaper == Some(true) ==> c.cleanup == Cleanup::Conservative
            &&& s.cleanup is None && s.unpaper == Some(false) ==> c.cleanup == Cleanup::Off
            &&& c.unpaper_extra_args == (if s.unpaper_extra_args is Some {
                text::texts(s.unpaper_extra_args->0@)
            } else {
                base.unpaper_extra_args
            })
            &&& c.notify == (if s.notify is Some {
                s.notify->0
            } else {
                base.notify
            })
        },
        loaded(base, None, output) == Ok::<ConfigView, ConfigErrorView>(base),
{
    if s.cleanup is Some && Cleanup::named(s.cleanup->0@) is Some {
        law_cleanup_names(Cleanup::named(s.cleanup->0@)->0, s.cleanup->0@);
    }
    if s.preview_ocr is Some && PreviewOcr::named(s.preview_ocr->0@) is Some {
        law_preview_ocr_names(PreviewOcr::named(s.preview_ocr->0@)->0, s.preview_ocr->0@);
    }
}

/// A file is refused only for a reason: where the output directory can be
/// expanded, the names are known ones and the values obey the rules, it loads.
pub proof fn law_good_file_loads(
    base: ConfigView,
    s: ScanSection,
    output: Option<Result<Seq<u8>, ConfigErrorView>>,
)
    requires
        output matches Some(o) ==> o is Ok,
        s.cleanup is Some ==> s.cleanup->0@ == "off"@ || s.cleanup->0@ == "conservative"@
            || s.cleanup->0@ == "legacy"@,
        s.preview_ocr is Some ==> s.preview_ocr->0@ == "eager"@ || s.preview_ocr->0@ == "lazy"@
            || s.preview_ocr->0@ == "off"@,
        s.dpi is Some ==> s.dpi->0 >= 150,
        s.mode is Some ==> s.mode->0@ == "gray"@ || s.mode->0@ == "color"@ || s.mode->0@
            == "lineart"@,
        s.langs is Some ==> langs_ok(s.langs->0@),
        s.unpaper_extra_args is Some ==> forall|i: int|
            0 <= i < s.unpaper_extra_args->0@.len() ==> text::trim(
                (#[trigger] s.unpaper_extra_args->0@[i])@,
            ).len() > 0,
        config_ok(base),
    ensures
        loaded(base, Some(s), output) is Ok,
{
    let m = scan_modes();
    assert(m[0] == "gray"@ && m[1] == "color"@ && m[2] == "lineart"@);
}

/// What a configuration is refused for, in this order: a resolution that is too
/// low, an unknown mode, languages that tesseract would not take, and blank
/// words for unpaper. Nothing else is refused.
pub proof fn law_refusals(c: ConfigView)
    ensures
        ({
            let mode_known = c.mode == "gray"@ || c.mode == "color"@ || c.mode == "lineart"@;
            let words = forall|i: int|
                0 <= i < c.unpaper_extra_args.len() ==> text::trim(
                    #[trigger] c.unpaper_extra_args[i],
                ).len() > 0;
            &&& c.dpi < 150 ==> validated(c) == Err::<ConfigView, ConfigErrorView>(
                ConfigErrorView::Dpi(c.dpi),
            )
            &&& c.dpi >= 150 && !mode_known ==> validated(c) == Err::<ConfigView, ConfigErrorView>(
                ConfigErrorView::Mode(c.mode),
            )
            &&& c.dpi >= 150 && mode_known && !langs_ok(c.langs) ==> validated(c) == Err::<
                ConfigView,
                ConfigErrorView,
            >(ConfigErrorView::Langs(c.langs))
            &&& c.dpi >= 150 && mode_known && langs_ok(c.langs) && !words ==> validated(c) == Err::<
                ConfigView,
                ConfigErrorView,
            >(ConfigErrorView::ExtraArgs)
            &&& c.dpi >= 150 && mode_known && langs_ok(c.langs) && words ==> validated(c) == Ok::<
                ConfigView,
                ConfigErrorView,
            >(c)
        }),
{
    let m = scan_modes();
    assert(m[0] == "gray"@ && m[1] == "color"@ && m[2] == "lineart"@);
}

/// One language is the Latin script or a code of lower-case letters and
/// underscores, and not empty.
pub proof fn law_one_language(a: Seq<char>)
    requires
        !a.contains('+'),
    ensures
        langs_ok(a) <==> a.len() > 0 && (a == "Latin"@ || forall|i: int|
            0 <= i < a.len() ==> ('a' <= #[trigger] a[i] <= 'z' || a[i] == '_')),
{
    text::lemma_split_single(a, '+');
    let parts = text::split(a, '+');
    assert(parts[0] == a);
    if a.len() > 0 && lang_part_ok(a) {
        assert(langs_ok(a));
    }
    if langs_ok(a) {
        assert(lang_part_ok(parts[0]));
        if a != "Latin"@ {
            assert forall|i: int| 0 <= i < a.len() implies ('a' <= #[trigger] a[i] <= 'z' || a[i]
                == '_') by {
                assert(code_char(a[i]));
            }
        }
    }
    if a.len() > 0 && (a == "Latin"@ || forall|i: int|
        0 <= i < a.len() ==> ('a' <= #[trigger] a[i] <= 'z' || a[i] == '_')) {
        assert(lang_part_ok(a));
    }
}

/// Two languages with a plus between them are good exactly where each is.
pub proof fn law_two_languages(a: Seq<char>, b: Seq<char>)
    requires
        !a.contains('+'),
        !b.contains('+'),
    ensures
        langs_ok(a.push('+') + b) <==> langs_ok(a) && langs_ok(b),
{
    text::lemma_split_single(a, '+');
    text::lemma_split_single(b, '+');
    text::lemma_split_pair(a, '+', b);
    let s = a.push('+') + b;
    let parts = text::split(s, '+');
    assert(parts[0] == a && parts[1] == b);
    assert(text::split(a, '+')[0] == a);
    assert(text::split(b, '+')[0] == b);
    if langs_ok(s) {
        assert(lang_part_ok(parts[0]) && lang_part_ok(parts[1]));
    }
    if langs_ok(a) && langs_ok(b) {
        assert(lang_part_ok(text::split(a, '+')[0]) && lang_part_ok(text::split(b, '+')[0]));
    }
}

/// A `[scan]` section counts alone where there is one; else the keys at the
/// top of the file count.
pub proof fn law_section_counts_alone(raw: RawConfig)
    ensures
        raw.scan matches Some(s) ==> raw.chosen() == s,
        raw.scan is None ==> raw.chosen() == raw.flat,
{
}

/// What a user gets who has set nothing: gray pages at 300 dpi, from the first
/// scanner, without unpaper, with text on demand and with notifications, and
/// documents below the home directory, or below the current one where there is
/// none.
pub proof fn law_defaults(home: Option<Seq<u8>>)
    ensures
        ({
            let c = default_config(home);
            &&& c.dpi == 300 && c.mode == "gray"@
            &&& c.langs == "deu+Latin"@
            &&& c.device == "auto"@
            &&& c.cleanup == Cleanup::Off
            &&& c.preview_ocr == PreviewOcr::Lazy
            &&& c.unpaper_extra_args.len() == 0
            &&& c.notify
            &&& home matches Some(h) ==> c.output == path::join_path(
                h,
                encode_utf8("Documents/scans"@),
            )
            &&& home is None ==> c.output == path::join_path(
                encode_utf8("."@),
                encode_utf8("Documents/scans"@),
            )
        }),
{
}

/// The configuration is looked for in the current directory first, and then
/// below the home directory, where there is one.
pub proof fn law_where_configuration_is(home: Option<Seq<u8>>)
    ensures
        default_candidates(home)[0] == encode_utf8("config.toml"@),
        home is None ==> default_candidates(home).len() == 1,
        home matches Some(h) ==> default_candidates(home).len() == 2 && default_candidates(home)[1]
            == path::join_path(
            path::join_path(
                path::join_path(h, encode_utf8(".config"@)),
                encode_utf8("auto-scanner-ocr"@),
            ),
            encode_utf8("config.toml"@),
        ),
{
}

/// The words for how pages are cleaned, and for when text is made, mean what
/// they say.
pub proof fn law_setting_words()
    ensures
        Cleanup::named("off"@) == Some(Cleanup::Off),
        Cleanup::named("conservative"@) == Some(Cleanup::Conservative),
        Cleanup::named("legacy"@) == Some(Cleanup::Legacy),
        PreviewOcr::named("eager"@) == Some(PreviewOcr::Eager),
        PreviewOcr::named("lazy"@) == Some(PreviewOcr::Lazy),
        PreviewOcr::named("off"@) == Some(PreviewOcr::Off),
{
    reveal_strlit("off");
    reveal_strlit("conservative");
    reveal_strlit("legacy");
    reveal_strlit("eager");
    reveal_strlit("lazy");
    assert("off"@.len() == 3 && "conservative"@.len() == 12 && "legacy"@.len() == 6);
    assert("eager"@.len() == 5 && "lazy"@.len() == 4);
}

/// What is reported of a refusal names what was refused, and the words that
/// could stand in its place.
pub proof fn law_refusals_are_explained(s: Seq<char>, p: Seq<u8>, d: u16)
    ensures
        config_error_text(ConfigErrorView::NotFound(p)) == "Config file not found: "@
            + path::lossy(p),
        config_error_text(ConfigErrorView::Dpi(d))
            == "dpi must be >= 150 for usable OCR results (got "@ + text::dec(d as nat) + ")"@,
        config_error_text(ConfigErrorView::Mode(s)) =~= "invalid mode '"@ + s + "' (use: "@ + (
        "gray"@ + ", "@ + "color"@ + ", "@ + "lineart"@) + ")"@,
        config_error_text(ConfigErrorView::Cleanup(s)) =~= "invalid cleanup '"@ + s + "' (use: "@ + (
        "off"@ + ", "@ + "conservative"@ + ", "@ + "legacy"@) + ")"@,
        config_error_text(ConfigErrorView::PreviewOcr(s)) =~= "invalid preview_ocr '"@ + s
            + "' (use: "@ + ("eager"@ + ", "@ + "lazy"@ + ", "@ + "off"@) + ")"@,
        config_error_text(ConfigErrorView::Langs(s)) == "invalid langs '"@ + s
            + "' (use plus-separated codes, e.g. deu+Latin)"@,
{
    lemma_three("gray"@, "color"@, "lineart"@);
    lemma_three("off"@, "conservative"@, "legacy"@);
    lemma_three("eager"@, "lazy"@, "off"@);
    assert(scan_modes() =~= seq!["gray"@, "color"@, "lineart"@]);
    assert(Cleanup::names() =~= seq!["off"@, "conservative"@, "legacy"@]);
    assert(PreviewOcr::names() =~= seq!["eager"@, "lazy"@, "off"@]);
}

proof fn lemma_three(a: Seq<char>, b: Seq<char>, c: Seq<char>)
    ensures
        text::join(seq![a, b, c], ", "@) == a + ", "@ + b + ", "@ + c,
{
    reveal_with_fuel(text::join, 3);
    assert(seq![a, b, c].drop_last() =~= seq![a, b]);
    assert(seq![a, b].drop_last() =~= seq![a]);
}

/// A path that cannot be expanded is refused by its text; one that can be is
/// the text that came out.
pub proof fn law_expansions(s: Seq<char>, out: Result<String, String>)
    ensures
        out matches Ok(t) ==> path_of_expansion(s, out) == Ok::<Seq<u8>, ConfigErrorView>(
            encode_utf8(t@),
        ),
        out is Err ==> path_of_expansion(s, out) == Err::<Seq<u8>, ConfigErrorView>(
            ConfigErrorView::PathExpression(s),
        ),
{
}

/// A text without variables always stands for a path: the text itself, or, with
/// a `~` at its beginning, what follows that below some directory. Where a text
/// stands for none, it is named in the refusal.
pub proof fn law_what_texts_expand_to(s: Seq<char>, r: Result<Seq<u8>, ConfigErrorView>)
    requires
        may_expand_to(s, r),
    ensures
        !s.contains('$') ==> r is Ok,
        !s.contains('$') && !(s.len() > 0 && s[0] == '~') ==> r == Ok::<Seq<u8>, ConfigErrorView>(
            encode_utf8(s),
        ),
        !s.contains('$') && s == "~"@ ==> exists|home: Seq<char>|
            r == Ok::<Seq<u8>, ConfigErrorView>(encode_utf8(#[trigger] below_home(home, s))),
        r matches Err(e) ==> e == ConfigErrorView::PathExpression(s),
{
    reveal_strlit("~");
}

/// What follows a leading `~` stays, behind what took its place.
pub proof fn law_below_home(home: Seq<char>, rest: Seq<char>)
    ensures
        below_home(home, seq!['~'] + rest) == home + rest,
{
    assert((seq!['~'] + rest).skip(1) =~= rest);
}

} // verus!
