//! The configuration, the command line, the checks and the log.

use auto_scanner_ocr::backend::process::{Output, RunError};
use auto_scanner_ocr::backend::scan::Device;
use auto_scanner_ocr::check::{
    detect_device, detect_scanner, device_label, doctor_status, ensure_output_dir, lang_checks,
    merge_fast_slow, preflight, print_doctor, push_bin_checks, run_checks, run_checks_fast,
    run_checks_slow, CheckItem, OutputDir, Report, ReportSource, SlowFacts, Status,
};
use auto_scanner_ocr::cli::{compose, final_config, Cli};
use auto_scanner_ocr::config::{
    apply_section, candidates_for, config_candidates, expand_path, expanded_path, find_config,
    is_script_lang, langs_valid, load_config, load_from, migrate_unpaper, migration_warning,
    script_lang_package, validate, Cleanup, Config, ConfigError, LoadedConfig, PreviewOcr, RawConfig,
    ScanSection, PROGRAM, VERSION,
};
use auto_scanner_ocr::log::{log_command, log_failure, logfile, state_dir_for};
use auto_scanner_ocr::notify::{notify, Urgency};
use auto_scanner_ocr::path::FilePath;
use auto_scanner_ocr::probe::{
    fallback_probe, hides_tmux, parse_probe_line, probe_line, result_or_interrupt, Protocol,
};

fn p(s: &str) -> FilePath {
    FilePath::from_text(s)
}

// --------------------------------------------------------------- command line

/// The command line, read by clap.
fn cli(args: &[&str]) -> Cli {
    let value = |name: &'static str, short: char| {
        clap::Arg::new(name).short(short).long(name).action(clap::ArgAction::Set)
    };
    let long = |name: &'static str| clap::Arg::new(name).long(name).action(clap::ArgAction::Set);
    let flag =
        |name: &'static str| clap::Arg::new(name).long(name).action(clap::ArgAction::SetTrue);
    let m = clap::Command::new("auto-scanner-ocr")
        .arg(value("dpi", 'd'))
        .arg(value("mode", 'M'))
        .arg(value("langs", 'l'))
        .arg(long("cleanup"))
        .arg(long("preview-ocr"))
        .arg(flag("no-unpaper"))
        .arg(flag("no-notify"))
        .get_matches_from(std::iter::once("auto-scanner-ocr").chain(args.iter().copied()));
    let text = |name: &str| m.get_one::<String>(name).cloned();
    Cli {
        dpi: text("dpi").map(|d| d.parse().unwrap()),
        mode: text("mode"),
        langs: text("langs"),
        output: None,
        device: None,
        config: None,
        cleanup: text("cleanup"),
        no_unpaper: m.get_flag("no-unpaper"),
        preview_ocr: text("preview-ocr"),
        no_notify: m.get_flag("no-notify"),
        doctor: false,
        verbose: false,
        image_probe: false,
    }
}

#[test]
fn parses_short_flags() {
    let c = cli(&["-d", "600", "-M", "color", "-l", "eng"]);
    assert_eq!(c.dpi, Some(600));
    assert_eq!(c.mode.as_deref(), Some("color"));
    assert_eq!(c.langs.as_deref(), Some("eng"));
}

#[test]
fn overrides_apply() {
    let c = cli(&["--dpi", "150", "--no-unpaper", "--no-notify"]);
    let cfg = c.apply_overrides(Config::default()).unwrap();
    assert_eq!(cfg.dpi, 150);
    assert_eq!(cfg.cleanup, Cleanup::Off);
    assert!(!cfg.notify);
}

#[test]
fn cleanup_override() {
    let c = cli(&["--cleanup", "conservative"]);
    let cfg = c.apply_overrides(Config::default()).unwrap();
    assert_eq!(cfg.cleanup, Cleanup::Conservative);

    let c = cli(&["--cleanup", "legacy"]);
    let cfg = c.apply_overrides(Config::default()).unwrap();
    assert_eq!(cfg.cleanup, Cleanup::Legacy);

    let c = cli(&["--cleanup", "nope"]);
    assert!(c.apply_overrides(Config::default()).is_err());
}

#[test]
fn preview_ocr_override() {
    let c = cli(&["--preview-ocr", "eager"]);
    let cfg = c.apply_overrides(Config::default()).unwrap();
    assert_eq!(cfg.preview_ocr, PreviewOcr::Eager);

    assert_eq!(Config::default().preview_ocr, PreviewOcr::Lazy);
    let c = cli(&["--preview-ocr", "off"]);
    let cfg = c.apply_overrides(Config::default()).unwrap();
    assert_eq!(cfg.preview_ocr, PreviewOcr::Off);

    let c = cli(&["--preview-ocr", "nope"]);
    assert!(c.apply_overrides(Config::default()).is_err());
}

#[test]
fn rejects_bad_dpi() {
    let c = cli(&["--dpi", "100"]);
    assert!(c.apply_overrides(Config::default()).is_err());
}

#[test]
fn rejects_bad_mode() {
    let c = cli(&["--mode", "nope"]);
    assert!(c.apply_overrides(Config::default()).is_err());
}

#[test]
fn the_command_line_wins_over_the_file() {
    let file = Config { dpi: 600, ..Config::default() };
    let cfg = compose(&cli(&["-d", "200"]), Ok(file)).unwrap();
    assert_eq!(cfg.dpi, 200);
    let cfg = compose(&cli(&[]), Ok(Config { dpi: 600, ..Config::default() })).unwrap();
    assert_eq!(cfg.dpi, 600);
    let cfg = final_config(&cli(&["-M", "color"]), None).unwrap();
    assert_eq!(cfg.mode, "color");
    assert_eq!(cfg.dpi, 300);
}

// -------------------------------------------------------------- configuration

#[test]
fn defaults_are_sane() {
    let cfg = Config::default();
    assert_eq!(cfg.dpi, 300);
    assert_eq!(cfg.mode, "gray");
    assert_eq!(cfg.langs, "deu+Latin");
    assert_eq!(cfg.device, "auto");
    assert_eq!(cfg.cleanup, Cleanup::Off);
    assert_eq!(cfg.preview_ocr, PreviewOcr::Lazy);
    assert!(cfg.unpaper_extra_args.is_empty());
    assert!(cfg.notify);
}

#[test]
fn cleanup_parse_and_str() {
    assert_eq!(Cleanup::parse("off"), Some(Cleanup::Off));
    assert_eq!(Cleanup::parse("conservative"), Some(Cleanup::Conservative));
    assert_eq!(Cleanup::parse("legacy"), Some(Cleanup::Legacy));
    assert_eq!(Cleanup::parse("nope"), None);
    for mode in Cleanup::ALL {
        let c = Cleanup::parse(mode).unwrap();
        assert_eq!(c.as_str(), mode);
    }
}

#[test]
fn preview_ocr_parse_and_str() {
    assert_eq!(PreviewOcr::parse("eager"), Some(PreviewOcr::Eager));
    assert_eq!(PreviewOcr::parse("lazy"), Some(PreviewOcr::Lazy));
    assert_eq!(PreviewOcr::parse("off"), Some(PreviewOcr::Off));
    assert_eq!(PreviewOcr::parse("nope"), None);
    for mode in PreviewOcr::ALL {
        let o = PreviewOcr::parse(mode).unwrap();
        assert_eq!(o.as_str(), mode);
    }
}

fn test_loaded() -> LoadedConfig {
    LoadedConfig {
        dpi: 600,
        mode: "gray".to_string(),
        langs: "deu+Latin".to_string(),
        device: "auto".to_string(),
        output: p("/tmp/scans"),
        cleanup: Cleanup::Off,
        cleanup_explicit: false,
        unpaper_legacy: None,
        preview_ocr: PreviewOcr::Lazy,
        unpaper_extra_args: Vec::new(),
        notify: true,
    }
}

#[test]
fn legacy_unpaper_key_migrates() {
    let cfg = migrate_unpaper(LoadedConfig { unpaper_legacy: Some(true), ..test_loaded() });
    assert_eq!(cfg.cleanup, Cleanup::Conservative);
    let cfg = migrate_unpaper(LoadedConfig { unpaper_legacy: Some(false), ..test_loaded() });
    assert_eq!(cfg.cleanup, Cleanup::Off);
    // An explicit strategy, even "off", wins over the old key.
    let cfg = migrate_unpaper(LoadedConfig {
        unpaper_legacy: Some(true),
        cleanup: Cleanup::Off,
        cleanup_explicit: true,
        ..test_loaded()
    });
    assert_eq!(cfg.cleanup, Cleanup::Off);
    let cfg = migrate_unpaper(test_loaded());
    assert_eq!(cfg.cleanup, Cleanup::Off);
    assert!(migration_warning(&test_loaded()).is_none());
    let old = LoadedConfig { unpaper_legacy: Some(true), ..test_loaded() };
    assert!(migration_warning(&old).is_some());
}

#[test]
fn langs_validation() {
    assert!(langs_valid("eng"));
    assert!(langs_valid("eng+deu"));
    assert!(langs_valid("chi_sim+eng"));
    assert!(langs_valid("deu+Latin"));
    assert!(langs_valid("Latin"));
    assert!(!langs_valid(""));
    assert!(!langs_valid("eng+"));
    assert!(!langs_valid("+eng"));
    assert!(!langs_valid("eng++deu"));
    assert!(!langs_valid("Eng"));
    assert!(!langs_valid("eng+Latin2"));
    assert!(!langs_valid("en-gb"));
    assert!(!langs_valid("en gb"));
    assert!(is_script_lang("Latin"));
    assert!(!is_script_lang("deu"));
    assert!(script_lang_package("Latin").is_some());
    assert!(script_lang_package("deu").is_none());
}

#[test]
fn validate_rejects_low_dpi() {
    let cfg = Config { dpi: 100, ..Default::default() };
    assert!(validate(cfg).is_err());
}

#[test]
fn validate_rejects_bad_mode() {
    let cfg = Config { mode: "nope".to_string(), ..Default::default() };
    let e = validate(cfg).unwrap_err();
    assert_eq!(e.message(), "invalid mode 'nope' (use: gray, color, lineart)");
}

#[test]
fn validate_accepts_defaults() {
    assert_eq!(validate(Config::default()).unwrap().dpi, 300);
}

fn home() -> FilePath {
    FilePath::from_text(dirs::home_dir().unwrap().to_str().unwrap())
}

#[test]
fn expand_path_tilde() {
    assert_eq!(expand_path("~/Documents").unwrap(), home().join("Documents"));
    assert_eq!(expand_path("$HOME/x").unwrap(), home().join("x"));
    assert_eq!(expand_path("/data/a~b").unwrap(), p("/data/a~b"));
    assert_eq!(expand_path("~other/x").unwrap(), p("~other/x"));
    let e = expand_path("$NO_SUCH_VARIABLE_ANYWHERE/\"x").unwrap_err();
    assert_eq!(
        e.message(),
        "invalid path expression: \"$NO_SUCH_VARIABLE_ANYWHERE/\\\"x\""
    );
    assert!(expanded_path("x", Ok("/a/x".to_string())).is_ok());
    assert!(expanded_path("x", Err("unset".to_string())).is_err());
}

/// The keys of a table, as the library takes them.
fn section(t: &toml::Table) -> ScanSection {
    let text = |k: &str| t.get(k).and_then(|v| v.as_str()).map(|s| s.to_string());
    ScanSection {
        dpi: t.get("dpi").and_then(|v| v.as_integer()).map(|n| n as u16),
        mode: text("mode"),
        langs: text("langs"),
        device: text("device"),
        output: text("output"),
        unpaper: t.get("unpaper").and_then(|v| v.as_bool()),
        cleanup: text("cleanup"),
        preview_ocr: text("preview_ocr"),
        unpaper_extra_args: None,
        notify: t.get("notify").and_then(|v| v.as_bool()),
    }
}

fn raw(content: &str) -> RawConfig {
    let t: toml::Table = content.parse().unwrap();
    RawConfig {
        scan: t.get("scan").and_then(|v| v.as_table()).map(section),
        flat: section(&t),
    }
}

#[test]
fn parses_scan_section() {
    let data = raw("[scan]\ndpi = 600\nmode = \"color\"\n");
    let s = data.scan.unwrap();
    assert_eq!(s.dpi, Some(600));
    assert_eq!(s.mode.as_deref(), Some("color"));
    let cfg = load_config(Some(raw("[scan]\ndpi = 600\nmode = \"color\"\n"))).unwrap();
    assert_eq!(cfg.dpi, 600);
    assert_eq!(cfg.mode, "color");
}

#[test]
fn parses_preview_ocr() {
    let s = raw("[scan]\npreview_ocr = \"eager\"\n").scan.unwrap();
    assert_eq!(s.preview_ocr.as_deref(), Some("eager"));
    let data = raw("preview_ocr = \"off\"\n");
    assert_eq!(data.flat.preview_ocr.as_deref(), Some("off"));
    assert_eq!(load_config(Some(data)).unwrap().preview_ocr, PreviewOcr::Off);
    assert!(load_config(Some(raw("preview_ocr = \"often\"\n"))).is_err());
}

#[test]
fn parses_flat_keys() {
    let data = raw("dpi = 200\nlangs = \"eng\"\n");
    assert_eq!(data.flat.dpi, Some(200));
    assert_eq!(data.flat.langs.as_deref(), Some("eng"));
    let cfg = load_config(Some(data)).unwrap();
    assert_eq!(cfg.dpi, 200);
    assert_eq!(cfg.langs, "eng");
}

#[test]
fn output_expands_tilde() {
    let s = raw("[scan]\noutput = \"~/scans\"\n").section();
    let out = expand_path(&s.output.unwrap()).unwrap();
    assert!(out.display().starts_with(&home().display()));
    let cfg = load_config(Some(raw("[scan]\noutput = \"~/scans\"\n"))).unwrap();
    assert_eq!(cfg.output, home().join("scans"));
}

#[test]
fn a_table_wins_over_flat_keys() {
    let s = raw("dpi = 200\n[scan]\ndpi = 600\n").section();
    assert_eq!(s.dpi, Some(600));
}

#[test]
fn configuration_files_are_found_in_order() {
    let found = candidates_for(Some(p("/home/u")));
    assert!(!found.is_empty());
    assert_eq!(config_candidates(None).unwrap().len(), candidates_for(Some(home())).len());
    let explicit = p("/etc/x.toml");
    assert_eq!(config_candidates(Some(&explicit)).unwrap(), [explicit.clone()]);
    assert_eq!(find_config(true, &[explicit.clone()], &[true]).unwrap(), Some(explicit.clone()));
    assert!(find_config(true, &[explicit.clone()], &[false]).is_err());
    assert_eq!(find_config(false, &[explicit], &[false]).unwrap(), None);
}

#[test]
fn load_from_reports_bad_values() {
    let bad = raw("[scan]\ncleanup = \"thorough\"\n");
    match load_config(Some(bad)) {
        Err(e) => assert!(e.message().contains("thorough"), "{}", e.message()),
        Ok(_) => panic!("a strategy that does not exist"),
    }
    match load_config(Some(raw("dpi = 10\n"))) {
        Err(ConfigError::Dpi(10)) => {}
        other => panic!("{other:?}"),
    }
}

// --------------------------------------------------------------------- checks

fn item(what: &str, status: Status) -> CheckItem {
    CheckItem {
        what: what.to_string(),
        status,
        detail: String::new(),
        hint: None,
        pending_detail: None,
    }
}

fn device(name: &str, label: &str) -> Device {
    Device { name: name.to_string(), label: label.to_string() }
}

#[test]
fn status_display() {
    assert_eq!(Status::Pass.as_str(), " OK");
    assert_eq!(Status::Warn.as_str(), "WARN");
    assert_eq!(Status::Fail.as_str(), "FAIL");
    assert_eq!(Status::Skip.as_str(), "SKIP");
    assert_eq!(Status::Pending.as_str(), " ...");
}

#[test]
fn pending_is_not_an_error_and_reports_settle() {
    let mut r = Report::default();
    r.items.push(item("scanner", Status::Pending));
    assert!(r.ok(), "Pending must not fail the report");
    assert!(!r.settled(), "Pending means still detecting");
    r.items.push(item("bin", Status::Fail));
    assert!(!r.ok());
    r.items[0].status = Status::Pass;
    assert!(r.settled());
}

#[test]
fn report_error_classification() {
    let mut r = Report::default();
    r.items.push(item("a", Status::Pass));
    r.items.push(item("b", Status::Warn));
    r.items.push(item("c", Status::Fail));
    assert_eq!(r.errors().len(), 1);
    assert_eq!(r.warnings().len(), 1);
    assert!(!r.ok());
}

fn cfg() -> Config {
    Config {
        langs: "deu".to_string(),
        output: p("/out"),
        ..Config::default()
    }
}

fn slow(found: bool) -> SlowFacts {
    SlowFacts {
        langs: vec!["deu".to_string()],
        device: if found { Some(device("escl:x", "HP")) } else { None },
    }
}

#[test]
fn a_complete_machine_passes() {
    let r = run_checks(&cfg(), &[true; 7], &OutputDir::Writable, slow(true));
    assert!(r.ok(), "{r:?}");
    assert!(r.settled());
    assert_eq!(r.source, ReportSource::ReRun);
    let (r, d) = preflight(r);
    assert_eq!(d.unwrap().name, "escl:x");
    assert_eq!(doctor_status(&r), 0);
    let text = print_doctor(&cfg(), "rustc 1.0", &r);
    assert!(text.starts_with(&format!("{PROGRAM} {VERSION}")), "{text}");
    assert!(text.contains("Rust: rustc 1.0\n"));
    assert!(text.contains("Scanner: escl:x\n"));
    assert!(text.contains("Output: /out\n"));
}

#[test]
fn missing_tools_and_scanners_fail() {
    let mut found = [true; 7];
    found[0] = false;
    let r = run_checks(&cfg(), &found, &OutputDir::Writable, slow(false));
    assert!(!r.ok());
    assert_eq!(doctor_status(&r), 1);
    let mut items = Vec::new();
    push_bin_checks(Cleanup::Off, &[false; 7], &mut items);
    assert_eq!(items.len(), 7);
    assert!(items.iter().any(|i| i.status == Status::Fail && i.hint.is_some()));
}

#[test]
fn the_doctor_says_how_to_install_what_is_missing() {
    let r = run_checks(&cfg(), &[false; 7], &OutputDir::Writable, slow(false));
    let text = print_doctor(&cfg(), "rustc 1.0", &r);
    let mut warned = 0;
    for i in &r.items {
        if i.status == Status::Warn {
            warned += 1;
        }
        if i.status == Status::Warn || i.status == Status::Fail {
            for line in i.hint.as_deref().unwrap_or_default().lines() {
                assert!(text.contains(&format!("    install: {line}\n")), "{line} in {text}");
            }
        }
    }
    assert!(warned > 0);
}

#[test]
fn fast_and_slow_checks_make_a_report() {
    let fast = run_checks_fast(&cfg(), &[true; 7], &OutputDir::Writable);
    assert!(!fast.settled());
    let late = run_checks_slow(&cfg(), true, slow(true));
    let all = merge_fast_slow(&fast, late);
    assert!(all.settled());
    assert!(all.ok());
    assert_eq!(all.source, ReportSource::StartupFinal);
    assert_eq!(all.items.len(), run_checks(&cfg(), &[true; 7], &OutputDir::Writable, slow(true)).items.len());
}

#[test]
fn languages_and_output_are_checked() {
    let have = vec!["eng".to_string()];
    let items = lang_checks("deu+eng", true, &have);
    assert_eq!(items.len(), 2);
    assert_eq!(items[0].status, Status::Fail);
    assert_eq!(items[1].status, Status::Pass);
    assert!(lang_checks("deu", false, &have).is_empty());
    assert_eq!(ensure_output_dir(&OutputDir::Writable).0, Status::Pass);
    assert_eq!(ensure_output_dir(&OutputDir::NotWritable), (Status::Fail, " (not writable)".to_string()));
    assert_eq!(
        ensure_output_dir(&OutputDir::NotCreated("no room".to_string())),
        (Status::Fail, " (no room)".to_string())
    );
}

#[test]
fn scanners_are_detected() {
    let out = Output {
        stdout: b"device `escl:x' is a HP Scanjet scanner\n".to_vec(),
        stderr: Vec::new(),
        success: true,
    };
    let d = detect_scanner("auto", Ok(out));
    assert_eq!(d.as_ref().unwrap().name, "escl:x");
    assert_eq!(detect_device(&d).status, Status::Pass);
    assert!(detect_scanner("auto", Err(RunError::NotFound)).is_none());
    assert_eq!(detect_device(&None).status, Status::Fail);
    assert_eq!(device_label(None), "no scanner");
    assert_eq!(device_label(Some(&device("n", ""))), "n");
    assert_eq!(device_label(Some(&device("n", "L"))), "L");
}

// ----------------------------------------------------------- log, notification

#[test]
fn logfile_location() {
    let path = logfile(None).display();
    assert!(path.contains(PROGRAM));
    assert!(path.ends_with(&format!("{PROGRAM}.log")));
    assert_eq!(
        logfile(Some(p("/var/state"))),
        p(&format!("/var/state/{PROGRAM}/{PROGRAM}.log"))
    );
    assert_eq!(
        state_dir_for(None, Some(p("/home/u"))),
        p(&format!("/home/u/.local/state/{PROGRAM}"))
    );
    assert_eq!(state_dir_for(None, None), p(&format!("/tmp/{PROGRAM}")));
}

#[test]
fn commands_are_logged() {
    let out = Output { stdout: b"fine".to_vec(), stderr: b"odd".to_vec(), success: true };
    let cmd = vec!["tool".to_string(), "-x".to_string()];
    let lines = log_command(&cmd, &out);
    assert!(lines[0].starts_with("tool -x rc-success="), "{lines:?}");
    assert!(log_failure(&cmd, &RunError::NotFound).contains("tool"));
}

#[test]
fn notifications_are_sent_only_where_possible() {
    assert!(notify(false, true, "s", "b", Urgency::Normal).is_none());
    assert!(notify(true, false, "s", "b", Urgency::Normal).is_none());
    let cmd = notify(true, true, "Scan complete", "/out/a.pdf", Urgency::Critical).unwrap();
    assert_eq!(cmd[0], "notify-send");
    assert!(cmd.iter().any(|a| a.contains("critical")));
    assert!(cmd.contains(&"Scan complete".to_string()));
    assert!(cmd.contains(&"/out/a.pdf".to_string()));
}

#[test]
fn probe_reports_round_trip() {
    for protocol in [Protocol::Halfblocks, Protocol::Sixel, Protocol::Kitty, Protocol::Iterm2] {
        let line = probe_line(protocol, 9, 18);
        let found = parse_probe_line(&line).unwrap();
        assert_eq!(found.protocol, protocol);
        assert_eq!(found.font, (9, 18));
        assert_eq!(found.native, protocol != Protocol::Halfblocks);
    }
    assert_eq!(probe_line(Protocol::Kitty, 9, 18), "protocol=kitty font=9x18");
    assert_eq!(parse_probe_line("nonsense").unwrap().protocol, Protocol::Halfblocks);
    assert!(parse_probe_line("protocol=kitty font=wide x tall").is_some());
    assert!(parse_probe_line("protocol=kitty font=widextall").is_none());
    assert!(parse_probe_line("").is_none());
    assert_eq!(fallback_probe().protocol, Protocol::Halfblocks);
    assert!(hides_tmux("tmux-256color", ""));
    assert!(!hides_tmux("xterm", "iTerm.app"));
    assert_eq!(result_or_interrupt(Ok(1)), Ok(1));
    assert_eq!(result_or_interrupt(Err("terminal event error: gone".to_string())), Ok(130));
    assert_eq!(result_or_interrupt(Err("other".to_string())), Err("other".to_string()));
}

#[test]
fn sections_apply_key_by_key() {
    let cfg = load_from(Config::default(), Some(raw("notify = false\n").section()), None).unwrap();
    assert!(!cfg.notify);
    assert!(load_from(Config::default(), None, None).unwrap().notify);
    let loaded = apply_section(Config::default(), raw("unpaper = true\n").section(), None).unwrap();
    assert_eq!(loaded.unpaper_legacy, Some(true));
}
