//! The command line: what it can say, and how it shapes the configuration.

use vstd::prelude::*;

use crate::config;
use crate::config::{
    load_config, validate, Cleanup, Config, ConfigError, ConfigErrorView, ConfigView, PreviewOcr,
    RawConfig,
};
use crate::path::FilePath;

verus! {

/// What the command line says.
#[derive(Debug)]
pub struct Cli {
    /// Scan resolution in DPI.
    pub dpi: Option<u16>,
    /// Scan mode: gray, color or lineart.
    pub mode: Option<String>,
    /// OCR languages, plus-separated.
    pub langs: Option<String>,
    /// Output directory for finished PDFs.
    pub output: Option<FilePath>,
    /// SANE device name or substring.
    pub device: Option<String>,
    /// Configuration file to use.
    pub config: Option<FilePath>,
    /// Page cleanup: off, conservative or legacy.
    pub cleanup: Option<String>,
    /// Skip the unpaper step (the same as `--cleanup off`).
    pub no_unpaper: bool,
    /// When the OCR for the text pane runs: eager, lazy or off.
    pub preview_ocr: Option<String>,
    /// Disable desktop notifications.
    pub no_notify: bool,
    /// Check dependencies and environment, then exit.
    pub doctor: bool,
    /// Also print log output to stderr.
    pub verbose: bool,
    /// Probe the image protocol of the terminal, then exit.
    pub image_probe: bool,
}

/// A configuration with the values of the command line put in, before it is
/// held against the rules.
pub open spec fn overlaid(cli: Cli, c: ConfigView) -> ConfigView {
    ConfigView {
        dpi: match cli.dpi {
            Some(v) => v,
            None => c.dpi,
        },
        mode: match cli.mode {
            Some(v) => v@,
            None => c.mode,
        },
        langs: match cli.langs {
            Some(v) => v@,
            None => c.langs,
        },
        output: match cli.output {
            Some(v) => v@,
            None => c.output,
        },
        device: match cli.device {
            Some(v) => v@,
            None => c.device,
        },
        cleanup: if cli.no_unpaper {
            Cleanup::Off
        } else {
            match cli.cleanup {
                Some(v) => Cleanup::named(v@)->0,
                None => c.cleanup,
            }
        },
        preview_ocr: match cli.preview_ocr {
            Some(v) => PreviewOcr::named(v@)->0,
            None => c.preview_ocr,
        },
        notify: c.notify && !cli.no_notify,
        unpaper_extra_args: c.unpaper_extra_args,
    }
}

/// The configuration that the command line makes of another one.
pub open spec fn overridden(cli: Cli, c: ConfigView) -> Result<
    ConfigView,
    ConfigErrorView,
> {
    if cli.cleanup is Some && Cleanup::named(cli.cleanup->0@) is None {
        Err(ConfigErrorView::Cleanup(cli.cleanup->0@))
    } else if cli.preview_ocr is Some && PreviewOcr::named(cli.preview_ocr->0@) is None {
        Err(ConfigErrorView::PreviewOcr(cli.preview_ocr->0@))
    } else {
        config::validated(overlaid(cli, c))
    }
}

impl Cli {
    /// The configuration with the values of the command line in place of its
    /// own, held against the same rules as a file.
    pub fn apply_overrides(&self, cfg: Config) -> (r: Result<Config, ConfigError>)
        ensures
            config::config_result(r) == overridden(*self, cfg@),
    {
        let mut cfg = cfg;
        if let Some(v) = self.dpi {
            cfg.dpi = v;
        }
        if let Some(v) = &self.mode {
            cfg.mode = v.clone();
        }
        if let Some(v) = &self.langs {
            cfg.langs = v.clone();
        }
        if let Some(v) = &self.output {
            cfg.output = v.clone();
        }
        if let Some(v) = &self.device {
            cfg.device = v.clone();
        }
        if let Some(v) = &self.cleanup {
            match Cleanup::parse(v.as_str()) {
                Some(c) => {
                    cfg.cleanup = c;
                },
                None => {
                    return Err(ConfigError::Cleanup(v.clone()));
                },
            }
        }
        if self.no_unpaper {
            cfg.cleanup = Cleanup::Off;
        }
        if let Some(v) = &self.preview_ocr {
            match PreviewOcr::parse(v.as_str()) {
                Some(p) => {
                    cfg.preview_ocr = p;
                },
                None => {
                    return Err(ConfigError::PreviewOcr(v.clone()));
                },
            }
        }
        if self.no_notify {
            cfg.notify = false;
        }
        validate(cfg)
    }
}

/// Every value of the command line wins over that of the file, and what the
/// command line does not say stays as it is.
pub proof fn law_command_line_wins(cli: Cli, c: ConfigView)
    ensures
        overridden(cli, c) matches Ok(r) ==> {
            &&& r.dpi == (if cli.dpi is Some {
                cli.dpi->0
            } else {
                c.dpi
            })
            &&& r.mode == (if cli.mode is Some {
                cli.mode->0@
            } else {
                c.mode
            })
            &&& r.langs == (if cli.langs is Some {
                cli.langs->0@
            } else {
                c.langs
            })
            &&& r.output == (if cli.output is Some {
                cli.output->0@
            } else {
                c.output
            })
            &&& r.device == (if cli.device is Some {
                cli.device->0@
            } else {
                c.device
            })
            &&& cli.cleanup is Some && !cli.no_unpaper ==> r.cleanup.name() == cli.cleanup->0@
            &&& cli.cleanup is None && !cli.no_unpaper ==> r.cleanup == c.cleanup
            &&& cli.preview_ocr is Some ==> r.preview_ocr.name() == cli.preview_ocr->0@
            &&& cli.preview_ocr is None ==> r.preview_ocr == c.preview_ocr
            &&& r.notify == (c.notify && !cli.no_notify)
        },
{
}

/// The configuration to run with: the file's, with the values of the command
/// line in place of its own.
pub open spec fn composed(
    cli: Cli,
    file: Result<ConfigView, ConfigErrorView>,
) -> Result<ConfigView, ConfigErrorView> {
    match file {
        Ok(c) => overridden(cli, c),
        Err(e) => Err(e),
    }
}

/// The configuration to run with, given what the file led to.
pub fn compose(cli: &Cli, file: Result<Config, ConfigError>) -> (r: Result<Config, ConfigError>)
    ensures
        config::config_result(r) == composed(*cli, config::config_result(file)),
{
    match file {
        Ok(c) => cli.apply_overrides(c),
        Err(e) => Err(e),
    }
}

/// The configuration to run with: defaults, then the contents of the
/// configuration file, then the command line.
pub fn final_config(cli: &Cli, raw: Option<RawConfig>) -> (r: Result<Config, ConfigError>)
    ensures
        r matches Ok(c) ==> config::config_ok(c@),
        exists|
            home: Option<Seq<u8>>,
            output: Option<Result<Seq<u8>, ConfigErrorView>>,
        |
            {
                &&& config::is_home(home)
                &&& config::config_result(r) == composed(
                    *cli,
                    #[trigger] config::loaded(
                        config::default_config(home),
                        config::raw_section(raw),
                        output,
                    ),
                )
                &&& (output is Some <==> raw is Some && raw->0.chosen().output is Some)
                &&& (output matches Some(o) ==> config::may_expand_to(
                    raw->0.chosen().output->0@,
                    o,
                ))
            },
{
    let file = load_config(raw);
    compose(cli, file)
}

/// Whatever the command line says, the configuration that comes out of it
/// obeys the rules.
pub proof fn law_overridden_valid(cli: Cli, c: ConfigView)
    ensures
        overridden(cli, c) matches Ok(d) ==> config::config_ok(d),
{
}

/// A command line that says nothing changes nothing.
pub proof fn law_no_overrides(cli: Cli, c: ConfigView)
    requires
        config::config_ok(c),
        cli.dpi is None,
        cli.mode is None,
        cli.langs is None,
        cli.output is None,
        cli.device is None,
        cli.cleanup is None,
        !cli.no_unpaper,
        cli.preview_ocr is None,
        !cli.no_notify,
    ensures
        overridden(cli, c) == Ok::<ConfigView, ConfigErrorView>(c),
{
}

/// `--no-unpaper` turns the cleanup off, whatever else the file or the
/// command line asks for.
pub proof fn law_no_unpaper(cli: Cli, c: ConfigView)
    requires
        cli.no_unpaper,
    ensures
        overridden(cli, c) matches Ok(d) ==> d.cleanup == Cleanup::Off,
{
}

/// What the command line cannot say stays as it is, and a command line with
/// good values is not refused.
pub proof fn law_command_line_leaves_rest(cli: Cli, c: ConfigView)
    requires
        config::config_ok(c),
    ensures
        overridden(cli, c) matches Ok(r) ==> r.unpaper_extra_args == c.unpaper_extra_args,
        (cli.dpi matches Some(d) ==> d >= 150) && cli.mode is None && cli.langs is None
            && cli.cleanup is None && cli.preview_ocr is None ==> overridden(cli, c) is Ok,
        cli.dpi matches Some(d) && d < 150 ==> overridden(cli, c) is Err,
{
}

} // verus!
