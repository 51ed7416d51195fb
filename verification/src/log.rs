//! Where the program keeps its state and its log, and what goes into the log.

use vstd::prelude::*;
use vstd::utf8::*;

use crate::backend::process;
use crate::backend::process::{log_tail, Output, RunError};
use crate::config;
use crate::config::{user_home, PROGRAM};
use crate::path;
use crate::path::FilePath;
use crate::text;
use crate::text::{cat, cat3, join_texts};

verus! {

/// Where the program keeps its state: `$XDG_STATE_HOME`, else
/// `~/.local/state`, else `/tmp`, and in it a directory of its own.
pub open spec fn state_place(xdg: Option<Seq<u8>>, home: Option<Seq<u8>>) -> Seq<u8> {
    let base = match xdg {
        Some(x) => x,
        None => match home {
            Some(h) => path::join_path(h, encode_utf8(".local/state"@)),
            None => encode_utf8("/tmp"@),
        },
    };
    path::join_path(base, encode_utf8(PROGRAM@))
}

/// The log of the program.
pub open spec fn log_place(xdg: Option<Seq<u8>>, home: Option<Seq<u8>>) -> Seq<u8> {
    path::join_path(state_place(xdg, home), encode_utf8(PROGRAM@ + ".log"@))
}

/// Where the program keeps its state, given what the environment says.
pub fn state_dir_for(xdg: Option<FilePath>, home: Option<FilePath>) -> (r: FilePath)
    ensures
        r@ == state_place(config::opt_path(xdg), config::opt_path(home)),
{
    let base = match xdg {
        Some(x) => x,
        None => match home {
            Some(h) => h.join(".local/state"),
            None => FilePath::from_text("/tmp"),
        },
    };
    base.join(PROGRAM)
}

/// Where the program keeps its state on this machine, given
/// `$XDG_STATE_HOME`.
pub fn state_dir(xdg: Option<FilePath>) -> (r: FilePath)
    ensures
        exists|home: Option<Seq<u8>>|
            config::is_home(home) && r@ == #[trigger] state_place(config::opt_path(xdg), home),
{
    let home = user_home();
    let ghost x = config::opt_path(xdg);
    let ghost h = config::opt_path(home);
    let r = state_dir_for(xdg, home);
    assert(r@ == state_place(x, h));
    r
}

/// The log of the program on this machine, given `$XDG_STATE_HOME`.
pub fn logfile(xdg: Option<FilePath>) -> (r: FilePath)
    ensures
        exists|home: Option<Seq<u8>>|
            config::is_home(home) && r@ == #[trigger] log_place(config::opt_path(xdg), home),
{
    let home = user_home();
    let ghost x = config::opt_path(xdg);
    let ghost h = config::opt_path(home);
    let r = state_dir_for(xdg, home).join(cat(PROGRAM, ".log").as_str());
    assert(r@ == log_place(x, h));
    r
}

/// The lines about a command that ended.
pub open spec fn command_lines(cmd: Seq<Seq<char>>, out: Output) -> Seq<Seq<char>> {
    seq![
        text::join(cmd, " "@) + " rc-success="@ + (if out.success {
            "true"@
        } else {
            "false"@
        }),
    ] + (if out.stdout@.len() == 0 {
        Seq::empty()
    } else {
        seq![
            "stdout: "@ + path::lossy(
                process::last_bytes(out.stdout@, process::LOG_TAIL_BYTES as nat),
            ),
        ]
    }) + (if out.stderr@.len() == 0 {
        Seq::empty()
    } else {
        seq![
            "stderr: "@ + path::lossy(
                process::last_bytes(out.stderr@, process::LOG_TAIL_BYTES as nat),
            ),
        ]
    })
}

/// The lines about a command that ended.
pub fn log_command(cmd: &[String], output: &Output) -> (r: Vec<String>)
    ensures
        text::texts(r@) == command_lines(text::texts(cmd@), *output),
{
    let mut r: Vec<String> = Vec::new();
    r.push(
        cat3(
            join_texts(cmd, " ").as_str(),
            " rc-success=",
            if output.success {
                "true"
            } else {
                "false"
            },
        ),
    );
    if output.stdout.len() > 0 {
        r.push(cat("stdout: ", log_tail(output.stdout.as_slice()).as_str()));
    }
    if output.stderr.len() > 0 {
        r.push(cat("stderr: ", log_tail(output.stderr.as_slice()).as_str()));
    }
    assert(text::texts(r@) =~= command_lines(text::texts(cmd@), *output));
    r
}

/// The line about a command that did not get to run to its end.
pub fn log_failure(cmd: &[String], err: &RunError) -> (r: String)
    ensures
        r@ == text::join(text::texts(cmd@), " "@) + " failed: "@ + process::run_error_text(err@),
{
    cat3(join_texts(cmd, " ").as_str(), " failed: ", err.message().as_str())
}

} // verus!
