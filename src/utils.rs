//! Utilities: shims, environment, and the tool itself.

use vstd::prelude::*;

use crate::command::{
    called, opt_seq, opt_str, push_all, run_text, runs_all, text_call, text_view, tool_call,
    words_of, Invocation, Markers, RawOutput,
};
use crate::error::{Error, SpawnError};

verus! {

/// The arguments of `asdf exec <command> [args...]`.
pub open spec fn exec_args(command: Seq<char>, args: Seq<Seq<char>>) -> Seq<Seq<char>> {
    seq!["exec"@, command] + args
}

/// Runs the shim of a command, with arguments, at the current version.
///
/// ```help
/// asdf exec <command> [args...]           Executes the command shim for current version
/// ```
pub fn exec<F>(command: &str, args: &[&str], run: F) -> (r: Result<String, Error>) where
    F: FnOnce(&Invocation) -> Result<RawOutput, SpawnError>,

    requires
        runs_all(run),
    ensures
        exists|o: Result<RawOutput, SpawnError>|
            #[trigger] called(run, tool_call(exec_args(command@, words_of(args@))), o)
                && text_view(r) == text_call(Markers::spec_none(), tool_call(exec_args(command@, words_of(args@))), o),
{
    let mut argv: Vec<&str> = Vec::new();
    argv.push("exec");
    argv.push(command);
    push_all(&mut argv, args);
    let call = Invocation::new(argv.as_slice());
    proof {
        assert(words_of(argv@) =~= exec_args(command@, words_of(args@)));
    }
    run_text(&Markers::none(), call, run)
}

/// The arguments of `asdf env <command> [util]`.
pub open spec fn env_args(command: Seq<char>, util: Seq<char>) -> Seq<Seq<char>> {
    seq!["env"@, command, util]
}

/// Runs a utility in the environment of a command's shim.
///
/// ```help
/// asdf env <command> [util]               Runs util (default: `env`) inside the
///                                         environment used for command shim execution.
/// ```
pub fn env<F>(command: &str, util: &str, run: F) -> (r: Result<String, Error>) where
    F: FnOnce(&Invocation) -> Result<RawOutput, SpawnError>,

    requires
        runs_all(run),
    ensures
        exists|o: Result<RawOutput, SpawnError>|
            #[trigger] called(run, tool_call(env_args(command@, util@)), o)
                && text_view(r) == text_call(Markers::spec_none(), tool_call(env_args(command@, util@)), o),
{
    let mut argv: Vec<&str> = Vec::new();
    argv.push("env");
    argv.push(command);
    argv.push(util);
    let call = Invocation::new(argv.as_slice());
    proof {
        assert(words_of(argv@) =~= env_args(command@, util@));
    }
    run_text(&Markers::none(), call, run)
}

/// The arguments of `asdf info`.
pub open spec fn info_args() -> Seq<Seq<char>> {
    seq!["info"@]
}

/// Reports the operating system, the shell and the tool's configuration.
///
/// ```help
/// asdf info                               Print OS, Shell and ASDF debug information.
/// ```
pub fn info<F>(run: F) -> (r: Result<String, Error>) where
    F: FnOnce(&Invocation) -> Result<RawOutput, SpawnError>,

    requires
        runs_all(run),
    ensures
        exists|o: Result<RawOutput, SpawnError>|
            #[trigger] called(run, tool_call(info_args()), o)
                && text_view(r) == text_call(Markers::spec_none(), tool_call(info_args()), o),
{
    let mut argv: Vec<&str> = Vec::new();
    argv.push("info");
    let call = Invocation::new(argv.as_slice());
    proof {
        assert(words_of(argv@) =~= info_args());
    }
    run_text(&Markers::none(), call, run)
}

/// The arguments of `asdf reshim <name> <version>`.
pub open spec fn reshim_args(name: Seq<char>, version: Seq<char>) -> Seq<Seq<char>> {
    seq!["reshim"@, name, version]
}

/// Recreates the shims of a version of a package.
///
/// ```help
/// asdf reshim <name> <version>            Recreate shims for version of a package
/// ```
pub fn reshim<F>(name: &str, version: &str, run: F) -> (r: Result<String, Error>) where
    F: FnOnce(&Invocation) -> Result<RawOutput, SpawnError>,

    requires
        runs_all(run),
    ensures
        exists|o: Result<RawOutput, SpawnError>|
            #[trigger] called(run, tool_call(reshim_args(name@, version@)), o)
                && text_view(r) == text_call(Markers::spec_none(), tool_call(reshim_args(name@, version@)), o),
{
    let mut argv: Vec<&str> = Vec::new();
    argv.push("reshim");
    argv.push(name);
    argv.push(version);
    let call = Invocation::new(argv.as_slice());
    proof {
        assert(words_of(argv@) =~= reshim_args(name@, version@));
    }
    run_text(&Markers::none(), call, run)
}

/// The arguments of `asdf shim-versions <command>`.
pub open spec fn shim_versions_args(name: Seq<char>) -> Seq<Seq<char>> {
    seq!["shim-versions"@, name]
}

/// Lists the plugins and versions that provide a command.
///
/// ```help
/// asdf shim-versions <command>            List the plugins and versions that
///                                         provide a command
/// ```
pub fn shim_versions<F>(name: &str, run: F) -> (r: Result<String, Error>) where
    F: FnOnce(&Invocation) -> Result<RawOutput, SpawnError>,

    requires
        runs_all(run),
    ensures
        exists|o: Result<RawOutput, SpawnError>|
            #[trigger] called(run, tool_call(shim_versions_args(name@)), o)
                && text_view(r) == text_call(Markers::spec_none(), tool_call(shim_versions_args(name@)), o),
{
    let mut argv: Vec<&str> = Vec::new();
    argv.push("shim-versions");
    argv.push(name);
    let call = Invocation::new(argv.as_slice());
    proof {
        assert(words_of(argv@) =~= shim_versions_args(name@));
    }
    run_text(&Markers::none(), call, run)
}

/// The arguments of `asdf update`.
pub open spec fn update_args(head: bool) -> Seq<Seq<char>> {
    seq!["update"@] + (if head { seq!["--head"@] } else { seq![] })
}

/// Updates the tool itself, to its latest release or to its main branch.
///
/// ```help
/// asdf update                             Update asdf to the latest stable release
/// asdf update --head                      Update asdf to the latest on the master branch
/// ```
pub fn update<F>(head: bool, run: F) -> (r: Result<String, Error>) where
    F: FnOnce(&Invocation) -> Result<RawOutput, SpawnError>,

    requires
        runs_all(run),
    ensures
        exists|o: Result<RawOutput, SpawnError>|
            #[trigger] called(run, tool_call(update_args(head)), o)
                && text_view(r) == text_call(Markers::spec_none(), tool_call(update_args(head)), o),
{
    let mut argv: Vec<&str> = Vec::new();
    argv.push("update");
    if head {
        argv.push("--head");
    }
    let call = Invocation::new(argv.as_slice());
    proof {
        assert(words_of(argv@) =~= update_args(head));
    }
    run_text(&Markers::none(), call, run)
}

/// The arguments of `asdf help <name> [<version>]`.
pub open spec fn help_args() -> Seq<Seq<char>> {
    seq!["help"@]
}

/// Prints the tool's documentation.
///
/// ```help
/// asdf help <name> [<version>]            Output documentation for plugin and tool
/// ```
pub fn help<F>(run: F) -> (r: Result<String, Error>) where
    F: FnOnce(&Invocation) -> Result<RawOutput, SpawnError>,

    requires
        runs_all(run),
    ensures
        exists|o: Result<RawOutput, SpawnError>|
            #[trigger] called(run, tool_call(help_args()), o)
                && text_view(r) == text_call(Markers::spec_none(), tool_call(help_args()), o),
{
    let mut argv: Vec<&str> = Vec::new();
    argv.push("help");
    let call = Invocation::new(argv.as_slice());
    proof {
        assert(words_of(argv@) =~= help_args());
    }
    run_text(&Markers::none(), call, run)
}

} // verus!
