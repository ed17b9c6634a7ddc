//! Managing packages: installing them and choosing their versions.

use vstd::prelude::*;

use crate::command::{
    called, opt_seq, opt_str, push_all, run_text, runs_all, text_call, text_view, tool_call,
    words_of, Invocation, Markers, RawOutput,
};
use crate::error::{Error, SpawnError};

verus! {

/// The arguments of `asdf install`.
pub open spec fn install_args(name: Option<Seq<char>>, version: Option<Seq<char>>) -> Seq<Seq<char>> {
    seq!["install"@] + opt_seq(name) + opt_seq(version)
}

/// Installs packages: those of the `.tool-versions` file, or the given one.
///
/// ```help
/// asdf install                            Install all the package versions listed
///                                         in the .tool-versions file
/// asdf install <name>                     Install one tool at the version
///                                         specified in the .tool-versions file
/// asdf install <name> <version>           Install a specific version of a package
/// asdf install <name> latest[:<version>]  Install the latest stable version of a
///                                         package, or with optional version,
///                                         install the latest stable version that
///                                         begins with the given string
/// ```
pub fn install<F>(name: Option<&str>, version: Option<&str>, run: F) -> (r: Result<String, Error>) where
    F: FnOnce(&Invocation) -> Result<RawOutput, SpawnError>,

    requires
        runs_all(run),
    ensures
        exists|o: Result<RawOutput, SpawnError>|
            #[trigger] called(run, tool_call(install_args(opt_str(name), opt_str(version))), o)
                && text_view(r) == text_call(Markers::spec_none(), tool_call(install_args(opt_str(name), opt_str(version))), o),
{
    let mut argv: Vec<&str> = Vec::new();
    argv.push("install");
    match name {
        Some(v) => argv.push(v),
        None => {},
    }
    match version {
        Some(v) => argv.push(v),
        None => {},
    }
    let call = Invocation::new(argv.as_slice());
    proof {
        assert(words_of(argv@) =~= install_args(opt_str(name), opt_str(version)));
    }
    run_text(&Markers::none(), call, run)
}

/// The arguments of `asdf uninstall <name> <version>`.
pub open spec fn uninstall_args(name: Seq<char>, version: Seq<char>) -> Seq<Seq<char>> {
    seq!["uninstall"@, name, version]
}

/// Removes one installed version of a package.
///
/// ```help
/// asdf uninstall <name> <version>         Remove a specific version of a package
/// ```
pub fn uninstall<F>(name: &str, version: &str, run: F) -> (r: Result<String, Error>) where
    F: FnOnce(&Invocation) -> Result<RawOutput, SpawnError>,

    requires
        runs_all(run),
    ensures
        exists|o: Result<RawOutput, SpawnError>|
            #[trigger] called(run, tool_call(uninstall_args(name@, version@)), o)
                && text_view(r) == text_call(Markers::spec_none(), tool_call(uninstall_args(name@, version@)), o),
{
    let mut argv: Vec<&str> = Vec::new();
    argv.push("uninstall");
    argv.push(name);
    argv.push(version);
    let call = Invocation::new(argv.as_slice());
    proof {
        assert(words_of(argv@) =~= uninstall_args(name@, version@));
    }
    run_text(&Markers::none(), call, run)
}

/// The arguments of `asdf current`.
pub open spec fn current_args(name: Option<Seq<char>>) -> Seq<Seq<char>> {
    seq!["current"@] + opt_seq(name)
}

/// Reports the version in use of every package, or of one.
///
/// ```help
/// asdf current                            Display current version set or being
///                                         used for all packages
/// asdf current <name>                     Display current version set or being
///                                         used for package
/// ```
pub fn current<F>(name: Option<&str>, run: F) -> (r: Result<String, Error>) where
    F: FnOnce(&Invocation) -> Result<RawOutput, SpawnError>,

    requires
        runs_all(run),
    ensures
        exists|o: Result<RawOutput, SpawnError>|
            #[trigger] called(run, tool_call(current_args(opt_str(name))), o)
                && text_view(r) == text_call(Markers::spec_none(), tool_call(current_args(opt_str(name))), o),
{
    let mut argv: Vec<&str> = Vec::new();
    argv.push("current");
    match name {
        Some(v) => argv.push(v),
        None => {},
    }
    let call = Invocation::new(argv.as_slice());
    proof {
        assert(words_of(argv@) =~= current_args(opt_str(name)));
    }
    run_text(&Markers::none(), call, run)
}

/// The arguments of `asdf where <name> [<version>]`.
pub open spec fn locate_args(name: Seq<char>, version: Option<Seq<char>>) -> Seq<Seq<char>> {
    seq!["where"@, name] + opt_seq(version)
}

/// Reports where a version of a package is installed.
///
/// ```help
/// asdf where <name> [<version>]           Display install path for an installed
///                                         or current version
/// ```
pub fn locate<F>(name: &str, version: Option<&str>, run: F) -> (r: Result<String, Error>) where
    F: FnOnce(&Invocation) -> Result<RawOutput, SpawnError>,

    requires
        runs_all(run),
    ensures
        exists|o: Result<RawOutput, SpawnError>|
            #[trigger] called(run, tool_call(locate_args(name@, opt_str(version))), o)
                && text_view(r) == text_call(Markers::spec_none(), tool_call(locate_args(name@, opt_str(version))), o),
{
    let mut argv: Vec<&str> = Vec::new();
    argv.push("where");
    argv.push(name);
    match version {
        Some(v) => argv.push(v),
        None => {},
    }
    let call = Invocation::new(argv.as_slice());
    proof {
        assert(words_of(argv@) =~= locate_args(name@, opt_str(version)));
    }
    run_text(&Markers::none(), call, run)
}

/// The arguments of `asdf which <command>`.
pub open spec fn which_args(command: Seq<char>) -> Seq<Seq<char>> {
    seq!["which"@, command]
}

/// Reports the path of the executable behind a command.
///
/// ```help
/// asdf which <command>                    Display the path to an executable
/// ```
pub fn which<F>(command: &str, run: F) -> (r: Result<String, Error>) where
    F: FnOnce(&Invocation) -> Result<RawOutput, SpawnError>,

    requires
        runs_all(run),
    ensures
        exists|o: Result<RawOutput, SpawnError>|
            #[trigger] called(run, tool_call(which_args(command@)), o)
                && text_view(r) == text_call(Markers::spec_none(), tool_call(which_args(command@)), o),
{
    let mut argv: Vec<&str> = Vec::new();
    argv.push("which");
    argv.push(command);
    let call = Invocation::new(argv.as_slice());
    proof {
        assert(words_of(argv@) =~= which_args(command@));
    }
    run_text(&Markers::none(), call, run)
}

/// The arguments of `asdf local <name> <version>`.
pub open spec fn local_args(name: Seq<char>, version: Seq<char>) -> Seq<Seq<char>> {
    seq!["local"@, name, version]
}

/// Sets the version of a package for the current directory.
///
/// ```help
/// asdf local <name> <version>             Set the package local version
/// asdf local <name> latest[:<version>]    Set the package local version to the
///                                         latest provided version
/// ```
pub fn local<F>(name: &str, version: &str, run: F) -> (r: Result<String, Error>) where
    F: FnOnce(&Invocation) -> Result<RawOutput, SpawnError>,

    requires
        runs_all(run),
    ensures
        exists|o: Result<RawOutput, SpawnError>|
            #[trigger] called(run, tool_call(local_args(name@, version@)), o)
                && text_view(r) == text_call(Markers::spec_none(), tool_call(local_args(name@, version@)), o),
{
    let mut argv: Vec<&str> = Vec::new();
    argv.push("local");
    argv.push(name);
    argv.push(version);
    let call = Invocation::new(argv.as_slice());
    proof {
        assert(words_of(argv@) =~= local_args(name@, version@));
    }
    run_text(&Markers::none(), call, run)
}

/// The arguments of `asdf global <name> <version>`.
pub open spec fn global_args(name: Seq<char>, version: Seq<char>) -> Seq<Seq<char>> {
    seq!["global"@, name, version]
}

/// Sets the version of a package for the user.
///
/// ```help
/// asdf global <name> <version>            Set the package global version
/// asdf global <name> latest[:<version>]   Set the package global version to the
///                                         latest provided version
/// ```
pub fn global<F>(name: &str, version: &str, run: F) -> (r: Result<String, Error>) where
    F: FnOnce(&Invocation) -> Result<RawOutput, SpawnError>,

    requires
        runs_all(run),
    ensures
        exists|o: Result<RawOutput, SpawnError>|
            #[trigger] called(run, tool_call(global_args(name@, version@)), o)
                && text_view(r) == text_call(Markers::spec_none(), tool_call(global_args(name@, version@)), o),
{
    let mut argv: Vec<&str> = Vec::new();
    argv.push("global");
    argv.push(name);
    argv.push(version);
    let call = Invocation::new(argv.as_slice());
    proof {
        assert(words_of(argv@) =~= global_args(name@, version@));
    }
    run_text(&Markers::none(), call, run)
}

/// The arguments of `asdf shell <name> <version>`.
pub open spec fn shell_args(name: Seq<char>, version: Seq<char>) -> Seq<Seq<char>> {
    seq!["shell"@, name, version]
}

/// Sets the version of a package for the current shell.
///
/// ```help
/// asdf shell <name> <version>             Set the package version to
///                                         `ASDF_${LANG}_VERSION` in the current shell
/// ```
pub fn shell<F>(name: &str, version: &str, run: F) -> (r: Result<String, Error>) where
    F: FnOnce(&Invocation) -> Result<RawOutput, SpawnError>,

    requires
        runs_all(run),
    ensures
        exists|o: Result<RawOutput, SpawnError>|
            #[trigger] called(run, tool_call(shell_args(name@, version@)), o)
                && text_view(r) == text_call(Markers::spec_none(), tool_call(shell_args(name@, version@)), o),
{
    let mut argv: Vec<&str> = Vec::new();
    argv.push("shell");
    argv.push(name);
    argv.push(version);
    let call = Invocation::new(argv.as_slice());
    proof {
        assert(words_of(argv@) =~= shell_args(name@, version@));
    }
    run_text(&Markers::none(), call, run)
}

/// The arguments of `asdf latest <name> [<version>]`.
pub open spec fn latest_args(name: Seq<char>, version: Option<Seq<char>>) -> Seq<Seq<char>> {
    seq!["latest"@, name] + opt_seq(version)
}

/// Reports the latest stable version of a package.
///
/// ```help
/// asdf latest <name> [<version>]          Show latest stable version of a package
/// ```
pub fn latest<F>(name: &str, version: Option<&str>, run: F) -> (r: Result<String, Error>) where
    F: FnOnce(&Invocation) -> Result<RawOutput, SpawnError>,

    requires
        runs_all(run),
    ensures
        exists|o: Result<RawOutput, SpawnError>|
            #[trigger] called(run, tool_call(latest_args(name@, opt_str(version))), o)
                && text_view(r) == text_call(Markers::spec_none(), tool_call(latest_args(name@, opt_str(version))), o),
{
    let mut argv: Vec<&str> = Vec::new();
    argv.push("latest");
    argv.push(name);
    match version {
        Some(v) => argv.push(v),
        None => {},
    }
    let call = Invocation::new(argv.as_slice());
    proof {
        assert(words_of(argv@) =~= latest_args(name@, opt_str(version)));
    }
    run_text(&Markers::none(), call, run)
}

/// The arguments of `asdf latest --all`.
pub open spec fn latest_all_args() -> Seq<Seq<char>> {
    seq!["latest"@, "--all"@]
}

/// Reports the latest stable version of every package.
///
/// ```help
/// asdf latest --all                       Show latest stable version of all the
///                                         packages and if they are installed
/// ```
pub fn latest_all<F>(run: F) -> (r: Result<String, Error>) where
    F: FnOnce(&Invocation) -> Result<RawOutput, SpawnError>,

    requires
        runs_all(run),
    ensures
        exists|o: Result<RawOutput, SpawnError>|
            #[trigger] called(run, tool_call(latest_all_args()), o)
                && text_view(r) == text_call(Markers::spec_none(), tool_call(latest_all_args()), o),
{
    let mut argv: Vec<&str> = Vec::new();
    argv.push("latest");
    argv.push("--all");
    let call = Invocation::new(argv.as_slice());
    proof {
        assert(words_of(argv@) =~= latest_all_args());
    }
    run_text(&Markers::none(), call, run)
}

/// The arguments of `asdf list <name> [version]`.
pub open spec fn list_args(name: Seq<char>, version: Option<Seq<char>>) -> Seq<Seq<char>> {
    seq!["list"@, name] + opt_seq(version)
}

/// Lists the installed versions of a package.
///
/// ```help
/// asdf list <name> [version]              List installed versions of a package and
///                                         optionally filter the versions
/// ```
pub fn list<F>(name: &str, version: Option<&str>, run: F) -> (r: Result<String, Error>) where
    F: FnOnce(&Invocation) -> Result<RawOutput, SpawnError>,

    requires
        runs_all(run),
    ensures
        exists|o: Result<RawOutput, SpawnError>|
            #[trigger] called(run, tool_call(list_args(name@, opt_str(version))), o)
                && text_view(r) == text_call(Markers::spec_none(), tool_call(list_args(name@, opt_str(version))), o),
{
    let mut argv: Vec<&str> = Vec::new();
    argv.push("list");
    argv.push(name);
    match version {
        Some(v) => argv.push(v),
        None => {},
    }
    let call = Invocation::new(argv.as_slice());
    proof {
        assert(words_of(argv@) =~= list_args(name@, opt_str(version)));
    }
    run_text(&Markers::none(), call, run)
}

/// The arguments of `asdf list all <name> [<version>]`.
pub open spec fn list_all_args(name: Seq<char>, version: Option<Seq<char>>) -> Seq<Seq<char>> {
    seq!["list"@, "all"@, name] + opt_seq(version)
}

/// Lists every version of a package that can be installed.
///
/// ```help
/// asdf list all <name> [<version>]        List all versions of a package and
///                                         optionally filter the returned versions
/// ```
pub fn list_all<F>(name: &str, version: Option<&str>, run: F) -> (r: Result<String, Error>) where
    F: FnOnce(&Invocation) -> Result<RawOutput, SpawnError>,

    requires
        runs_all(run),
    ensures
        exists|o: Result<RawOutput, SpawnError>|
            #[trigger] called(run, tool_call(list_all_args(name@, opt_str(version))), o)
                && text_view(r) == text_call(Markers::spec_none(), tool_call(list_all_args(name@, opt_str(version))), o),
{
    let mut argv: Vec<&str> = Vec::new();
    argv.push("list");
    argv.push("all");
    argv.push(name);
    match version {
        Some(v) => argv.push(v),
        None => {},
    }
    let call = Invocation::new(argv.as_slice());
    proof {
        assert(words_of(argv@) =~= list_all_args(name@, opt_str(version)));
    }
    run_text(&Markers::none(), call, run)
}

} // verus!
