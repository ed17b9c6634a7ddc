//! Running the tool and classifying what it reports.

use vstd::prelude::*;
use vstd::utf8::{decode_utf8, valid_utf8};

use crate::error::{spawn_error, Error, ErrorView, SpawnError};
use crate::text::{chars_of, contains, find};

verus! {

/// The executable that every command runs.
pub const TOOL: &'static str = "asdf";

/// Standard error of a listing that found nothing to list.
pub const NO_PLUGINS: &'static str = "No plugins installed";

/// Standard error naming a plugin that does not exist.
pub const NOT_FOUND: &'static str = "not found in repository";

/// Standard error of an attempt to add a plugin twice.
pub const ALREADY_ADDED: &'static str = "already added";

/// Standard error of a command that could not reach the network.
pub const NO_HOST: &'static str = "Could not resolve host";

/// Start of the usage banner printed on malformed arguments.
pub const USAGE: &'static str = "usage: asdf";

/// One run of the tool: the executable and the arguments handed to it unchanged.
#[derive(Debug, Clone)]
pub struct Invocation {
    pub program: String,
    pub args: Vec<String>,
}

/// Mathematical model of an [`Invocation`].
pub struct InvocationView {
    pub program: Seq<char>,
    pub args: Seq<Seq<char>>,
}

impl View for Invocation {
    type V = InvocationView;

    open spec fn view(&self) -> InvocationView {
        InvocationView { program: self.program@, args: self.args@.map_values(|a: String| a@) }
    }
}

/// The invocation of the tool with the given arguments.
pub open spec fn tool_call(args: Seq<Seq<char>>) -> InvocationView {
    InvocationView { program: TOOL@, args }
}

/// The views of a sequence of string slices.
pub open spec fn words_of(ws: Seq<&str>) -> Seq<Seq<char>> {
    ws.map_values(|w: &str| w@)
}

impl Invocation {
    /// Runs the tool with `args`, in order.
    pub fn new(args: &[&str]) -> (r: Invocation)
        ensures
            r@ == tool_call(words_of(args@)),
    {
        let mut v: Vec<String> = Vec::new();
        let mut i: usize = 0;
        while i < args.len()
            invariant
                i <= args@.len(),
                v@.len() == i,
                forall|k: int| 0 <= k < i ==> #[trigger] v@[k]@ == args@[k]@,
            decreases args@.len() - i,
        {
            v.push(args[i].to_owned());
            i += 1;
        }
        assert(v@.map_values(|a: String| a@) =~= words_of(args@));
        Invocation { program: TOOL.to_owned(), args: v }
    }
}

/// What the process runner hands back once the tool has exited.
#[derive(Debug, Clone)]
pub struct RawOutput {
    /// Whether the exit status reported success.
    pub success: bool,
    pub stdout: Vec<u8>,
    pub stderr: Vec<u8>,
}

/// A finished run whose output streams were decoded as text.
#[derive(Debug, Clone)]
pub struct CommandResult {
    pub command: Invocation,
    pub success: bool,
    pub stdout: String,
    pub stderr: String,
}

/// Mathematical model of a [`CommandResult`].
pub struct CommandView {
    pub command: InvocationView,
    pub success: bool,
    pub stdout: Seq<char>,
    pub stderr: Seq<char>,
}

impl View for CommandResult {
    type V = CommandView;

    open spec fn view(&self) -> CommandView {
        CommandView {
            command: self.command@,
            success: self.success,
            stdout: self.stdout@,
            stderr: self.stderr@,
        }
    }
}

/// What running `command` comes to when the runner reported `o`: spawn failures are
/// mapped by [`spawn_error`], undecodable output is [`ErrorView::BadEncoding`].
pub open spec fn ran(command: InvocationView, o: Result<RawOutput, SpawnError>) -> Result<
    CommandView,
    ErrorView,
> {
    match o {
        Err(e) => Err(spawn_error(e)),
        Ok(raw) => if valid_utf8(raw.stdout@) && valid_utf8(raw.stderr@) {
            Ok(
                CommandView {
                    command,
                    success: raw.success,
                    stdout: decode_utf8(raw.stdout@),
                    stderr: decode_utf8(raw.stderr@),
                },
            )
        } else {
            Err(ErrorView::BadEncoding)
        },
    }
}

/// The model of a command's result.
pub open spec fn result_view(r: Result<CommandResult, Error>) -> Result<CommandView, ErrorView> {
    match r {
        Ok(c) => Ok(c@),
        Err(e) => Err(e@),
    }
}

/// Relies on `String::from_utf8`: the bytes are accepted exactly when they are valid
/// UTF-8, and then hold the characters they encode.
#[verifier::external_body]
fn utf8(bytes: Vec<u8>) -> (r: Option<String>)
    ensures
        r is Some <==> valid_utf8(bytes@),
        r matches Some(s) ==> s@ == decode_utf8(bytes@),
{
    String::from_utf8(bytes).ok()
}

/// Decodes the runner's report on `command`.
pub fn decode(command: Invocation, o: Result<RawOutput, SpawnError>) -> (r: Result<
    CommandResult,
    Error,
>)
    ensures
        result_view(r) == ran(command@, o),
{
    match o {
        Err(e) => Err(Error::from(e)),
        Ok(raw) => {
            let out = utf8(raw.stdout);
            let err = utf8(raw.stderr);
            match (out, err) {
                (Some(stdout), Some(stderr)) => Ok(
                    CommandResult { command, success: raw.success, stdout, stderr },
                ),
                _ => Err(Error::BadEncoding),
            }
        },
    }
}

/// Runs `call` through `run` and decodes what comes back.
pub fn command<F>(call: Invocation, run: F) -> (r: Result<CommandResult, Error>) where
    F: FnOnce(&Invocation) -> Result<RawOutput, SpawnError>,

    requires
        run.requires((&call,)),
    ensures
        exists|o: Result<RawOutput, SpawnError>|
            run.ensures((&call,), o) && result_view(r) == ran(call@, o),
{
    let o = run(&call);
    decode(call, o)
}

/// Which stderr messages a command recognizes. Each is tested in the order of the fields;
/// the first one present decides.
#[derive(Debug, Clone, Copy, PartialEq, Eq, Structural)]
pub struct Markers {
    /// [`NO_PLUGINS`]: the command succeeded with nothing to report.
    pub empty: bool,
    /// [`NOT_FOUND`]: the plugin does not exist.
    pub not_found: bool,
    /// [`ALREADY_ADDED`]: the plugin is already present.
    pub already_added: bool,
    /// [`NO_HOST`]: the network could not be reached.
    pub no_internet: bool,
    /// [`USAGE`]: the arguments were rejected.
    pub usage: bool,
}

/// How a finished run is classified.
#[derive(Debug, Clone, Copy, PartialEq, Eq, Structural)]
pub enum Class {
    /// Success with an empty payload.
    Empty,
    /// Success with standard output as the payload.
    Success,
    NotFound,
    AlreadyAdded,
    NoInternet,
    Usage,
    /// A failed exit status that no recognized message explains.
    Failed,
}

/// The class of a run that exited with `success` and printed `stderr`, for a command that
/// recognizes the messages in `m`.
pub open spec fn class_of(m: Markers, success: bool, stderr: Seq<char>) -> Class {
    if m.empty && contains(stderr, NO_PLUGINS@) {
        Class::Empty
    } else if m.not_found && contains(stderr, NOT_FOUND@) {
        Class::NotFound
    } else if m.already_added && contains(stderr, ALREADY_ADDED@) {
        Class::AlreadyAdded
    } else if m.no_internet && contains(stderr, NO_HOST@) {
        Class::NoInternet
    } else if m.usage && contains(stderr, USAGE@) {
        Class::Usage
    } else if success {
        Class::Success
    } else {
        Class::Failed
    }
}

/// Whether `c` is one of the successful classes.
pub open spec fn is_success(c: Class) -> bool {
    c == Class::Empty || c == Class::Success
}

/// The error that a failing class of a run of `call` is reported as.
pub open spec fn failure(c: Class, call: InvocationView) -> ErrorView {
    match c {
        Class::NotFound => ErrorView::PluginNotFound,
        Class::AlreadyAdded => ErrorView::PluginAlreadyAdded,
        Class::NoInternet => ErrorView::NoInternet,
        Class::Usage => ErrorView::MalformedOptions(call),
        _ => ErrorView::FailedCommand(call),
    }
}

/// Classifies a finished run.
pub fn classify(m: &Markers, result: &CommandResult) -> (r: Class)
    ensures
        r == class_of(*m, result.success, result.stderr@),
{
    let err = chars_of(result.stderr.as_str());
    if m.empty && find(&err, &chars_of(NO_PLUGINS)) {
        Class::Empty
    } else if m.not_found && find(&err, &chars_of(NOT_FOUND)) {
        Class::NotFound
    } else if m.already_added && find(&err, &chars_of(ALREADY_ADDED)) {
        Class::AlreadyAdded
    } else if m.no_internet && find(&err, &chars_of(NO_HOST)) {
        Class::NoInternet
    } else if m.usage && find(&err, &chars_of(USAGE)) {
        Class::Usage
    } else if result.success {
        Class::Success
    } else {
        Class::Failed
    }
}

/// The error for a failing class of a run of `call`.
pub fn failure_of(c: Class, call: Invocation) -> (r: Error)
    requires
        !is_success(c),
    ensures
        r@ == failure(c, call@),
{
    match c {
        Class::NotFound => Error::PluginNotFound,
        Class::AlreadyAdded => Error::PluginAlreadyAdded,
        Class::NoInternet => Error::NoInternet,
        Class::Usage => Error::MalformedOptions(call),
        _ => Error::FailedCommand(call),
    }
}

/// What a command whose payload is its standard output returns for the run `c`.
pub open spec fn text_outcome(m: Markers, c: CommandView) -> Result<Seq<char>, ErrorView> {
    let k = class_of(m, c.success, c.stderr);
    if k == Class::Empty {
        Ok(Seq::empty())
    } else if k == Class::Success {
        Ok(c.stdout)
    } else {
        Err(failure(k, c.command))
    }
}

/// The model of a result whose payload is text.
pub open spec fn text_view(r: Result<String, Error>) -> Result<Seq<char>, ErrorView> {
    match r {
        Ok(s) => Ok(s@),
        Err(e) => Err(e@),
    }
}

/// The payload of a run, or the error it is classified as.
pub fn output(m: &Markers, result: CommandResult) -> (r: Result<String, Error>)
    ensures
        text_view(r) == text_outcome(*m, result@),
{
    let k = classify(m, &result);
    match k {
        Class::Empty => Ok(String::new()),
        Class::Success => Ok(result.stdout),
        _ => Err(failure_of(k, result.command)),
    }
}

/// What a command whose payload is its standard output returns, when the runner reported
/// `o` on `call`.
pub open spec fn text_call(m: Markers, call: InvocationView, o: Result<RawOutput, SpawnError>) -> Result<
    Seq<char>,
    ErrorView,
> {
    match ran(call, o) {
        Ok(c) => text_outcome(m, c),
        Err(e) => Err(e),
    }
}

/// `run` may report `o` when handed an invocation whose model is `call`.
pub open spec fn called<F: FnOnce(&Invocation) -> Result<RawOutput, SpawnError>>(
    run: F,
    call: InvocationView,
    o: Result<RawOutput, SpawnError>,
) -> bool {
    exists|c: Invocation| c@ == call && #[trigger] run.ensures((&c,), o)
}

/// `run` accepts every invocation.
pub open spec fn runs_all<F: FnOnce(&Invocation) -> Result<RawOutput, SpawnError>>(
    run: F,
) -> bool {
    forall|c: Invocation| #[trigger] run.requires((&c,))
}

/// Runs `call` through `run` and returns its standard output, classified by `m`.
pub fn run_text<F>(m: &Markers, call: Invocation, run: F) -> (r: Result<String, Error>) where
    F: FnOnce(&Invocation) -> Result<RawOutput, SpawnError>,

    requires
        runs_all(run),
    ensures
        exists|o: Result<RawOutput, SpawnError>|
            called(run, call@, o) && text_view(r) == text_call(*m, call@, o),
{
    let ghost g = call;
    assert(run.requires((&g,)));
    let res = command(call, run);
    let ghost o = choose|o: Result<RawOutput, SpawnError>|
        run.ensures((&g,), o) && result_view(res) == ran(g@, o);
    let r = match res {
        Ok(result) => output(m, result),
        Err(e) => Err(e),
    };
    assert(run.ensures((&g,), o));
    assert(called(run, g@, o) && text_view(r) == text_call(*m, g@, o));
    r
}

impl Markers {
    /// A command that recognizes no message: only its exit status decides.
    pub open spec fn spec_none() -> Markers {
        Markers { empty: false, not_found: false, already_added: false, no_internet: false, usage: false }
    }

    /// A command that recognizes no message.
    pub fn none() -> (r: Markers)
        ensures
            r == Markers::spec_none(),
    {
        Markers { empty: false, not_found: false, already_added: false, no_internet: false, usage: false }
    }
}

/// The one-element sequence holding `o`'s value, or the empty one.
pub open spec fn opt_seq(o: Option<Seq<char>>) -> Seq<Seq<char>> {
    match o {
        Some(s) => seq![s],
        None => seq![],
    }
}

/// The model of an optional string slice.
pub open spec fn opt_str(o: Option<&str>) -> Option<Seq<char>> {
    match o {
        Some(s) => Some(s@),
        None => None,
    }
}

/// Appends the words of `extra` to `v`.
pub fn push_all<'a>(v: &mut Vec<&'a str>, extra: &[&'a str])
    ensures
        final(v)@ == old(v)@ + extra@,
{
    let mut i: usize = 0;
    while i < extra.len()
        invariant
            i <= extra@.len(),
            v@ == old(v)@ + extra@.take(i as int),
        decreases extra@.len() - i,
    {
        v.push(extra[i]);
        assert(extra@.take(i + 1) =~= extra@.take(i as int).push(extra@[i as int]));
        i += 1;
    }
    assert(extra@.take(i as int) =~= extra@);
}

} // verus!
