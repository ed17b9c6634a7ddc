//! Managing plugins: adding them and listing what is installed or available.

use vstd::prelude::*;

use crate::command::{
    called, class_of, classify, command, failure, failure_of, is_success, opt_str, ran, run_text,
    runs_all, text_call, text_view, tool_call, words_of, Class, CommandResult, CommandView,
    Invocation, InvocationView, Markers, RawOutput, ALREADY_ADDED, NOT_FOUND, NO_PLUGINS,
};
use crate::error::{Error, ErrorView, IoKind, SpawnError};
use crate::text::{
    chars_of, contains, is_space, line_spans, lines, next_word, pieces, strip, string_of, without,
    words, words_after,
};

verus! {

/// A plugin as reported by the tool's plugin listings.
#[derive(Clone, Debug, PartialEq, Eq)]
pub struct Plugin {
    /// Name of the plugin in the plugin repository, or the name given when it was added
    /// from a Git clone URL.
    name: String,
    /// The Git clone URL of the plugin.
    git_url: String,
    /// The Git branch of the installed version.
    git_branch: Option<String>,
    /// The Git reference of the installed version.
    git_ref: Option<String>,
}

/// The plugins of a listing, in the order the tool printed them.
pub type PluginSet = Vec<Plugin>;

/// Mathematical model of a [`Plugin`].
pub struct PluginView {
    pub name: Seq<char>,
    pub git_url: Seq<char>,
    pub git_branch: Option<Seq<char>>,
    pub git_ref: Option<Seq<char>>,
}

/// The model of an optional string.
pub open spec fn opt_view(o: Option<String>) -> Option<Seq<char>> {
    match o {
        Some(s) => Some(s@),
        None => None,
    }
}

impl View for Plugin {
    type V = PluginView;

    closed spec fn view(&self) -> PluginView {
        PluginView {
            name: self.name@,
            git_url: self.git_url@,
            git_branch: opt_view(self.git_branch),
            git_ref: opt_view(self.git_ref),
        }
    }
}

/// Why a line does not describe a plugin.
#[derive(Clone, Copy, Debug, PartialEq, Eq, Structural)]
pub enum ParseError {
    /// The line has no word at all.
    MissingName,
    /// The line has a name but no Git URL after it.
    MissingGitUrl,
}

/// The plugin that a listing line describes: its words are, in order, the name, the Git
/// URL, and optionally the branch and the reference. Words past the fourth are ignored.
pub open spec fn plugin_of(line: Seq<char>) -> Option<PluginView> {
    let w = words(line);
    if w.len() < 2 {
        None
    } else {
        Some(
            PluginView {
                name: w[0],
                git_url: w[1],
                git_branch: if w.len() > 2 {
                    Some(w[2])
                } else {
                    None
                },
                git_ref: if w.len() > 3 {
                    Some(w[3])
                } else {
                    None
                },
            },
        )
    }
}

/// Parses the line held in `cs[lo..hi]`.
pub fn parse_span(cs: &Vec<char>, lo: usize, hi: usize) -> (r: Result<Plugin, ParseError>)
    requires
        lo <= hi <= cs@.len(),
    ensures
        ({
            let w = words(cs@.subrange(lo as int, hi as int));
            match r {
                Ok(p) => plugin_of(cs@.subrange(lo as int, hi as int)) == Some(p@),
                Err(ParseError::MissingName) => w.len() == 0,
                Err(ParseError::MissingGitUrl) => w.len() == 1,
            }
        }),
{
    let ghost w0 = words(cs@.subrange(lo as int, hi as int));
    let (a, b) = next_word(cs, lo, hi);
    if a == b {
        return Err(ParseError::MissingName);
    }
    let name = string_of(cs, a, b);
    let ghost w1 = words(cs@.subrange(b as int, hi as int));
    let (c, d) = next_word(cs, b, hi);
    if c == d {
        return Err(ParseError::MissingGitUrl);
    }
    let git_url = string_of(cs, c, d);
    let ghost w2 = words(cs@.subrange(d as int, hi as int));
    let (e, f) = next_word(cs, d, hi);
    let git_branch = if e < f {
        Some(string_of(cs, e, f))
    } else {
        None
    };
    let ghost w3 = words(cs@.subrange(f as int, hi as int));
    let (g, h) = next_word(cs, f, hi);
    let git_ref = if g < h {
        Some(string_of(cs, g, h))
    } else {
        None
    };
    proof {
        assert(w0 == seq![name@] + w1);
        assert(w1 == seq![git_url@] + w2);
        assert(w0[0] == name@);
        assert(w0[1] == git_url@);
        if e < f {
            assert(w2 == seq![cs@.subrange(e as int, f as int)] + w3);
            assert(w0[2] == cs@.subrange(e as int, f as int));
            if g < h {
                assert(w0[3] == cs@.subrange(g as int, h as int));
            } else {
                assert(w0.len() == 3);
            }
        } else {
            assert(w0.len() == 2);
        }
    }
    let p = Plugin { name, git_url, git_branch, git_ref };
    proof {
        assert(p@.git_branch == (if w0.len() > 2 {
            Some(w0[2])
        } else {
            None
        }));
        assert(p@.git_ref == (if w0.len() > 3 {
            Some(w0[3])
        } else {
            None
        }));
    }
    Ok(p)
}

impl Plugin {
    /// Parses one line of a plugin listing: its whitespace-separated words are the name,
    /// the Git URL, and optionally the branch and the reference.
    pub fn try_from(other: &str) -> (r: Result<Plugin, ParseError>)
        ensures
            words(other@).len() >= 2 <==> r is Ok,
            r matches Ok(p) ==> plugin_of(other@) == Some(p@),
            words(other@).len() == 0 <==> r == Err::<Plugin, ParseError>(ParseError::MissingName),
            words(other@).len() == 1 <==> r == Err::<Plugin, ParseError>(
                ParseError::MissingGitUrl,
            ),
    {
        let cs = chars_of(other);
        proof {
            assert(cs@.subrange(0, cs@.len() as int) =~= cs@);
        }
        parse_span(&cs, 0, cs.len())
    }

    /// Name of the plugin.
    pub fn name(&self) -> (r: &String)
        ensures
            r@ == self@.name,
    {
        &self.name
    }

    /// Git clone URL of the plugin.
    pub fn git_url(&self) -> (r: &String)
        ensures
            r@ == self@.git_url,
    {
        &self.git_url
    }

    /// Git branch of the installed version, when the listing gives one.
    pub fn git_branch(&self) -> (r: &Option<String>)
        ensures
            opt_view(*r) == self@.git_branch,
    {
        &self.git_branch
    }

    /// Git reference of the installed version, when the listing gives one.
    pub fn git_ref(&self) -> (r: &Option<String>)
        ensures
            opt_view(*r) == self@.git_ref,
    {
        &self.git_ref
    }
}

/// The plugins that the listing lines `ls` describe, one for each non-empty line; `None`
/// when any such line describes none.
pub open spec fn plugins_of(ls: Seq<Seq<char>>) -> Option<Seq<PluginView>>
    decreases ls.len(),
{
    if ls.len() == 0 {
        Some(seq![])
    } else {
        let l = ls.last();
        match plugins_of(ls.drop_last()) {
            None => None,
            Some(ps) => if l.len() == 0 {
                Some(ps)
            } else {
                match plugin_of(l) {
                    Some(p) => Some(ps.push(p)),
                    None => None,
                }
            },
        }
    }
}

/// The plugins that a listing's text describes.
pub open spec fn payload(text: Seq<char>) -> Option<Seq<PluginView>> {
    plugins_of(lines(text))
}

/// The models of a sequence of plugins.
pub open spec fn set_view(v: Seq<Plugin>) -> Seq<PluginView> {
    v.map_values(|p: Plugin| p@)
}

proof fn lemma_failure_stays(ls: Seq<Seq<char>>, j: int)
    requires
        0 <= j <= ls.len(),
        plugins_of(ls.take(j)) is None,
    ensures
        plugins_of(ls) is None,
    decreases ls.len() - j,
{
    if j == ls.len() {
        assert(ls.take(j) =~= ls);
    } else {
        assert(ls.take(j + 1).drop_last() =~= ls.take(j));
        lemma_failure_stays(ls, j + 1);
    }
}

/// Parses a whole listing: one plugin per non-empty line, or `None` if any line does not
/// describe a plugin.
pub fn parse_payload(text: &str) -> (r: Option<PluginSet>)
    ensures
        r is Some <==> payload(text@) is Some,
        r matches Some(v) ==> payload(text@) == Some(set_view(v@)),
{
    parse_chars(&chars_of(text))
}

/// Parses the listing whose characters are `cs`.
fn parse_chars(cs: &Vec<char>) -> (r: Option<PluginSet>)
    ensures
        r is Some <==> payload(cs@) is Some,
        r matches Some(v) ==> payload(cs@) == Some(set_view(v@)),
{
    let ghost text = cs@;
    let spans = line_spans(cs);
    let ghost ls = pieces(cs@, spans@);
    let mut out: Vec<Plugin> = Vec::new();
    let mut k: usize = 0;
    proof {
        assert(ls.take(0) =~= Seq::<Seq<char>>::empty());
        assert(set_view(out@) =~= Seq::<PluginView>::empty());
    }
    while k < spans.len()
        invariant
            ls == pieces(cs@, spans@),
            ls == lines(cs@),
            cs@ == text,
            k <= spans@.len(),
            forall|j: int| 0 <= j < spans@.len() ==> spans@[j].0 <= #[trigger] spans@[j].1 <= cs@.len(),
            plugins_of(ls.take(k as int)) == Some(set_view(out@)),
        decreases spans@.len() - k,
    {
        let (a, b) = spans[k];
        proof {
            assert(ls.take(k + 1).drop_last() =~= ls.take(k as int));
            assert(ls.take(k + 1).last() == cs@.subrange(a as int, b as int));
        }
        if a < b {
            match parse_span(cs, a, b) {
                Ok(p) => {
                    let ghost before = out@;
                    out.push(p);
                    proof {
                        assert(set_view(out@) =~= set_view(before).push(p@));
                    }
                },
                Err(_) => {
                    proof {
                        assert(plugin_of(cs@.subrange(a as int, b as int)) is None);
                        assert(plugins_of(ls.take(k + 1)) is None);
                        lemma_failure_stays(ls, k + 1);
                    }
                    return None;
                },
            }
        }
        k += 1;
    }
    proof {
        assert(ls.take(k as int) =~= ls);
    }
    Some(out)
}

/// Banner that the tool prints before listing the plugin repository for the first time.
pub const BANNER: &'static str = "initializing plugin repository...";

/// The model of a result with no payload.
pub open spec fn unit_view(r: Result<(), Error>) -> Result<(), ErrorView> {
    match r {
        Ok(()) => Ok(()),
        Err(e) => Err(e@),
    }
}

/// The model of a result whose payload is a list of plugins.
pub open spec fn list_view(r: Result<PluginSet, Error>) -> Result<Seq<PluginView>, ErrorView> {
    match r {
        Ok(v) => Ok(set_view(v@)),
        Err(e) => Err(e@),
    }
}

/// The messages that adding a plugin recognizes.
pub open spec fn add_markers() -> Markers {
    Markers { empty: false, not_found: true, already_added: true, no_internet: false, usage: true }
}

fn add_markers_exec() -> (r: Markers)
    ensures
        r == add_markers(),
{
    Markers { empty: false, not_found: true, already_added: true, no_internet: false, usage: true }
}

/// The arguments of `asdf plugin add <name> [<git-url>]`.
pub open spec fn add_args(name: Seq<char>, git_url: Option<Seq<char>>) -> Seq<Seq<char>> {
    let base = seq!["plugin"@, "add"@, name];
    match git_url {
        Some(u) => base.push(u),
        None => base,
    }
}

/// What adding a plugin returns for the finished run `c`.
pub open spec fn add_outcome(c: CommandView) -> Result<(), ErrorView> {
    let k = class_of(add_markers(), c.success, c.stderr);
    if is_success(k) {
        Ok(())
    } else {
        Err(failure(k, c.command))
    }
}

/// What adding a plugin returns when the runner reported `o` on `call`.
pub open spec fn add_call(call: InvocationView, o: Result<RawOutput, SpawnError>) -> Result<
    (),
    ErrorView,
> {
    match ran(call, o) {
        Ok(c) => add_outcome(c),
        Err(e) => Err(e),
    }
}

/// A line parses exactly when it has at least two words, and then its first two words are
/// the plugin's name and Git URL, unchanged.
pub proof fn parse_keeps_name_and_url(line: Seq<char>)
    ensures
        words(line).len() >= 2 <==> plugin_of(line) is Some,
        plugin_of(line) matches Some(p) ==> p.name == words(line)[0] && p.git_url == words(
            line,
        )[1],
{
}

proof fn lemma_words_run(t: Seq<char>, rest: Seq<char>, cur: Seq<char>)
    requires
        forall|i: int| 0 <= i < t.len() ==> !is_space(#[trigger] t[i]),
    ensures
        words_after(t + rest, cur) == words_after(rest, cur + t),
    decreases t.len(),
{
    if t.len() > 0 {
        assert((t + rest).drop_first() =~= t.drop_first() + rest);
        assert(cur.push(t[0]) + t.drop_first() =~= cur + t);
        lemma_words_run(t.drop_first(), rest, cur.push(t[0]));
    } else {
        assert(t + rest =~= rest);
        assert(cur + t =~= cur);
    }
}

/// A name and a Git URL, each a non-empty run of non-whitespace characters, written on one
/// line with a space between them, parse back to a plugin with that name and URL and no
/// branch or reference.
pub proof fn name_and_url_round_trip(name: Seq<char>, git_url: Seq<char>)
    requires
        name.len() > 0,
        git_url.len() > 0,
        forall|i: int| 0 <= i < name.len() ==> !is_space(#[trigger] name[i]),
        forall|i: int| 0 <= i < git_url.len() ==> !is_space(#[trigger] git_url[i]),
    ensures
        plugin_of(name + seq![' '] + git_url) == Some(
            PluginView { name, git_url, git_branch: None, git_ref: None },
        ),
{
    let line = name + seq![' '] + git_url;
    let rest = seq![' '] + git_url;
    assert(line =~= name + rest);
    lemma_words_run(name, rest, seq![]);
    assert(Seq::<char>::empty() + name =~= name);
    assert(rest.drop_first() =~= git_url);
    assert(is_space(' '));
    assert(git_url =~= git_url + Seq::<char>::empty());
    lemma_words_run(git_url, Seq::<char>::empty(), seq![]);
    assert(Seq::<char>::empty() + git_url =~= git_url);
    assert(words(line) =~= seq![name, git_url]);
}

/// A listing of installed plugins whose standard error says that none are installed
/// returns an empty list, whatever its exit status.
pub proof fn no_plugins_lists_nothing(c: CommandView)
    requires
        contains(c.stderr, NO_PLUGINS@),
    ensures
        list_outcome(c) == Ok::<Seq<PluginView>, ErrorView>(Seq::empty()),
{
}

/// Adding a plugin whose standard error says it is not in the repository fails with
/// [`ErrorView::PluginNotFound`], whatever its exit status.
pub proof fn not_found_is_reported(c: CommandView)
    requires
        contains(c.stderr, NOT_FOUND@),
    ensures
        add_outcome(c) == Err::<(), ErrorView>(ErrorView::PluginNotFound),
{
}

/// Adding a plugin that failed and whose standard error says it was already added fails
/// with [`ErrorView::PluginAlreadyAdded`] rather than a generic failure, unless standard
/// error also says it is not in the repository.
pub proof fn already_added_precedes_failure(c: CommandView)
    requires
        contains(c.stderr, ALREADY_ADDED@),
        !contains(c.stderr, NOT_FOUND@),
        !c.success,
    ensures
        add_outcome(c) == Err::<(), ErrorView>(ErrorView::PluginAlreadyAdded),
{
}

/// When the tool cannot be found, every command reports [`ErrorView::AsdfNotFound`] and
/// never an I/O failure.
pub proof fn missing_tool_is_not_found(
    call: InvocationView,
    m: Markers,
    banner: bool,
    not_found: SpawnError,
)
    requires
        not_found.kind == IoKind::NotFound,
    ensures
        ran(call, Err(not_found)) == Err::<CommandView, ErrorView>(
            ErrorView::AsdfNotFound,
        ),
        add_call(call, Err(not_found)) == Err::<(), ErrorView>(ErrorView::AsdfNotFound),
        listing_call(m, banner, call, Err(not_found)) == Err::<
            Seq<PluginView>,
            ErrorView,
        >(ErrorView::AsdfNotFound),
        text_call(m, call, Err(not_found)) == Err::<Seq<char>, ErrorView>(
            ErrorView::AsdfNotFound,
        ),
{
}

/// What adding a plugin returns for the finished run `result`.
pub fn add_result(result: CommandResult) -> (r: Result<(), Error>)
    ensures
        unit_view(r) == add_outcome(result@),
{
    let k = classify(&add_markers_exec(), &result);
    match k {
        Class::Empty | Class::Success => Ok(()),
        _ => Err(failure_of(k, result.command)),
    }
}

/// Adds a plugin by its name in the plugin repository, or by a name and a Git clone URL.
///
/// ```help
/// asdf plugin add <name> [<git-url>]      Add a plugin from the plugin repo OR,
///                                         add a Git repo as a plugin by
///                                         specifying the name and repo url
/// ```
pub fn add<F>(name: &str, git_url: Option<&str>, run: F) -> (r: Result<(), Error>) where
    F: FnOnce(&Invocation) -> Result<RawOutput, SpawnError>,

    requires
        runs_all(run),
    ensures
        exists|o: Result<RawOutput, SpawnError>|
            #[trigger] called(run, tool_call(add_args(name@, opt_str(git_url))), o) && unit_view(r)
                == add_call(tool_call(add_args(name@, opt_str(git_url))), o),
{
    let mut argv: Vec<&str> = Vec::new();
    argv.push("plugin");
    argv.push("add");
    argv.push(name);
    match git_url {
        Some(u) => argv.push(u),
        None => {},
    }
    let call = Invocation::new(argv.as_slice());
    proof {
        assert(words_of(argv@) =~= add_args(name@, opt_str(git_url)));
    }
    let ghost g = call;
    assert(run.requires((&g,)));
    let res = command(call, run);
    let ghost o = choose|o: Result<RawOutput, SpawnError>|
        run.ensures((&g,), o) && crate::command::result_view(res) == ran(g@, o);
    let r = match res {
        Ok(result) => add_result(result),
        Err(e) => Err(e),
    };
    assert(called(run, g@, o));
    r
}

/// What a listing returns for the finished run `c`: nothing when `m` recognizes an empty
/// result, else the plugins of standard output, with the banner removed first when `banner`
/// holds.
pub open spec fn listing_outcome(m: Markers, banner: bool, c: CommandView) -> Result<
    Seq<PluginView>,
    ErrorView,
> {
    let k = class_of(m, c.success, c.stderr);
    let text = if banner {
        without(c.stdout, BANNER@)
    } else {
        c.stdout
    };
    if k == Class::Empty {
        Ok(seq![])
    } else if k == Class::Success {
        match payload(text) {
            Some(ps) => Ok(ps),
            None => Err(ErrorView::MalformedOutput(c.command)),
        }
    } else {
        Err(failure(k, c.command))
    }
}

/// What a listing returns for the finished run `result`.
fn listing_result(m: &Markers, banner: bool, result: CommandResult) -> (r: Result<PluginSet, Error>)
    ensures
        list_view(r) == listing_outcome(*m, banner, result@),
{
    let k = classify(m, &result);
    match k {
        Class::Empty => {
            let v: PluginSet = Vec::new();
            assert(set_view(v@) =~= Seq::<PluginView>::empty());
            Ok(v)
        },
        Class::Success => {
            let out = chars_of(result.stdout.as_str());
            let text = if banner {
                strip(&out, &chars_of(BANNER))
            } else {
                out
            };
            match parse_chars(&text) {
                Some(ps) => Ok(ps),
                None => Err(Error::MalformedOutput(result.command)),
            }
        },
        _ => Err(failure_of(k, result.command)),
    }
}

/// What a listing returns when the runner reported `o` on `call`.
pub open spec fn listing_call(
    m: Markers,
    banner: bool,
    call: InvocationView,
    o: Result<RawOutput, SpawnError>,
) -> Result<Seq<PluginView>, ErrorView> {
    match ran(call, o) {
        Ok(c) => listing_outcome(m, banner, c),
        Err(e) => Err(e),
    }
}

/// Runs the listing `call` through `run` and parses what it prints.
fn listing<F>(m: &Markers, banner: bool, call: Invocation, run: F) -> (r: Result<PluginSet, Error>) where
    F: FnOnce(&Invocation) -> Result<RawOutput, SpawnError>,

    requires
        runs_all(run),
    ensures
        exists|o: Result<RawOutput, SpawnError>|
            #[trigger] called(run, call@, o) && list_view(r) == listing_call(*m, banner, call@, o),
{
    let ghost g = call;
    assert(run.requires((&g,)));
    let res = command(call, run);
    let ghost o = choose|o: Result<RawOutput, SpawnError>|
        run.ensures((&g,), o) && crate::command::result_view(res) == ran(g@, o);
    let r = match res {
        Ok(result) => listing_result(m, banner, result),
        Err(e) => Err(e),
    };
    assert(called(run, g@, o));
    r
}

/// The messages that listing installed plugins recognizes.
pub open spec fn list_markers() -> Markers {
    Markers { empty: true, not_found: false, already_added: false, no_internet: false, usage: false }
}

fn list_markers_exec() -> (r: Markers)
    ensures
        r == list_markers(),
{
    Markers { empty: true, not_found: false, already_added: false, no_internet: false, usage: false }
}

/// The arguments of `asdf plugin list --urls --refs`.
pub open spec fn list_args() -> Seq<Seq<char>> {
    seq!["plugin"@, "list"@, "--urls"@, "--refs"@]
}

/// What listing installed plugins returns for the finished run `c`.
pub open spec fn list_outcome(c: CommandView) -> Result<Seq<PluginView>, ErrorView> {
    listing_outcome(list_markers(), false, c)
}

/// What listing installed plugins returns for the finished run `result`.
pub fn list_result(result: CommandResult) -> (r: Result<PluginSet, Error>)
    ensures
        list_view(r) == list_outcome(result@),
{
    listing_result(&list_markers_exec(), false, result)
}

/// Returns every installed plugin, with its Git URL and reference.
/// To list the plugins that can be added, see [`list_all`].
///
/// ```help
/// asdf plugin list [--urls] [--refs]      List installed plugins. Optionally show
///                                         git urls and git-ref
/// ```
pub fn list<F>(run: F) -> (r: Result<PluginSet, Error>) where
    F: FnOnce(&Invocation) -> Result<RawOutput, SpawnError>,

    requires
        runs_all(run),
    ensures
        exists|o: Result<RawOutput, SpawnError>|
            #[trigger] called(run, tool_call(list_args()), o) && list_view(r) == listing_call(
                list_markers(),
                false,
                tool_call(list_args()),
                o,
            ),
{
    let mut argv: Vec<&str> = Vec::new();
    argv.push("plugin");
    argv.push("list");
    argv.push("--urls");
    argv.push("--refs");
    let call = Invocation::new(argv.as_slice());
    proof {
        assert(words_of(argv@) =~= list_args());
    }
    listing(&list_markers_exec(), false, call, run)
}

/// The messages that listing the plugin repository recognizes.
pub open spec fn list_all_markers() -> Markers {
    Markers { empty: false, not_found: false, already_added: false, no_internet: true, usage: false }
}

fn list_all_markers_exec() -> (r: Markers)
    ensures
        r == list_all_markers(),
{
    Markers { empty: false, not_found: false, already_added: false, no_internet: true, usage: false }
}

/// The arguments of `asdf plugin list all`.
pub open spec fn list_all_args() -> Seq<Seq<char>> {
    seq!["plugin"@, "list"@, "all"@]
}

/// What listing the plugin repository returns for the finished run `c`.
pub open spec fn list_all_outcome(c: CommandView) -> Result<Seq<PluginView>, ErrorView> {
    listing_outcome(list_all_markers(), true, c)
}

/// What listing the plugin repository returns for the finished run `result`.
pub fn list_all_result(result: CommandResult) -> (r: Result<PluginSet, Error>)
    ensures
        list_view(r) == list_all_outcome(result@),
{
    listing_result(&list_all_markers_exec(), true, result)
}

/// Returns every plugin registered in the plugin repository, with its Git URL.
///
/// ```help
/// asdf plugin list all                    List plugins registered on asdf-plugins
///                                         repository with URLs
/// ```
pub fn list_all<F>(run: F) -> (r: Result<PluginSet, Error>) where
    F: FnOnce(&Invocation) -> Result<RawOutput, SpawnError>,

    requires
        runs_all(run),
    ensures
        exists|o: Result<RawOutput, SpawnError>|
            #[trigger] called(run, tool_call(list_all_args()), o) && list_view(r) == listing_call(
                list_all_markers(),
                true,
                tool_call(list_all_args()),
                o,
            ),
{
    let mut argv: Vec<&str> = Vec::new();
    argv.push("plugin");
    argv.push("list");
    argv.push("all");
    let call = Invocation::new(argv.as_slice());
    proof {
        assert(words_of(argv@) =~= list_all_args());
    }
    listing(&list_all_markers_exec(), true, call, run)
}

/// The arguments of `asdf plugin remove <name>`.
pub open spec fn remove_args(name: Seq<char>) -> Seq<Seq<char>> {
    seq!["plugin"@, "remove"@, name]
}

/// Removes a plugin and every version installed through it.
///
/// ```help
/// asdf plugin remove <name>               Remove plugin and package versions
/// ```
pub fn remove<F>(name: &str, run: F) -> (r: Result<String, Error>) where
    F: FnOnce(&Invocation) -> Result<RawOutput, SpawnError>,

    requires
        runs_all(run),
    ensures
        exists|o: Result<RawOutput, SpawnError>|
            #[trigger] called(run, tool_call(remove_args(name@)), o)
                && text_view(r) == text_call(Markers::spec_none(), tool_call(remove_args(name@)), o),
{
    let mut argv: Vec<&str> = Vec::new();
    argv.push("plugin");
    argv.push("remove");
    argv.push(name);
    let call = Invocation::new(argv.as_slice());
    proof {
        assert(words_of(argv@) =~= remove_args(name@));
    }
    run_text(&Markers::none(), call, run)
}

/// The arguments of `asdf plugin update <name> [<git-ref>]`.
pub open spec fn update_args(name: Seq<char>, git_ref: Seq<char>) -> Seq<Seq<char>> {
    seq!["plugin"@, "update"@, name, git_ref]
}

/// Updates a plugin to a Git reference.
///
/// ```help
/// asdf plugin update <name> [<git-ref>]   Update a plugin to latest commit on
///                                         default branch or a particular git-ref
/// ```
pub fn update<F>(name: &str, git_ref: &str, run: F) -> (r: Result<String, Error>) where
    F: FnOnce(&Invocation) -> Result<RawOutput, SpawnError>,

    requires
        runs_all(run),
    ensures
        exists|o: Result<RawOutput, SpawnError>|
            #[trigger] called(run, tool_call(update_args(name@, git_ref@)), o)
                && text_view(r) == text_call(Markers::spec_none(), tool_call(update_args(name@, git_ref@)), o),
{
    let mut argv: Vec<&str> = Vec::new();
    argv.push("plugin");
    argv.push("update");
    argv.push(name);
    argv.push(git_ref);
    let call = Invocation::new(argv.as_slice());
    proof {
        assert(words_of(argv@) =~= update_args(name@, git_ref@));
    }
    run_text(&Markers::none(), call, run)
}

/// The arguments of `asdf plugin update --all`.
pub open spec fn update_all_args() -> Seq<Seq<char>> {
    seq!["plugin"@, "update"@, "--all"@]
}

/// Updates every plugin to the latest commit of its default branch.
///
/// ```help
/// asdf plugin update --all                Update all plugins to latest commit on
///                                         default branch
/// ```
pub fn update_all<F>(run: F) -> (r: Result<String, Error>) where
    F: FnOnce(&Invocation) -> Result<RawOutput, SpawnError>,

    requires
        runs_all(run),
    ensures
        exists|o: Result<RawOutput, SpawnError>|
            #[trigger] called(run, tool_call(update_all_args()), o)
                && text_view(r) == text_call(Markers::spec_none(), tool_call(update_all_args()), o),
{
    let mut argv: Vec<&str> = Vec::new();
    argv.push("plugin");
    argv.push("update");
    argv.push("--all");
    let call = Invocation::new(argv.as_slice());
    proof {
        assert(words_of(argv@) =~= update_all_args());
    }
    run_text(&Markers::none(), call, run)
}

} // verus!
