use asdf::command::{decode, CommandResult, Invocation, RawOutput};
use asdf::plugins::{add, add_result, list, list_all, list_all_result, list_result, remove};
use asdf::{packages, utils, Error, IoKind, SpawnError};

fn spawn_failure(kind: IoKind, message: &str) -> SpawnError {
    SpawnError { kind, message: message.to_string() }
}

fn finished(success: bool, stdout: &str, stderr: &str) -> CommandResult {
    CommandResult {
        command: Invocation::new(&["plugin", "list"]),
        success,
        stdout: stdout.to_string(),
        stderr: stderr.to_string(),
    }
}

fn raw(success: bool, stdout: &str, stderr: &str) -> RawOutput {
    RawOutput {
        success,
        stdout: stdout.as_bytes().to_vec(),
        stderr: stderr.as_bytes().to_vec(),
    }
}

#[test]
fn no_plugins_installed_is_an_empty_list() {
    let r = list_result(finished(false, "garbage", "No plugins installed\n")).unwrap();
    assert!(r.is_empty());
    let r = list_result(finished(true, "", "No plugins installed")).unwrap();
    assert!(r.is_empty());
}

#[test]
fn not_found_whatever_the_status() {
    let e = add_result(finished(true, "", "plugin foo not found in repository"));
    assert!(matches!(e, Err(Error::PluginNotFound)));
    let e = add_result(finished(false, "", "plugin foo not found in repository"));
    assert!(matches!(e, Err(Error::PluginNotFound)));
}

#[test]
fn already_added_beats_failed_command() {
    let e = add_result(finished(false, "", "Plugin named foo already added"));
    assert!(matches!(e, Err(Error::PluginAlreadyAdded)));
}

#[test]
fn not_found_beats_already_added() {
    let e = add_result(finished(false, "", "already added; not found in repository"));
    assert!(matches!(e, Err(Error::PluginNotFound)));
}

#[test]
fn usage_banner_is_malformed_options() {
    let e = add_result(finished(false, "", "usage: asdf plugin add <name>"));
    match e {
        Err(Error::MalformedOptions(c)) => {
            assert_eq!(c.program, "asdf");
            assert_eq!(c.args, vec!["plugin".to_string(), "list".to_string()]);
        }
        _ => panic!("expected MalformedOptions"),
    }
}

#[test]
fn add_succeeds_on_clean_exit() {
    assert!(add_result(finished(true, "", "")).is_ok());
}

#[test]
fn add_failure_without_message_is_failed_command() {
    let e = add_result(finished(false, "", "something else"));
    assert!(matches!(e, Err(Error::FailedCommand(_))));
}

#[test]
fn list_failure_is_failed_command() {
    let e = list_result(finished(false, "", "boom"));
    assert!(matches!(e, Err(Error::FailedCommand(_))));
}

#[test]
fn list_parses_output() {
    let r = list_result(finished(true, "foo https://x/foo main abc123\nbar https://x/bar\n", ""))
        .unwrap();
    assert_eq!(r.len(), 2);
    assert_eq!(r[1].name(), "bar");
}

#[test]
fn list_bad_output_is_malformed_output() {
    let e = list_result(finished(true, "lonely\n", ""));
    assert!(matches!(e, Err(Error::MalformedOutput(_))));
}

#[test]
fn list_all_strips_banner() {
    let r = list_all_result(finished(
        true,
        "initializing plugin repository...foo https://x/foo\nbar https://x/bar\n",
        "",
    ))
    .unwrap();
    assert_eq!(r.len(), 2);
    assert_eq!(r[0].name(), "foo");
    assert_eq!(r[1].git_url(), "https://x/bar");
}

#[test]
fn list_all_without_network_is_no_internet() {
    let e = list_all_result(finished(false, "", "fatal: Could not resolve host: github.com"));
    assert!(matches!(e, Err(Error::NoInternet)));
}

#[test]
fn missing_tool_is_asdf_not_found() {
    let e = add("foo", None, |_: &Invocation| Err(spawn_failure(IoKind::NotFound, "missing")));
    assert!(matches!(e, Err(Error::AsdfNotFound)));
    let e = list(|_: &Invocation| Err(spawn_failure(IoKind::NotFound, "missing")));
    assert!(matches!(e, Err(Error::AsdfNotFound)));
    let e = utils::info(|_: &Invocation| Err(spawn_failure(IoKind::NotFound, "missing")));
    assert!(matches!(e, Err(Error::AsdfNotFound)));
}

#[test]
fn other_spawn_failure_is_io_error() {
    let e = list_all(|_: &Invocation| Err(spawn_failure(IoKind::PermissionDenied, "denied")));
    match e {
        Err(Error::IoError(k, m)) => {
            assert_eq!(k, IoKind::PermissionDenied);
            assert_eq!(m, "denied");
        }
        _ => panic!("expected IoError"),
    }
}

#[test]
fn invalid_utf8_is_bad_encoding() {
    let o = Ok(RawOutput { success: true, stdout: vec![0xff, 0xfe], stderr: vec![] });
    assert!(matches!(decode(Invocation::new(&["info"]), o), Err(Error::BadEncoding)));
}

#[test]
fn decode_keeps_text() {
    let o = Ok(raw(true, "héllo", "warn"));
    let c = decode(Invocation::new(&["info"]), o).unwrap();
    assert_eq!(c.stdout, "héllo");
    assert_eq!(c.stderr, "warn");
    assert!(c.success);
}

#[test]
fn add_builds_its_arguments() {
    let r = add("foo", Some("https://x/foo"), |c: &Invocation| {
        assert_eq!(c.program, "asdf");
        assert_eq!(c.args, vec!["plugin", "add", "foo", "https://x/foo"]);
        Ok(raw(true, "", ""))
    });
    assert!(r.is_ok());
}

#[test]
fn add_reports_already_added_through_runner() {
    let r = add("foo", None, |c: &Invocation| {
        assert_eq!(c.args, vec!["plugin", "add", "foo"]);
        Ok(raw(false, "", "Plugin named foo already added\n"))
    });
    assert!(matches!(r, Err(Error::PluginAlreadyAdded)));
}

#[test]
fn list_through_runner() {
    let r = list(|c: &Invocation| {
        assert_eq!(c.args, vec!["plugin", "list", "--urls", "--refs"]);
        Ok(raw(true, "foo https://x/foo main abc123\n", ""))
    })
    .unwrap();
    assert_eq!(r.len(), 1);
    assert_eq!(r[0].git_ref().as_deref(), Some("abc123"));
}

#[test]
fn list_all_through_runner() {
    let r = list_all(|c: &Invocation| {
        assert_eq!(c.args, vec!["plugin", "list", "all"]);
        Ok(raw(true, "foo https://x/foo\n", ""))
    })
    .unwrap();
    assert_eq!(r.len(), 1);
}

#[test]
fn text_commands_return_stdout() {
    let r = remove("foo", |c: &Invocation| {
        assert_eq!(c.args, vec!["plugin", "remove", "foo"]);
        Ok(raw(true, "removed\n", ""))
    });
    assert_eq!(r.unwrap(), "removed\n");
    let r = packages::locate("nodejs", Some("20.1.0"), |c: &Invocation| {
        assert_eq!(c.args, vec!["where", "nodejs", "20.1.0"]);
        Ok(raw(true, "/opt/nodejs\n", ""))
    });
    assert_eq!(r.unwrap(), "/opt/nodejs\n");
    let r = packages::list_all("nodejs", None, |c: &Invocation| {
        assert_eq!(c.args, vec!["list", "all", "nodejs"]);
        Ok(raw(true, "1\n2\n", ""))
    });
    assert_eq!(r.unwrap(), "1\n2\n");
}

#[test]
fn text_command_failure_is_failed_command() {
    let r = utils::update(true, |c: &Invocation| {
        assert_eq!(c.args, vec!["update", "--head"]);
        Ok(raw(false, "", "nope"))
    });
    assert!(matches!(r, Err(Error::FailedCommand(_))));
}

#[test]
fn exec_appends_its_arguments() {
    let r = utils::exec("node", &["-e", "1"], |c: &Invocation| {
        assert_eq!(c.args, vec!["exec", "node", "-e", "1"]);
        Ok(raw(true, "", ""))
    });
    assert_eq!(r.unwrap(), "");
}

#[test]
fn install_passes_present_arguments() {
    let r = packages::install(Some("nodejs"), None, |c: &Invocation| {
        assert_eq!(c.args, vec!["install", "nodejs"]);
        Ok(raw(true, "ok", ""))
    });
    assert_eq!(r.unwrap(), "ok");
}

#[test]
fn spawn_errors_convert() {
    assert!(matches!(Error::from(spawn_failure(IoKind::NotFound, "x")), Error::AsdfNotFound));
    match Error::from(spawn_failure(IoKind::Unlisted("ResourceBusy".to_string()), "busy")) {
        Error::IoError(k, m) => {
            assert_eq!(k, IoKind::Unlisted("ResourceBusy".to_string()));
            assert_eq!(m, "busy");
        }
        _ => panic!("expected IoError"),
    }
}

#[test]
fn list_all_ignores_not_found_message() {
    let r = list_all_result(finished(true, "foo u\n", "not found in repository")).unwrap();
    assert_eq!(r.len(), 1);
}

#[test]
fn trailing_carriage_return_without_line_feed_is_malformed_output() {
    let e = list_result(finished(true, "a b\n\r", ""));
    assert!(matches!(e, Err(Error::MalformedOutput(_))));
    let e = list_all_result(finished(true, "a b\n\r", ""));
    assert!(matches!(e, Err(Error::MalformedOutput(_))));
}
