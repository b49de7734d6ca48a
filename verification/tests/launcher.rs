use oratioviva::command::build_command;
use oratioviva::config::build_config;
use oratioviva::digits::{parse_port, port_to_string};
use oratioviva::errors::StartupError;
use oratioviva::launch::plan_launch;
use oratioviva::paths::{find_project_root, join, parent_of};
use oratioviva::resolve::{
    pick_interpreter, resolve_interpreter, script_candidates, select_first_existing,
};
use oratioviva::supervisor::Supervisor;

fn strings(items: &[&str]) -> Vec<String> {
    items.iter().map(|s| s.to_string()).collect()
}

#[test]
fn join_appends_one_component() {
    assert_eq!(join("/a/b", "c"), "/a/b/c");
    assert_eq!(join("", "c"), "/c");
}

#[test]
fn parent_strips_last_component() {
    assert_eq!(parent_of("a/b/c"), Some("a/b".to_string()));
    assert_eq!(parent_of("/x"), Some("".to_string()));
    assert_eq!(parent_of("plain"), None);
    assert_eq!(parent_of(""), None);
}

#[test]
fn project_root_is_grandparent() {
    assert_eq!(
        find_project_root("/opt/app/backend/server.py"),
        Some("/opt/app".to_string())
    );
    assert_eq!(find_project_root("backend/server.py"), None);
    assert_eq!(find_project_root("server.py"), None);
}

#[test]
fn candidates_in_priority_order() {
    let cands = script_candidates(
        &Some("/checkout".to_string()),
        &Some("/bundle/resources".to_string()),
    );
    assert_eq!(
        cands,
        strings(&[
            "/checkout/backend/server.py",
            "/checkout/../backend/server.py",
            "/bundle/resources/backend/server.py",
        ])
    );
}

#[test]
fn candidates_without_bundled_dir() {
    let cands = script_candidates(&Some("/checkout".to_string()), &None);
    assert_eq!(
        cands,
        strings(&[
            "/checkout/backend/server.py",
            "/checkout/../backend/server.py",
        ])
    );
}

#[test]
fn candidates_empty_without_any_base() {
    let cands = script_candidates(&None, &None);
    assert!(cands.is_empty());
}

#[test]
fn first_existing_candidate_wins() {
    let cands = strings(&["a", "b", "c"]);
    assert_eq!(
        select_first_existing(&cands, &vec![true, true, true]),
        Some("a".to_string())
    );
    assert_eq!(
        select_first_existing(&cands, &vec![false, true, true]),
        Some("b".to_string())
    );
    assert_eq!(
        select_first_existing(&cands, &vec![false, false, true]),
        Some("c".to_string())
    );
}

#[test]
fn no_existing_candidate_is_not_found() {
    let cands = strings(&["a", "b", "c"]);
    assert_eq!(select_first_existing(&cands, &vec![false, false, false]), None);
    assert_eq!(select_first_existing(&Vec::new(), &Vec::new()), None);
}

#[test]
fn venv_present_never_falls_through_to_search_path() {
    let venv = "/root/.venv/bin/python".to_string();
    let with_search = pick_interpreter(
        None,
        Some(venv.clone()),
        Some("/usr/bin/python".to_string()),
        Some("/usr/bin/python3".to_string()),
    );
    let without_search = pick_interpreter(None, Some(venv.clone()), None, None);
    assert_eq!(with_search, Ok(venv.clone()));
    assert_eq!(with_search, without_search);

    let windows_venv = "/root/.venv/Scripts/python.exe".to_string();
    let picked = pick_interpreter(
        Some(windows_venv.clone()),
        Some(venv),
        Some("/usr/bin/python".to_string()),
        None,
    );
    assert_eq!(picked, Ok(windows_venv));
}

#[test]
fn search_path_order_python_before_python3() {
    let picked = pick_interpreter(
        None,
        None,
        Some("/usr/bin/python".to_string()),
        Some("/usr/bin/python3".to_string()),
    );
    assert_eq!(picked, Ok("/usr/bin/python".to_string()));
    let picked3 = pick_interpreter(None, None, None, Some("/usr/bin/python3".to_string()));
    assert_eq!(picked3, Ok("/usr/bin/python3".to_string()));
}

#[test]
fn interpreter_probe_without_venv_fails_only_as_not_found() {
    // No venv layout exists under this root, so the outcome depends on
    // what the machine's search path holds; but a failure, if it is one,
    // is always the interpreter-not-found case.
    match resolve_interpreter("/no/such/dir/oratioviva-test") {
        Ok(path) => assert!(!path.is_empty()),
        Err(e) => assert_eq!(e, StartupError::InterpreterNotFound),
    }
}

#[test]
fn no_interpreter_anywhere_is_an_error() {
    assert_eq!(
        pick_interpreter(None, None, None, None),
        Err(StartupError::InterpreterNotFound)
    );
}

#[test]
fn unparsable_port_yields_default() {
    let c = build_config("/root", None, None, Some("not-a-number".to_string()));
    assert_eq!(c.port, 1421);
}

#[test]
fn numeric_port_yields_that_port() {
    let c = build_config("/root", None, None, Some("8080".to_string()));
    assert_eq!(c.port, 8080);
}

#[test]
fn port_parsing_edges() {
    assert_eq!(parse_port("0"), Some(0));
    assert_eq!(parse_port("65535"), Some(65535));
    assert_eq!(parse_port("65536"), None);
    assert_eq!(parse_port("+123"), Some(123));
    assert_eq!(parse_port("+"), None);
    assert_eq!(parse_port(""), None);
    assert_eq!(parse_port("12a"), None);
    assert_eq!(parse_port("-1"), None);
    assert_eq!(parse_port("0008080"), Some(8080));
    assert_eq!(parse_port("99999999999999999999"), None);
}

#[test]
fn port_printing() {
    assert_eq!(port_to_string(0), "0");
    assert_eq!(port_to_string(1421), "1421");
    assert_eq!(port_to_string(65535), "65535");
}

#[test]
fn port_print_parse_round_trip() {
    for v in [0u16, 1, 9, 10, 80, 1421, 8080, 65535] {
        assert_eq!(parse_port(&port_to_string(v)), Some(v));
    }
}

#[test]
fn host_defaults_to_loopback_and_is_overridable() {
    let c = build_config("/root", None, None, None);
    assert_eq!(c.host, "127.0.0.1");
    let c2 = build_config("/root", None, Some("0.0.0.0".to_string()), None);
    assert_eq!(c2.host, "0.0.0.0");
}

#[test]
fn data_dir_prefers_shell_hint() {
    let c = build_config("/root", Some("/home/u/.local/share/app".to_string()), None, None);
    assert_eq!(c.data_dir, "/home/u/.local/share/app");
    let c2 = build_config("/root", None, None, None);
    assert_eq!(c2.data_dir, "/root/data");
}

#[test]
fn build_config_is_repeatable() {
    let first = build_config(
        "/root",
        Some("/data/dir".to_string()),
        Some("0.0.0.0".to_string()),
        Some("8080".to_string()),
    );
    let second = build_config(
        "/root",
        Some("/data/dir".to_string()),
        Some("0.0.0.0".to_string()),
        Some("8080".to_string()),
    );
    assert_eq!(first, second);
}

#[test]
fn shutdown_twice_is_a_no_op() {
    let mut s = Supervisor::new();
    assert!(!s.holding());
    s.attach(4711);
    assert!(s.holding());
    assert_eq!(s.shutdown(), Some(4711));
    assert!(!s.holding());
    assert_eq!(s.shutdown(), None);
    assert_eq!(s.shutdown(), None);
    assert!(!s.holding());
}

#[test]
fn shutdown_without_launch_is_a_no_op() {
    let mut s = Supervisor::new();
    assert_eq!(s.shutdown(), None);
    assert!(!s.holding());
}

#[test]
fn bundled_script_with_system_python3() {
    // The script exists only under the bundled-resources candidate, no venv
    // layout is present, and only python3 is on the search path.
    let cands = script_candidates(
        &Some("/checkout".to_string()),
        &Some("/bundle/resources".to_string()),
    );
    let script = select_first_existing(&cands, &vec![false, false, true]).unwrap();
    assert_eq!(script, "/bundle/resources/backend/server.py");

    let root = find_project_root(&script).unwrap();
    assert_eq!(root, "/bundle/resources");

    let interpreter = pick_interpreter(None, None, None, Some("/usr/bin/python3".to_string()))
        .unwrap();

    let config = build_config(&root, Some("/home/u/.local/share/app".to_string()), None, None);
    let plan = build_command(&interpreter, &script, &config);

    assert_eq!(plan.program, "/usr/bin/python3");
    assert_eq!(
        plan.args,
        strings(&[
            "/bundle/resources/backend/server.py",
            "--host",
            "127.0.0.1",
            "--port",
            "1421",
        ])
    );
    assert_eq!(plan.cwd, "/bundle/resources");
    assert_eq!(plan.data_dir, "/home/u/.local/share/app");
    assert_eq!(
        plan.env,
        vec![
            (
                "ORATIO_DATA_DIR".to_string(),
                "/home/u/.local/share/app".to_string()
            ),
            ("ORATIO_HOST".to_string(), "127.0.0.1".to_string()),
            ("ORATIO_PORT".to_string(), "1421".to_string()),
        ]
    );
}

#[test]
fn no_script_anywhere_spawns_nothing() {
    // Both candidate bases point into a directory that does not exist, so
    // every on-disk probe fails and the attempt reports the script as
    // missing; the supervisor is left untouched.
    let outcome = plan_launch(
        &Some("/no/such/dir/oratioviva-test".to_string()),
        &None,
        None,
        None,
        None,
    );
    assert_eq!(outcome, Err(StartupError::ScriptNotFound));
    let message = StartupError::ScriptNotFound.message();
    assert_eq!(
        message,
        "backend script backend/server.py not found in any candidate location"
    );

    let mut s = Supervisor::new();
    assert_eq!(s.shutdown(), None);
}

#[test]
fn error_messages_name_their_cause() {
    assert_eq!(
        StartupError::InterpreterNotFound.message(),
        "no usable interpreter: neither a .venv layout under the project root nor python/python3 on the search path"
    );
    assert_eq!(
        StartupError::DataDirCreationFailed("permission denied".to_string()).message(),
        "could not create the data directory: permission denied"
    );
    assert_eq!(
        StartupError::SpawnFailed("no such file".to_string()).message(),
        "could not start the backend process: no such file"
    );
}
