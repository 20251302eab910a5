use relay_bridge::bridge::{
    launch_error, relay_all, relay_list_ports, relay_set, relay_status, BridgeError,
};
use relay_bridge::command::{build_args, is_decimal, RelayOperation};
use relay_bridge::invoke::command_result;
use relay_bridge::resolver::{
    candidate_paths, first_existing, join_path, next_probe, not_found_report, Probe, Resolver,
};

fn strings(v: &[&str]) -> Vec<String> {
    v.iter().map(|s| s.to_string()).collect()
}

const MISSING_A: &str = "/nonexistent-relay-dir-a/relay.exe";
const MISSING_B: &str = "/nonexistent-relay-dir-b/relay.exe";

#[test]
fn list_ports_args_exact() {
    let args = build_args(RelayOperation::ListPorts, None);
    assert_eq!(args, strings(&["list-ports", "--json"]));
}

#[test]
fn port_pair_prepended_for_every_operation() {
    let args = build_args(RelayOperation::ListPorts, Some("COM3".to_string()));
    assert_eq!(args, strings(&["--port", "COM3", "list-ports", "--json"]));
    let args = build_args(
        RelayOperation::Status { target: "all".to_string() },
        Some("/dev/ttyUSB0".to_string()),
    );
    assert_eq!(args, strings(&["--port", "/dev/ttyUSB0", "status", "all"]));
}

#[test]
fn status_args() {
    let args = build_args(RelayOperation::Status { target: "3".to_string() }, None);
    assert_eq!(args, strings(&["status", "3"]));
}

#[test]
fn set_relay_args_for_each_index() {
    for relay in 1u8..=8 {
        let args = build_args(
            RelayOperation::SetRelay { relay, state: "on".to_string(), seconds: None },
            None,
        );
        assert_eq!(args, vec!["relay".to_string(), relay.to_string(), "on".to_string()]);
    }
}

#[test]
fn set_relay_args_with_seconds() {
    let args = build_args(
        RelayOperation::SetRelay {
            relay: 5,
            state: "off".to_string(),
            seconds: Some("2.5".to_string()),
        },
        None,
    );
    assert_eq!(args, strings(&["relay", "5", "off", "--seconds", "2.5"]));
}

#[test]
fn set_all_args() {
    let args = build_args(
        RelayOperation::SetAll { state: "on".to_string(), seconds: None },
        Some("COM4".to_string()),
    );
    assert_eq!(args, strings(&["--port", "COM4", "all", "on"]));
    let args = build_args(
        RelayOperation::SetAll { state: "toggle".to_string(), seconds: Some("10".to_string()) },
        None,
    );
    assert_eq!(args, strings(&["all", "toggle", "--seconds", "10"]));
}

#[test]
fn decimal_text_accepted() {
    for s in ["0", "1.5", "-2", "10", "0.0000001", "100000000000000000000", "-0.25"] {
        assert!(is_decimal(s), "{s}");
    }
}

#[test]
fn decimal_text_refused() {
    for s in ["", "-", ".5", "5.", "1.2.3", "NaN", "inf", "-inf", "1e5", " 1", "+1", "--1", "1,5"] {
        assert!(!is_decimal(s), "{s}");
    }
}

#[test]
fn relay_out_of_range_is_refused_without_lookup() {
    for relay in [0u8, 9, 10, 255] {
        let mut resolver = Resolver::new();
        let candidates = strings(&["."]);
        let r = relay_set(&mut resolver, &candidates, None, relay, "on".to_string(), None);
        match r {
            Err(BridgeError::Validation(m)) => assert_eq!(m, "Relay number must be 1..8"),
            _ => panic!("relay {relay} was not refused"),
        }
        assert_eq!(resolver.probes(), 0);
        assert_eq!(resolver.cached(), None);
    }
}

#[test]
fn malformed_seconds_refused() {
    let mut resolver = Resolver::new();
    let candidates = strings(&["."]);
    let r = relay_set(&mut resolver, &candidates, None, 2, "on".to_string(), Some("NaN".to_string()));
    assert!(matches!(r, Err(BridgeError::Validation(_))));
    let r = relay_all(&mut resolver, &candidates, None, "on".to_string(), Some("inf".to_string()));
    match r {
        Err(e) => assert_eq!(e.message(), "Seconds must be a plain decimal number"),
        Ok(_) => panic!("malformed seconds accepted"),
    }
    assert_eq!(resolver.probes(), 0);
}

#[test]
fn relay_set_in_range_builds_invocation() {
    let mut resolver = Resolver::new();
    let candidates = strings(&[MISSING_A, "."]);
    let inv = relay_set(
        &mut resolver,
        &candidates,
        Some("COM3".to_string()),
        8,
        "on".to_string(),
        Some("1.5".to_string()),
    )
    .ok()
    .unwrap();
    assert_eq!(inv.program, ".");
    assert_eq!(inv.args, strings(&["--port", "COM3", "relay", "8", "on", "--seconds", "1.5"]));
}

#[test]
fn list_ports_invocation() {
    let mut resolver = Resolver::new();
    let candidates = strings(&["."]);
    let inv = relay_list_ports(&mut resolver, &candidates).ok().unwrap();
    assert_eq!(inv.program, ".");
    assert_eq!(inv.args, strings(&["list-ports", "--json"]));
}

#[test]
fn status_and_all_invocations() {
    let mut resolver = Resolver::new();
    let candidates = strings(&["."]);
    let inv = relay_status(&mut resolver, &candidates, None, "2".to_string()).ok().unwrap();
    assert_eq!(inv.args, strings(&["status", "2"]));
    let inv = relay_all(&mut resolver, &candidates, None, "off".to_string(), None).ok().unwrap();
    assert_eq!(inv.args, strings(&["all", "off"]));
}

#[test]
fn join_path_separators() {
    assert_eq!(join_path("/opt/app", "relay.exe", "/"), "/opt/app/relay.exe");
    assert_eq!(join_path("/opt/app/", "relay.exe", "/"), "/opt/app/relay.exe");
    assert_eq!(join_path("", "relay.exe", "/"), "relay.exe");
    assert_eq!(join_path("C:\\app", "relay.exe", "\\"), "C:\\app\\relay.exe");
}

#[test]
fn candidates_in_declared_order() {
    let c = candidate_paths(
        Some("/usr/lib/app".to_string()),
        Some("/usr/bin".to_string()),
        "/src/gui",
        "/",
    );
    assert_eq!(
        c,
        strings(&[
            "/usr/lib/app/relay.exe",
            "/usr/bin/relay.exe",
            "/src/gui/bin/relay.exe",
            "/src/gui/../relay.exe",
            "/src/gui/../../relay.exe",
        ])
    );
    let c = candidate_paths(None, None, "/src/gui", "/");
    assert_eq!(c.len(), 3);
    assert_eq!(c[0], "/src/gui/bin/relay.exe");
}

#[test]
fn probe_steps() {
    assert!(matches!(next_probe(5, &vec![]), Probe::Check(0)));
    assert!(matches!(next_probe(5, &vec![false, false]), Probe::Check(2)));
    assert!(matches!(next_probe(5, &vec![false, false, true]), Probe::Found(2)));
    assert!(matches!(next_probe(2, &vec![false, false]), Probe::Exhausted));
    assert!(matches!(next_probe(0, &vec![]), Probe::Exhausted));
}

#[test]
fn search_stops_at_third_candidate() {
    let candidates = strings(&[MISSING_A, MISSING_B, ".", MISSING_A, "/"]);
    let (found, checked) = first_existing(&candidates);
    assert_eq!(found, Some(".".to_string()));
    assert_eq!(checked, 3);
}

#[test]
fn search_with_nothing_present() {
    let candidates = strings(&[MISSING_A, MISSING_B]);
    assert_eq!(first_existing(&candidates), (None, 2));
    assert_eq!(first_existing(&vec![]), (None, 0));
}

#[test]
fn resolution_is_cached() {
    let mut resolver = Resolver::new();
    let first = strings(&[MISSING_A, "."]);
    assert_eq!(resolver.resolve(&first), Ok(".".to_string()));
    assert_eq!(resolver.probes(), 2);
    let second = strings(&[MISSING_B, "/"]);
    assert_eq!(resolver.resolve(&second), Ok(".".to_string()));
    assert_eq!(resolver.probes(), 2);
    assert_eq!(resolver.cached(), Some(".".to_string()));
}

#[test]
fn failed_resolution_is_not_cached() {
    let mut resolver = Resolver::new();
    let missing = strings(&[MISSING_A, MISSING_B]);
    let err = resolver.resolve(&missing).unwrap_err();
    assert_eq!(err, not_found_report(&missing));
    assert_eq!(resolver.cached(), None);
    assert_eq!(resolver.probes(), 2);
    assert_eq!(resolver.resolve(&strings(&["."])), Ok(".".to_string()));
    assert_eq!(resolver.probes(), 3);
}

#[test]
fn not_found_report_lists_every_path() {
    let r = not_found_report(&strings(&["/a/relay.exe", "/b/relay.exe"]));
    assert_eq!(
        r,
        "relay.exe not found. Checked:\n  - /a/relay.exe\n  - /b/relay.exe\n\nFix: place relay.exe in src-tauri/bin/relay.exe (recommended) and set bundle.externalBin to [\"bin/relay.exe\"], or place relay.exe next to the running executable."
    );
}

#[test]
fn resolution_error_from_operation() {
    let mut resolver = Resolver::new();
    let missing = strings(&[MISSING_A]);
    match relay_list_ports(&mut resolver, &missing) {
        Err(BridgeError::Resolution(m)) => assert!(m.contains(MISSING_A)),
        _ => panic!("expected a resolution error"),
    }
}

#[test]
fn exit_zero_is_ok() {
    let r = command_result(Some(0), b"[\"COM3\"]\n", b"");
    assert!(r.ok);
    assert_eq!(r.code, Some(0));
    assert_eq!(r.stdout, "[\"COM3\"]\n");
    assert_eq!(r.stderr, "");
}

#[test]
fn exit_two_is_not_ok() {
    let r = command_result(Some(2), b"", b"bad relay\n");
    assert!(!r.ok);
    assert_eq!(r.code, Some(2));
    assert_eq!(r.stderr, "bad relay\n");
}

#[test]
fn no_exit_code_is_not_ok() {
    let r = command_result(None, b"partial", b"");
    assert!(!r.ok);
    assert_eq!(r.code, None);
    assert_eq!(r.stdout, "partial");
}

#[test]
fn invalid_utf8_is_replaced() {
    let r = command_result(Some(0), &[0x6f, 0x6b, 0xff], &[0xc3, 0x28]);
    assert_eq!(r.stdout, "ok\u{FFFD}");
    assert_eq!(r.stderr, "\u{FFFD}(");
}

#[test]
fn launch_error_names_path() {
    let e = launch_error("/no/such/relay.exe", "No such file or directory (os error 2)");
    assert!(matches!(e, BridgeError::Launch(_)));
    assert_eq!(
        e.message(),
        "Failed to run /no/such/relay.exe: No such file or directory (os error 2)"
    );
}
