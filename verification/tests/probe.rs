use remote_ssh::probe::interpret_probe_output;
use remote_ssh::probe::is_auth_http_status;
use remote_ssh::probe::is_liveness_http_status;
use remote_ssh::probe::parse_probe_status_line;
use remote_ssh::probe::parse_version_token;
use remote_ssh::probe::ProbeError;
use remote_ssh::probe::ProbeReport;

#[test]
fn parse_probe_status_line_extracts_numeric_status() {
    assert_eq!(
        parse_probe_status_line(Some("INFO_STATUS=401"), "INFO_STATUS="),
        Some(401)
    );
    assert_eq!(
        parse_probe_status_line(Some("INFO_STATUS=abc"), "INFO_STATUS="),
        None
    );
    assert_eq!(
        parse_probe_status_line(Some("WRONG=200"), "INFO_STATUS="),
        None
    );
}

#[test]
fn liveness_status_accepts_success_and_auth_challenges() {
    assert!(is_liveness_http_status(200));
    assert!(is_liveness_http_status(204));
    assert!(is_liveness_http_status(401));
    assert!(is_liveness_http_status(403));
    assert!(!is_liveness_http_status(500));
    assert!(!is_liveness_http_status(0));
}

#[test]
fn status_line_edge_cases() {
    assert_eq!(parse_probe_status_line(None, "INFO_STATUS="), None);
    assert_eq!(parse_probe_status_line(Some("INFO_STATUS="), "INFO_STATUS="), None);
    assert_eq!(
        parse_probe_status_line(Some("INFO_STATUS= 200 "), "INFO_STATUS="),
        Some(200)
    );
    assert_eq!(
        parse_probe_status_line(Some("INFO_STATUS=000"), "INFO_STATUS="),
        Some(0)
    );
    assert_eq!(
        parse_probe_status_line(Some("INFO_STATUS=70000"), "INFO_STATUS="),
        None
    );
    assert_eq!(
        parse_probe_status_line(Some(" INFO_STATUS=200"), "INFO_STATUS="),
        None
    );
}

#[test]
fn statuses_at_the_edges_of_the_ranges() {
    assert!(!is_liveness_http_status(199));
    assert!(is_liveness_http_status(299));
    assert!(!is_liveness_http_status(300));
    assert!(!is_liveness_http_status(400));
    assert!(!is_liveness_http_status(402));
    assert!(!is_liveness_http_status(404));
    assert!(is_auth_http_status(401));
    assert!(is_auth_http_status(403));
    assert!(!is_auth_http_status(200));
    assert!(!is_auth_http_status(402));
}

#[test]
fn version_is_the_first_dotted_number() {
    assert_eq!(parse_version_token("1.2.3"), Some("1.2.3".to_string()));
    assert_eq!(parse_version_token("v1.2.3\n"), Some("1.2.3".to_string()));
    assert_eq!(
        parse_version_token("openchamber v0.10.1, (build 7)"),
        Some("0.10.1".to_string())
    );
    assert_eq!(parse_version_token("version 2.0),"), Some("2.0".to_string()));
    assert_eq!(parse_version_token("node 18 then 1.5 and 2.6"), Some("1.5".to_string()));
    assert_eq!(parse_version_token(""), None);
    assert_eq!(parse_version_token("command not found"), None);
    assert_eq!(parse_version_token("7"), None);
    assert_eq!(parse_version_token("1..2"), None);
    assert_eq!(parse_version_token(".1.2"), None);
    assert_eq!(parse_version_token("1.2."), None);
    assert_eq!(parse_version_token("1.2-beta"), None);
    assert_eq!(parse_version_token("vv1.2"), None);
    assert_eq!(parse_version_token("(1.2)"), None);
}

fn report(info: u16, auth: u16, health: u16, body: Option<&str>) -> ProbeReport {
    ProbeReport {
        info_status: info,
        auth_status: auth,
        health_status: health,
        body: body.map(|b| b.to_string()),
    }
}

#[test]
fn probe_with_a_success_carries_the_body() {
    let output = "INFO_STATUS=200\nAUTH_STATUS=0\nHEALTH_STATUS=200\n{\"a\":1}\nmore\n";
    assert_eq!(
        interpret_probe_output(output, false),
        Ok(report(200, 0, 200, Some("{\"a\":1}\nmore")))
    );
    assert_eq!(
        interpret_probe_output("INFO_STATUS=204\nAUTH_STATUS=0\nHEALTH_STATUS=500\n", false),
        Ok(report(204, 0, 500, Some("")))
    );
}

#[test]
fn probe_falls_back_on_the_health() {
    assert_eq!(
        interpret_probe_output("INFO_STATUS=404\nAUTH_STATUS=0\nHEALTH_STATUS=200\nx", false),
        Ok(report(404, 0, 200, None))
    );
    assert_eq!(
        interpret_probe_output("INFO_STATUS=500\nAUTH_STATUS=0\nHEALTH_STATUS=401\n", true),
        Ok(report(500, 0, 401, None))
    );
}

#[test]
fn probe_that_finds_nothing_reports_both_statuses() {
    assert_eq!(
        interpret_probe_output("INFO_STATUS=500\nAUTH_STATUS=0\nHEALTH_STATUS=502\n", false),
        Err(ProbeError::RemoteProbeFailed { info_status: 500, health_status: 502 })
    );
    assert_eq!(
        interpret_probe_output("", false),
        Err(ProbeError::RemoteProbeFailed { info_status: 0, health_status: 0 })
    );
    assert_eq!(
        interpret_probe_output("garbage\nINFO_STATUS=200\n", true),
        Err(ProbeError::RemoteProbeFailed { info_status: 0, health_status: 0 })
    );
}

#[test]
fn challenge_with_a_rejected_password() {
    assert_eq!(
        interpret_probe_output("INFO_STATUS=401\nAUTH_STATUS=403\nHEALTH_STATUS=200\n", true),
        Err(ProbeError::RemoteAuthRejected { auth_status: 403 })
    );
    assert_eq!(
        interpret_probe_output("INFO_STATUS=403\nAUTH_STATUS=0\nHEALTH_STATUS=0\n", true),
        Err(ProbeError::RemoteAuthRejected { auth_status: 0 })
    );
}

#[test]
fn challenge_with_an_accepted_password_is_alive() {
    assert_eq!(
        interpret_probe_output("INFO_STATUS=401\nAUTH_STATUS=200\nHEALTH_STATUS=500\n", true),
        Ok(report(401, 200, 500, None))
    );
}

#[test]
fn challenge_without_a_password_needs_the_health() {
    assert_eq!(
        interpret_probe_output("INFO_STATUS=401\nAUTH_STATUS=0\nHEALTH_STATUS=200\n", false),
        Ok(report(401, 0, 200, None))
    );
    assert_eq!(
        interpret_probe_output("INFO_STATUS=403\nAUTH_STATUS=0\nHEALTH_STATUS=500\n", false),
        Err(ProbeError::RemoteAuthRequired)
    );
}
