use vm_watchdog::api::{
    check_status, data_member, file_content, machine_is_running, should_retry, state_is_running,
    ticket_of, Api, ApiError, HttpAnswer, Method, Ticket, TicketPlan, LOGIN_FRESH_MILLIS,
    MAX_RETRIES, PROBED_FRESH_MILLIS, RETRY_MAX_MILLIS, RETRY_MIN_MILLIS,
};
use vm_watchdog::config::{Config, ProxmoxAuth, VmConfig};

fn auth() -> ProxmoxAuth {
    ProxmoxAuth {
        url: "https://pve.example:8006".to_string(),
        user: "watchdog@pve".to_string(),
        password: "hunter2".to_string(),
        allow_invalid_cert: true,
    }
}

fn vm() -> VmConfig {
    VmConfig {
        host_name: "pve".to_string(),
        node: "pve1".to_string(),
        vmid: "101".to_string(),
        friendly_name: "build box".to_string(),
        max_no_warning_interval: 1800,
        grace_period: 300,
        reset_duration: 120,
        telegram_bot_token: None,
        telegram_chat_id: None,
        dry_run: false,
    }
}

fn ticket() -> Ticket {
    Ticket { ticket: "PVE:watchdog@pve:ABCD".to_string(), csrf: "CSRF:1234".to_string() }
}

fn answer(status: u16, body: &str) -> HttpAnswer {
    HttpAnswer { status, body: body.as_bytes().to_vec() }
}

const LOGIN_BODY: &str =
    r#"{"data":{"ticket":"PVE:watchdog@pve:ABCD","CSRFPreventionToken":"CSRF:1234","username":"watchdog@pve"}}"#;

#[test]
fn config_holds_machines() {
    let config = Config { proxmox_auth: auth(), vm_configs: vec![vm(), vm()] };
    assert_eq!(config.vm_configs.len(), 2);
    assert_eq!(config.proxmox_auth.user, "watchdog@pve");
    assert!(config.proxmox_auth.allow_invalid_cert);
    let copy = config.clone();
    assert_eq!(copy.vm_configs[1].grace_period, 300);
}

#[test]
fn retry_policy_is_bounded() {
    assert_eq!(RETRY_MIN_MILLIS, 100);
    assert_eq!(RETRY_MAX_MILLIS, 3000);
    assert_eq!(MAX_RETRIES, 3);
    assert_eq!(PROBED_FRESH_MILLIS, 60_000);
    assert_eq!(LOGIN_FRESH_MILLIS, 600_000);
}

#[test]
fn only_missing_answers_are_retried() {
    assert!(should_retry(false));
    assert!(!should_retry(true));
}

#[test]
fn new_api_has_to_log_in() {
    let api = Api::from_config(&auth());
    assert_eq!(api.username(), "watchdog@pve");
    assert_eq!(api.password(), "hunter2");
    assert_eq!(api.ticket_url(), "https://pve.example:8006/api2/json/access/ticket");
    assert!(matches!(api.get_ticket(0), TicketPlan::Authenticate));
    assert!(matches!(api.get_ticket(u64::MAX), TicketPlan::Authenticate));
}

#[test]
fn login_caches_the_ticket_for_ten_minutes() {
    let mut api = Api::from_config(&auth());
    let got = api.login_answered(1_000, Some(&answer(200, LOGIN_BODY))).unwrap();
    assert_eq!(got.ticket, "PVE:watchdog@pve:ABCD");
    assert_eq!(got.csrf, "CSRF:1234");
    match api.get_ticket(1_000) {
        TicketPlan::Reuse(t) => {
            assert_eq!(t.ticket, "PVE:watchdog@pve:ABCD");
            assert_eq!(t.csrf, "CSRF:1234");
        }
        other => panic!("{:?}", other),
    }
    assert!(matches!(api.get_ticket(600_999), TicketPlan::Reuse(_)));
    match api.get_ticket(601_000) {
        TicketPlan::Probe(t) => assert_eq!(t, "PVE:watchdog@pve:ABCD"),
        other => panic!("{:?}", other),
    }
}

#[test]
fn failed_login_is_an_error_and_caches_nothing() {
    let mut api = Api::from_config(&auth());
    assert_eq!(api.login_answered(5, None).unwrap_err(), ApiError::Transport);
    assert_eq!(
        api.login_answered(5, Some(&answer(401, LOGIN_BODY))).unwrap_err(),
        ApiError::Status(401)
    );
    assert_eq!(
        api.login_answered(5, Some(&answer(302, LOGIN_BODY))).unwrap_err(),
        ApiError::Status(302)
    );
    assert_eq!(
        api.login_answered(5, Some(&answer(200, "not json"))).unwrap_err(),
        ApiError::Malformed
    );
    assert_eq!(
        api.login_answered(5, Some(&answer(200, r#"{"data":{"ticket":"T"}}"#))).unwrap_err(),
        ApiError::Malformed
    );
    assert_eq!(
        api.login_answered(5, Some(&answer(200, r#"{"data":{"ticket":7,"CSRFPreventionToken":"C"}}"#)))
            .unwrap_err(),
        ApiError::Malformed
    );
    assert!(matches!(api.get_ticket(5), TicketPlan::Authenticate));
}

#[test]
fn probe_refreshes_the_ticket_for_a_minute() {
    let mut api = Api::from_config(&auth());
    api.login_answered(0, Some(&answer(200, LOGIN_BODY))).unwrap();
    assert!(matches!(api.get_ticket(700_000), TicketPlan::Probe(_)));
    let t = api.probe_answered(700_000, Some(200)).unwrap();
    assert_eq!(t.ticket, "PVE:watchdog@pve:ABCD");
    assert_eq!(t.csrf, "CSRF:1234");
    assert!(matches!(api.get_ticket(759_999), TicketPlan::Reuse(_)));
    assert!(matches!(api.get_ticket(760_000), TicketPlan::Probe(_)));
}

#[test]
fn failed_probe_leads_to_a_login() {
    let mut api = Api::from_config(&auth());
    api.login_answered(0, Some(&answer(200, LOGIN_BODY))).unwrap();
    assert!(api.probe_answered(700_000, None).is_none());
    assert!(api.probe_answered(700_000, Some(401)).is_none());
    assert!(api.probe_answered(700_000, Some(199)).is_none());
    assert!(api.probe_answered(700_000, Some(300)).is_none());
    assert!(matches!(api.get_ticket(700_001), TicketPlan::Probe(_)));
    let mut fresh = Api::from_config(&auth());
    assert!(fresh.probe_answered(10, Some(200)).is_none());
    assert!(matches!(fresh.get_ticket(11), TicketPlan::Authenticate));
}

#[test]
fn requests_carry_the_ticket() {
    let api = Api::from_config(&auth());
    let r = api.ticketed_request(Method::Get, "/version", &ticket());
    assert_eq!(r.method, Method::Get);
    assert_eq!(r.url, "https://pve.example:8006/api2/json/version");
    assert_eq!(r.bearer, "PVEAuthCookie=PVE:watchdog@pve:ABCD");
    assert_eq!(r.csrf, "CSRF:1234");
}

#[test]
fn machine_requests_go_to_their_paths() {
    let api = Api::from_config(&auth());
    let base = "https://pve.example:8006/api2/json/nodes/pve1/qemu/101";
    let r = api.ping_guest_agent(&vm(), &ticket());
    assert_eq!((r.method, r.url), (Method::Post, format!("{}/agent/ping", base)));
    let r = api.get_is_machine_running(&vm(), &ticket());
    assert_eq!((r.method, r.url), (Method::Get, format!("{}/status/current", base)));
    let r = api.reset_vm(&vm(), &ticket());
    assert_eq!((r.method, r.url), (Method::Post, format!("{}/status/reset", base)));
    assert_eq!(r.bearer, "PVEAuthCookie=PVE:watchdog@pve:ABCD");
    let r = api.guest_agent_read_file(&vm(), "/tmp/watchdog_reset_after", &ticket());
    assert_eq!(
        (r.request.method, r.request.url),
        (Method::Get, format!("{}/agent/file-read", base))
    );
    assert_eq!(r.file, "/tmp/watchdog_reset_after");
}

#[test]
fn written_content_goes_out_in_base64() {
    let api = Api::from_config(&auth());
    let w = api.guest_agent_write_file(
        &vm(),
        "/tmp/watchdog_current_unix_time",
        b"1700000000",
        &ticket(),
    );
    assert_eq!(w.request.method, Method::Post);
    assert_eq!(
        w.request.url,
        "https://pve.example:8006/api2/json/nodes/pve1/qemu/101/agent/file-write"
    );
    assert_eq!(w.file, "/tmp/watchdog_current_unix_time");
    assert_eq!(w.content, "MTcwMDAwMDAwMA==");
    assert!(!w.encode);
    let w = api.guest_agent_write_file(&vm(), "/x", b"", &ticket());
    assert_eq!(w.content, "");
    let w = api.guest_agent_write_file(&vm(), "/x", &[0xfb, 0xff, 0xfe], &ticket());
    assert_eq!(w.content, "+//+");
}

#[test]
fn status_decides_simple_calls() {
    assert_eq!(check_status(None), Err(ApiError::Transport));
    assert_eq!(check_status(Some(&answer(200, ""))), Ok(()));
    assert_eq!(check_status(Some(&answer(204, ""))), Ok(()));
    assert_eq!(check_status(Some(&answer(302, ""))), Ok(()));
    assert_eq!(check_status(Some(&answer(399, ""))), Ok(()));
    assert_eq!(check_status(Some(&answer(400, ""))), Err(ApiError::Status(400)));
    assert_eq!(check_status(Some(&answer(500, ""))), Err(ApiError::Status(500)));
    assert_eq!(check_status(Some(&answer(599, ""))), Err(ApiError::Status(599)));
    assert_eq!(check_status(Some(&answer(600, ""))), Ok(()));
}

#[test]
fn file_content_is_taken_from_the_body() {
    let body = r#"{"data":{"content":"1700000300\n","bytes-read":11}}"#;
    assert_eq!(file_content(Some(&answer(200, body))), Ok("1700000300\n".to_string()));
    assert_eq!(file_content(Some(&answer(500, body))), Err(ApiError::Status(500)));
    assert_eq!(file_content(None), Err(ApiError::Transport));
    assert_eq!(file_content(Some(&answer(200, "{}"))), Err(ApiError::Malformed));
    assert_eq!(file_content(Some(&answer(200, r#"{"data":null}"#))), Err(ApiError::Malformed));
    assert_eq!(
        file_content(Some(&answer(200, r#"{"data":{"content":12}}"#))),
        Err(ApiError::Malformed)
    );
    assert_eq!(file_content(Some(&answer(200, "<html>"))), Err(ApiError::Malformed));
    assert_eq!(file_content(Some(&answer(200, ""))), Err(ApiError::Malformed));
}

#[test]
fn running_state_is_taken_from_the_body() {
    let running = r#"{"data":{"status":"running","vmid":101}}"#;
    let stopped = r#"{"data":{"status":"stopped","vmid":101}}"#;
    assert_eq!(machine_is_running(Some(&answer(200, running))), Ok(true));
    assert_eq!(machine_is_running(Some(&answer(200, stopped))), Ok(false));
    assert_eq!(machine_is_running(Some(&answer(403, running))), Err(ApiError::Status(403)));
    assert_eq!(machine_is_running(None), Err(ApiError::Transport));
    assert_eq!(
        machine_is_running(Some(&answer(200, r#"{"data":{}}"#))),
        Err(ApiError::Malformed)
    );
    assert!(state_is_running("running"));
    assert!(!state_is_running("Running"));
    assert!(!state_is_running("running "));
    assert!(!state_is_running(""));
}

#[test]
fn members_of_answers() {
    assert_eq!(data_member(200, Some("x".to_string())), Ok("x".to_string()));
    assert_eq!(data_member(200, None), Err(ApiError::Malformed));
    assert_eq!(data_member(404, Some("x".to_string())), Err(ApiError::Status(404)));
    assert_eq!(data_member(404, None), Err(ApiError::Status(404)));
}

#[test]
fn ticket_needs_both_parts() {
    let t = ticket_of(Some("T".to_string()), Some("C".to_string())).unwrap();
    assert_eq!((t.ticket.as_str(), t.csrf.as_str()), ("T", "C"));
    assert!(ticket_of(Some("T".to_string()), None).is_none());
    assert!(ticket_of(None, Some("C".to_string())).is_none());
    assert!(ticket_of(None, None).is_none());
    let copy = t.duplicate();
    assert_eq!((copy.ticket.as_str(), copy.csrf.as_str()), ("T", "C"));
}
