use auth_gateway::auth::auth_endpoint_url;
use auth_gateway::auth::auth_post_body;
use auth_gateway::auth::build_auth_request;
use auth_gateway::auth::conclude;
use auth_gateway::auth::decision_content;
use auth_gateway::auth::plan_dispatch;
use auth_gateway::auth::AuthInputError;
use auth_gateway::auth::AuthOutcome;
use auth_gateway::auth::DispatchPlan;
use auth_gateway::liveset::initial_live_set;
use auth_gateway::liveset::LiveSetRegistry;
use auth_gateway::monitoring::classify_probe;
use auth_gateway::monitoring::compute_live_set;
use auth_gateway::monitoring::monitor_step;
use auth_gateway::monitoring::MonitorAction;
use auth_gateway::monitoring::MonitorEvent;
use auth_gateway::monitoring::MonitorState;
use auth_gateway::monitoring::ProbeClass;
use auth_gateway::monitoring::ProbeResult;
use auth_gateway::pconfig::validate_config;
use auth_gateway::pconfig::AuthService;
use auth_gateway::pconfig::PluginConfig;
use auth_gateway::radius::ccd_file_path;
use auth_gateway::radius::provisioning_content;
use auth_gateway::radius::provisioning_plan;
use auth_gateway::radius::RadiusResponseOpts;
use auth_gateway::EventReply;
use auth_gateway::Handle;
use auth_gateway::HostEvent;

fn service(name: &str) -> AuthService {
    AuthService {
        name: name.to_string(),
        url: format!("http://{}.example", name),
        api_key: "k".to_string(),
        monitoring_path: Some("/status".to_string()),
        monitoring_api_key: Some("mk".to_string()),
    }
}

fn config(services: Vec<AuthService>, monitoring: bool) -> PluginConfig {
    PluginConfig {
        verify_cert: false,
        auth_service: services,
        connect_timeout_sec: 5,
        response_timeout_sec: 10,
        monitoring_enable: monitoring,
        check_interval_sec: if monitoring { Some(30) } else { None },
    }
}

#[test]
fn selection_picks_first_live_index_in_bounds() {
    let live = vec![2usize, 0, 1];
    match plan_dispatch(&live) {
        DispatchPlan::Call { idx } => {
            assert_eq!(idx, 2);
            assert!(idx < 3);
        }
        DispatchPlan::Deny => panic!("non-empty snapshot must select a backend"),
    }
}

#[test]
fn empty_snapshot_denies_without_any_call() {
    let live: Vec<usize> = vec![];
    assert_eq!(plan_dispatch(&live), DispatchPlan::Deny);
}

#[test]
fn registry_starts_with_all_indices() {
    let reg = LiveSetRegistry::new(3);
    assert_eq!(reg.snapshot(), vec![0usize, 1, 2]);
}

#[test]
fn registry_replace_swaps_whole_set() {
    let reg = LiveSetRegistry::new(3);
    reg.replace(vec![1usize]);
    assert_eq!(reg.snapshot(), vec![1usize]);
    reg.replace(vec![]);
    assert_eq!(reg.snapshot(), Vec::<usize>::new());
}

#[test]
fn initial_live_set_counts_up() {
    assert_eq!(initial_live_set(0), Vec::<usize>::new());
    assert_eq!(initial_live_set(4), vec![0usize, 1, 2, 3]);
}

#[test]
fn build_request_needs_every_field() {
    let ok = build_auth_request(
        Some("alice".to_string()),
        Some("pw".to_string()),
        Some("/tmp/acf".to_string()),
        Some("10.1.1.1".to_string()),
    )
    .unwrap();
    assert_eq!(ok.username, "alice");
    assert_eq!(ok.password, "pw");
    assert_eq!(ok.control_file, "/tmp/acf");
    assert_eq!(ok.client_ip, "10.1.1.1");

    let u = |s: &str| Some(s.to_string());
    assert_eq!(
        build_auth_request(None, u("p"), u("c"), u("i")).unwrap_err(),
        AuthInputError::MissingUsername
    );
    assert_eq!(
        build_auth_request(u("a"), None, u("c"), u("i")).unwrap_err(),
        AuthInputError::MissingPassword
    );
    assert_eq!(
        build_auth_request(u("a"), u("p"), None, u("i")).unwrap_err(),
        AuthInputError::MissingControlFile
    );
    assert_eq!(
        build_auth_request(u("a"), u("p"), u("c"), None).unwrap_err(),
        AuthInputError::MissingClientIp
    );
}

#[test]
fn auth_url_appends_route() {
    let url = auth_endpoint_url(&"https://backend.example:8443".to_string());
    assert_eq!(url, "https://backend.example:8443/auth");
}

#[test]
fn post_body_escapes_credentials() {
    let body = auth_post_body("user", "p\"w\\x", "10.0.0.1");
    assert_eq!(body, "{\"u\":\"user\",\"p\":\"p\\\"w\\\\x\",\"client_ip\":\"10.0.0.1\"}");
}

#[test]
fn post_body_escapes_control_characters() {
    let body = auth_post_body("a\nb", "c\u{1}d", "ip");
    assert_eq!(body, "{\"u\":\"a\\nb\",\"p\":\"c\\u0001d\",\"client_ip\":\"ip\"}");
}

#[test]
fn decision_content_is_single_character() {
    assert_eq!(decision_content(true), "1");
    assert_eq!(decision_content(false), "0");
}

#[test]
fn decision_rewrite_keeps_single_value() {
    // The control file is replaced wholesale on every write: two writes of
    // the same decision leave exactly what one write leaves, nothing
    // appended.
    let after_one = decision_content(true).to_string();
    let after_two = decision_content(true).to_string();
    assert_eq!(after_one, after_two);
    assert_eq!(after_two, "1");
    assert_eq!(after_two.len(), 1);
}

#[test]
fn provisioning_file_content_exact() {
    let content = provisioning_content(&"10.0.0.5".to_string(), &"255.255.255.0".to_string());
    assert_eq!(content, "topology subnet\nifconfig-push 10.0.0.5 255.255.255.0");
}

#[test]
fn ccd_path_inserts_separator_only_when_needed() {
    assert_eq!(
        ccd_file_path(&"/etc/ccd".to_string(), &"alice".to_string()),
        "/etc/ccd/alice"
    );
    assert_eq!(
        ccd_file_path(&"/etc/ccd/".to_string(), &"alice".to_string()),
        "/etc/ccd/alice"
    );
    assert_eq!(ccd_file_path(&"".to_string(), &"bob".to_string()), "/bob");
}

#[test]
fn provisioning_planned_only_with_both_attributes_and_ccd() {
    let full = RadiusResponseOpts {
        dns_servers: None,
        routes: None,
        ip: Some("10.0.0.5".to_string()),
        netmask: Some("255.255.255.0".to_string()),
    };
    let w = provisioning_plan(&full, &Some("/etc/ccd".to_string()), &"alice".to_string()).unwrap();
    assert_eq!(w.path, "/etc/ccd/alice");
    assert_eq!(w.content, "topology subnet\nifconfig-push 10.0.0.5 255.255.255.0");

    assert!(provisioning_plan(&full, &None, &"alice".to_string()).is_none());
    let no_mask = RadiusResponseOpts {
        dns_servers: None,
        routes: None,
        ip: Some("10.0.0.5".to_string()),
        netmask: None,
    };
    assert!(provisioning_plan(&no_mask, &Some("/etc/ccd".to_string()), &"a".to_string()).is_none());
}

#[test]
fn conclude_accepts_non_denied_outcomes() {
    let sink = conclude(&AuthOutcome::Denied, &None, &"u".to_string());
    assert!(!sink.accept);
    assert!(sink.provisioning.is_none());

    let sink = conclude(&AuthOutcome::AcceptedPlain, &Some("/ccd".to_string()), &"u".to_string());
    assert!(sink.accept);
    assert!(sink.provisioning.is_none());
}

#[test]
fn provisioning_failure_cannot_change_decision() {
    // The sink plan fixes the decision before any file is touched: the
    // accept bit is already true whether or not the provisioning write will
    // later succeed.
    let opts = RadiusResponseOpts {
        dns_servers: None,
        routes: None,
        ip: Some("10.0.0.5".to_string()),
        netmask: Some("255.255.255.0".to_string()),
    };
    let sink = conclude(
        &AuthOutcome::AcceptedWithAttributes(opts),
        &Some("/nonexistent/dir".to_string()),
        &"alice".to_string(),
    );
    assert!(sink.accept);
    assert!(sink.provisioning.is_some());
}

fn status_probe(status: u16, body: &str) -> ProbeResult {
    ProbeResult::Response {
        status,
        body: Some(body.to_string()),
    }
}

#[test]
fn monitor_cycle_excludes_degraded_backend() {
    let probes = vec![
        status_probe(200, "{\"status_id\": 0, \"status_text\": \"ok\"}"),
        status_probe(200, "{\"status_id\": 3, \"status_text\": \"degraded\"}"),
        status_probe(200, "{\"status_id\": 0, \"status_text\": \"ok\"}"),
    ];
    let classes: Vec<ProbeClass> = probes.iter().map(classify_probe).collect();
    assert_eq!(
        classes,
        vec![ProbeClass::Healthy, ProbeClass::Degraded, ProbeClass::Healthy]
    );
    assert_eq!(compute_live_set(&classes), vec![0usize, 2]);
}

#[test]
fn probe_classification_covers_every_failure() {
    assert_eq!(classify_probe(&ProbeResult::NoResponse), ProbeClass::Unreachable);
    assert_eq!(
        classify_probe(&status_probe(403, "{\"status_id\": 0, \"status_text\": \"x\"}")),
        ProbeClass::ConfigError
    );
    assert_eq!(
        classify_probe(&status_probe(404, "")),
        ProbeClass::ConfigError
    );
    assert_eq!(classify_probe(&status_probe(500, "")), ProbeClass::HttpExcluded);
    assert_eq!(classify_probe(&status_probe(200, "nonsense")), ProbeClass::DecodeFailed);
    assert_eq!(
        classify_probe(&ProbeResult::Response { status: 200, body: None }),
        ProbeClass::DecodeFailed
    );
    // Any status id other than the degraded sentinel counts as healthy.
    assert_eq!(
        classify_probe(&status_probe(204, "{\"status_id\": 7, \"status_text\": \"odd\"}")),
        ProbeClass::Healthy
    );
}

#[test]
fn cancellation_stops_monitor_without_probe_batch() {
    let (state, action) = monitor_step(MonitorEvent::Cancelled);
    assert_eq!(state, MonitorState::Stopped);
    assert_eq!(action, MonitorAction::Exit);
    assert_ne!(action, MonitorAction::ProbeBatch);
}

#[test]
fn interval_keeps_monitor_running() {
    let (state, action) = monitor_step(MonitorEvent::IntervalElapsed);
    assert_eq!(state, MonitorState::Running);
    assert_eq!(action, MonitorAction::ProbeBatch);
}

#[test]
fn config_validation_requires_monitoring_data() {
    let ok = config(vec![service("a"), service("b")], true);
    assert!(validate_config(&ok));

    let mut missing_key = service("a");
    missing_key.monitoring_api_key = None;
    let bad = config(vec![missing_key], true);
    assert!(!validate_config(&bad));

    let mut no_interval = config(vec![service("a")], true);
    no_interval.check_interval_sec = None;
    assert!(!validate_config(&no_interval));

    let mut off = config(vec![service("a")], false);
    off.auth_service[0].monitoring_api_key = None;
    assert!(validate_config(&off));
}

#[test]
fn handle_counts_connections_and_defers_auth() {
    let mut h = Handle {
        connections_counter: 0,
        config: config(vec![service("a")], false),
        ccd: None,
    };
    assert_eq!(h.handle_event(HostEvent::ClientConnect), EventReply::Success);
    assert_eq!(h.handle_event(HostEvent::ClientConnect), EventReply::Success);
    assert_eq!(h.connections_counter, 2);
    assert_eq!(h.handle_event(HostEvent::ClientDisconnect), EventReply::Success);
    assert_eq!(h.connections_counter, 1);
    assert_eq!(h.handle_event(HostEvent::AuthVerify), EventReply::DeferAuth);
    assert_eq!(h.connections_counter, 1);
    assert_eq!(h.handle_event(HostEvent::Other), EventReply::Success);
}
