use dyndns::config::{ConfigError, EnvVar, Environment};
use dyndns::metrics::gauge_sample;
use dyndns::run::{needs_update, start, step, Action, Event, RunError, State};

fn env(provider: &str, host: Option<&str>, gateway: Option<&str>) -> Environment {
    Environment {
        provider: Some(String::from(provider)),
        host_name: host.map(String::from),
        hosted_zone_id: Some(String::from("Z123")),
        assume_role_arn: None,
        cloudflare_zone_identifier: None,
        cloudflare_identifier: None,
        cloudflare_token: None,
        push_gateway_host: gateway.map(String::from),
    }
}

fn fetched(body: &str) -> Event {
    Event::ExternalIpFetched(Ok(String::from(body)))
}

fn resolved(addrs: &[&str]) -> Event {
    Event::HostResolved(Ok(addrs.iter().map(|a| String::from(*a)).collect()))
}

#[test]
fn comparison_is_on_text() {
    assert!(!needs_update(&String::from("203.0.113.5"), &String::from("203.0.113.5")));
    assert!(needs_update(&String::from("203.0.113.5"), &String::from("203.0.113.4")));
    assert!(needs_update(&String::from("203.0.113.5"), &String::from("203.000.113.5")));
}

#[test]
fn missing_host_name_stops_before_any_network_call() {
    let (config, state, action) = start(env("route53", None, None));
    assert!(config.is_none());
    assert!(matches!(state, State::Finished));
    assert!(matches!(
        action,
        Action::Exit(Err(RunError::Config(ConfigError::Missing(EnvVar::HostName))))
    ));
}

#[test]
fn fetch_failure_is_a_transport_error() {
    let (config, state, action) = start(env("route53", Some("home.example.com"), None));
    assert!(matches!(action, Action::FetchExternalIp));
    let config = config.unwrap();
    let ev = Event::ExternalIpFetched(Err(String::from("HTTP status server error (500)")));
    assert!(state.accepts(&ev));
    let (state, action) = step(&config, state, ev);
    assert!(matches!(state, State::Finished));
    match action {
        Action::Exit(Err(RunError::Transport(m))) => assert!(m.contains("500")),
        _ => panic!("expected a transport error"),
    }
}

#[test]
fn no_address_is_its_own_error() {
    let (config, state, _) = start(env("route53", Some("home.example.com"), None));
    let config = config.unwrap();
    let (state, action) = step(&config, state, fetched("203.0.113.5\n"));
    match action {
        Action::ResolveHost { host_name, port } => {
            assert_eq!(host_name, "home.example.com");
            assert_eq!(port, 80);
        }
        _ => panic!("expected a lookup"),
    }
    let (state, action) = step(&config, state, resolved(&[]));
    assert!(matches!(state, State::Finished));
    match action {
        Action::Exit(Err(RunError::NoAddress(h))) => assert_eq!(h, "home.example.com"),
        _ => panic!("expected no address"),
    }
}

#[test]
fn lookup_failure_is_reported() {
    let (config, state, _) = start(env("route53", Some("home.example.com"), None));
    let config = config.unwrap();
    let (state, _) = step(&config, state, fetched("203.0.113.5"));
    let (_, action) = step(&config, state, Event::HostResolved(Err(String::from("nxdomain"))));
    assert!(matches!(action, Action::Exit(Err(RunError::LookupFailed(_)))));
}

#[test]
fn unchanged_address_makes_no_update() {
    let (config, state, _) = start(env("route53", Some("home.example.com"), None));
    let config = config.unwrap();
    let (state, _) = step(&config, state, fetched(" 203.0.113.5\n"));
    let (state, action) = step(&config, state, resolved(&["203.0.113.5"]));
    assert!(matches!(state, State::Finished));
    assert!(matches!(action, Action::Exit(Ok(()))));
}

#[test]
fn unchanged_address_still_reports() {
    let (config, state, _) =
        start(env("route53", Some("home.example.com"), Some("http://gw:9091")));
    let config = config.unwrap();
    let (state, _) = step(&config, state, fetched("203.0.113.5"));
    let (state, action) = step(&config, state, resolved(&["203.0.113.5"]));
    assert!(matches!(state, State::Reporting));
    assert!(matches!(action, Action::PushMetrics { .. }));
    let (_, action) = step(&config, state, Event::MetricsPushed(Ok(())));
    assert!(matches!(action, Action::Exit(Ok(()))));
}

#[test]
fn changed_address_updates_then_reports() {
    let (config, state, _) =
        start(env("route53", Some("home.example.com"), Some("http://gw:9091")));
    let config = config.unwrap();
    let (state, _) = step(&config, state, fetched("203.0.113.5\n"));
    let (state, action) = step(&config, state, resolved(&["203.0.113.4"]));
    assert!(matches!(state, State::Updating));
    match action {
        Action::Update { host_name, record_value } => {
            assert_eq!(host_name, "home.example.com");
            assert_eq!(record_value, "203.0.113.5");
        }
        _ => panic!("expected an update"),
    }
    let ev = Event::Updated(Ok(()));
    assert!(state.accepts(&ev));
    assert!(!State::Updating.accepts(&fetched("1.2.3.4")));
    let (state, action) = step(&config, state, ev);
    assert!(matches!(state, State::Reporting));
    match action {
        Action::PushMetrics { url } => {
            assert_eq!(url, "http://gw:9091/metrics/job/dyndns_route53")
        }
        _ => panic!("expected a metrics push"),
    }
    assert!(gauge_sample(1700000000)
        .contains("last_successful_execution_timestamp_seconds 1700000000"));
    let (state, action) =
        step(&config, state, Event::MetricsPushed(Err(String::from("refused"))));
    assert!(matches!(state, State::Finished));
    assert!(matches!(action, Action::Exit(Err(RunError::Metrics(_)))));
}
