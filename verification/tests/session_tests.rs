use technitium_webhook::app::AppState;
use technitium_webhook::bootstrap::{
    bootstrap_step, default_zone_payload, zone_in_page, zone_listing_payload, BootstrapStep,
};
use technitium_webhook::config::{Config, SessionMode};
use technitium_webhook::session::{
    next_renewal_delay, renewal_step, setup_start, setup_step, SetupAction, SetupEvent, SetupPhase,
    RENEWAL_INTERVAL_SECS, RENEWAL_RETRY_SECS,
};
use technitium_webhook::technitium::client::{TechnitiumClient, TechnitiumError};
use technitium_webhook::technitium::models::{
    ListZonesResponse, LoginResponse, Protocol, ZoneInfo, ZoneType,
};

fn fresh_state(password: Option<&str>, token: Option<&str>) -> AppState {
    AppState {
        config: Config {
            technitium_url: "http://dns.internal:5380".to_string(),
            technitium_username: "admin".to_string(),
            technitium_password: password.map(|p| p.to_string()),
            technitium_token: token.map(|t| t.to_string()),
            zone: "example.com".to_string(),
            ..Default::default()
        },
        is_ready: false,
        client: TechnitiumClient::new(
            "http://dns.internal:5380".to_string(),
            String::new(),
            10,
        ),
        use_static_token: false,
    }
}

fn zone_page(names: &[&str], page_number: u32, total_pages: u32) -> ListZonesResponse {
    ListZonesResponse {
        page_number,
        total_pages,
        total_zones: names.len() as u32,
        zones: names
            .iter()
            .map(|n| ZoneInfo {
                name: n.to_string(),
                zone_type: ZoneType::Primary,
                internal: Some(false),
                disabled: false,
            })
            .collect(),
    }
}

fn login_ok(token: &str) -> Result<LoginResponse, TechnitiumError> {
    Ok(LoginResponse {
        display_name: "Administrator".to_string(),
        username: "admin".to_string(),
        token: token.to_string(),
    })
}

#[test]
fn renewal_success_schedules_the_long_interval() {
    let mut state = fresh_state(Some("password123"), None);
    let delay = renewal_step(&mut state, login_ok("fresh_token"));
    assert_eq!(delay, RENEWAL_INTERVAL_SECS);
    assert_eq!(delay, 1200);
    assert_eq!(state.client.token, "fresh_token");
    assert_eq!(state.client.base_url, "http://dns.internal:5380");
}

#[test]
fn renewal_failure_schedules_the_short_retry() {
    let mut state = fresh_state(Some("password123"), None);
    state.client = TechnitiumClient::new(
        "http://dns.internal:5380".to_string(),
        "old_token".to_string(),
        10,
    );
    let delay = renewal_step(
        &mut state,
        Err(TechnitiumError::RequestError("timed out".to_string())),
    );
    assert_eq!(delay, RENEWAL_RETRY_SECS);
    assert_eq!(delay, 60);
    assert_eq!(state.client.token, "old_token");
}

#[test]
fn renewal_delays_follow_the_two_state_backoff() {
    assert_eq!(next_renewal_delay(true), RENEWAL_INTERVAL_SECS);
    assert_eq!(next_renewal_delay(false), RENEWAL_RETRY_SECS);
}

#[test]
fn bootstrap_stops_on_the_page_that_lists_the_zone() {
    // Three pages; the managed zone appears on page two.
    let page1 = zone_page(&["alpha.org", "beta.org"], 1, 3);
    let page2 = zone_page(&["example.com", "gamma.org"], 2, 3);

    let mut create_zone_issued = false;
    let mut pages_asked = vec![1u32];
    let mut step = bootstrap_step("example.com", 1, &page1);
    loop {
        match step {
            BootstrapStep::Found => break,
            BootstrapStep::NextPage(n) => {
                pages_asked.push(n);
                assert_eq!(n, 2);
                step = bootstrap_step("example.com", n, &page2);
            }
            BootstrapStep::CreateZone => {
                create_zone_issued = true;
                break;
            }
        }
    }
    assert!(!create_zone_issued);
    assert_eq!(pages_asked, vec![1, 2]);
}

#[test]
fn bootstrap_creates_the_zone_only_after_the_last_page() {
    let page = zone_page(&["alpha.org"], 1, 2);
    assert_eq!(
        bootstrap_step("example.com", 1, &page),
        BootstrapStep::NextPage(2)
    );
    let last = zone_page(&["beta.org"], 2, 2);
    assert_eq!(
        bootstrap_step("example.com", 2, &last),
        BootstrapStep::CreateZone
    );
}

#[test]
fn zone_scan_matches_exact_names() {
    let page = zone_page(&["example.com.br", "example.com"], 1, 1);
    assert!(zone_in_page(&page.zones, "example.com"));
    assert!(!zone_in_page(&page.zones, "example.org"));
}

#[test]
fn zone_listing_payload_uses_the_fixed_page_size() {
    let p = zone_listing_payload("example.com".to_string(), 3);
    assert_eq!(p.zone, "example.com");
    assert_eq!(p.page_number, Some(3));
    assert_eq!(p.zones_per_page, Some(100));
}

#[test]
fn created_zone_is_a_forwarder_with_dnssec() {
    let p = default_zone_payload("example.com".to_string());
    assert_eq!(p.zone, "example.com");
    assert_eq!(p.zone_type, ZoneType::Forwarder);
    assert_eq!(p.protocol, Some(Protocol::Udp));
    assert_eq!(p.forwarder, Some("this-server".to_string()));
    assert_eq!(p.dnssec_validation, Some(true));
}

#[test]
fn startup_logs_in_then_bootstraps_then_serves() {
    let mut state = fresh_state(Some("password123"), None);
    let (phase, action) = setup_start(&mut state);
    assert_eq!(phase, SetupPhase::Authenticating);
    assert_eq!(action, SetupAction::SendLogin);
    assert!(!state.is_ready);

    let (phase, action) = setup_step(&mut state, phase, SetupEvent::LoginResult(login_ok("t1")));
    assert_eq!(phase, SetupPhase::ListingZones(1));
    assert_eq!(action, SetupAction::RequestZonePage(1));
    assert_eq!(state.client.token, "t1");
    assert!(!state.is_ready);

    let page = zone_page(&["example.com"], 1, 1);
    let (phase, action) = setup_step(&mut state, phase, SetupEvent::ZonePage(Ok(page)));
    assert_eq!(phase, SetupPhase::Ready);
    assert_eq!(action, SetupAction::ServeTraffic);
    assert!(state.is_ready);
}

#[test]
fn startup_aborts_when_the_first_login_fails() {
    let mut state = fresh_state(Some("password123"), None);
    let (phase, _) = setup_start(&mut state);
    let (phase, action) = setup_step(
        &mut state,
        phase,
        SetupEvent::LoginResult(Err(TechnitiumError::InvalidToken)),
    );
    assert_eq!(phase, SetupPhase::Failed);
    assert_eq!(action, SetupAction::Abort);
    assert!(!state.is_ready);
}

#[test]
fn startup_creates_the_missing_zone_before_serving() {
    let mut state = fresh_state(Some("password123"), None);
    let (phase, _) = setup_start(&mut state);
    let (phase, _) = setup_step(&mut state, phase, SetupEvent::LoginResult(login_ok("t1")));
    let page = zone_page(&["other.org"], 1, 1);
    let (phase, action) = setup_step(&mut state, phase, SetupEvent::ZonePage(Ok(page)));
    assert_eq!(phase, SetupPhase::CreatingZone);
    assert_eq!(action, SetupAction::SendCreateZone);
    assert!(!state.is_ready);

    let created = technitium_webhook::technitium::models::CreateZoneResponse {
        domain: "example.com".to_string(),
    };
    let (phase, action) = setup_step(&mut state, phase, SetupEvent::ZoneCreated(Ok(created)));
    assert_eq!(phase, SetupPhase::Ready);
    assert_eq!(action, SetupAction::ServeTraffic);
    assert!(state.is_ready);
}

#[test]
fn a_static_token_skips_login_and_renewal_setup() {
    let mut state = fresh_state(None, Some("pre_issued"));
    let (phase, action) = setup_start(&mut state);
    assert_eq!(phase, SetupPhase::ListingZones(1));
    assert_eq!(action, SetupAction::RequestZonePage(1));
    assert!(state.use_static_token);
    assert_eq!(state.client.token, "pre_issued");
}

#[test]
fn a_configuration_with_no_credentials_aborts() {
    let mut state = fresh_state(None, None);
    let (phase, action) = setup_start(&mut state);
    assert_eq!(phase, SetupPhase::Failed);
    assert_eq!(action, SetupAction::Abort);
}

#[test]
fn session_mode_prefers_the_static_token() {
    let with_token = fresh_state(Some("password123"), Some("pre_issued"));
    assert_eq!(
        with_token.config.session_mode(),
        Some(SessionMode::StaticToken("pre_issued".to_string()))
    );

    let with_password = fresh_state(Some("password123"), None);
    match with_password.config.session_mode() {
        Some(SessionMode::PasswordLogin(lp)) => {
            assert_eq!(lp.username, "admin");
            assert_eq!(lp.password, "password123");
        }
        other => panic!("expected a password login, got {:?}", other),
    }

    let with_neither = fresh_state(None, None);
    assert_eq!(with_neither.config.session_mode(), None);
}

#[test]
fn config_defaults_and_address() {
    let config = Config::default();
    assert_eq!(config.listen_address, "0.0.0.0");
    assert_eq!(config.listen_port, "3000");
    assert_eq!(config.address(), "0.0.0.0:3000");
}
