use token_hub::agent::frpc::{FrpcConfig, TunnelMode};
use token_hub::agent::supervise::{
    supervise_start, supervise_step, SupervisorAction, SupervisorEvent, SupervisorState, RESTART_BACKOFF_SECS,
};
use token_hub::agent::tun::{TunOpen, TunState, TunToggled};

fn test_config(mode: TunnelMode) -> FrpcConfig {
    FrpcConfig {
        server: "frp.alius.tech".to_string(),
        port: 7000,
        token: Some("test".to_string()),
        subdomain_host: "tun.alius.tech".to_string(),
        local_addr: "127.0.0.1".to_string(),
        local_port: 8081,
        frpc_binary: "echo".to_string(),
        mode,
    }
}

#[test]
fn status_initially_inactive() {
    let state = TunState::new();
    let status = state.status(&test_config(TunnelMode::HttpSubdomain));
    assert!(!status.active);
    assert!(status.service_id.is_none());
}

#[test]
fn open_generates_service_id() {
    let cfg = test_config(TunnelMode::HttpSubdomain);
    let mut state = TunState::new();
    let started = state.open();
    assert!(matches!(started, TunOpen::Start(_)));
    let status = state.status(&cfg);
    assert!(status.active);
    assert!(status.service_id.is_some());
    let sid = status.service_id.clone().unwrap();
    assert_eq!(sid.len(), 6);
    assert!(sid.chars().all(|c| c.is_ascii_lowercase() || c.is_ascii_digit()));
    assert!(status.url.as_ref().unwrap().ends_with(".tun.alius.tech"));
    assert_eq!(status.url.unwrap(), format!("{sid}.tun.alius.tech"));
    assert_eq!(status.mode, "http_subdomain");
    state.close();
}

#[test]
fn tcp_mode_url_format() {
    let cfg = test_config(TunnelMode::Tcp { remote_port: 6001 });
    let mut state = TunState::new();
    state.open();
    let status = state.status(&cfg);
    assert!(status.url.as_ref().unwrap().contains(":6001"));
    assert_eq!(status.url.unwrap(), "frp.alius.tech:6001");
    assert_eq!(status.mode, "tcp");
    state.close();
}

#[test]
fn close_sets_inactive() {
    let cfg = test_config(TunnelMode::HttpSubdomain);
    let mut state = TunState::new();
    state.open();
    assert!(state.status(&cfg).active);
    assert!(state.close());
    assert!(!state.status(&cfg).active);
    assert!(!state.close());
}

#[test]
fn open_idempotent() {
    let cfg = test_config(TunnelMode::HttpSubdomain);
    let mut state = TunState::new();
    state.open();
    let s1 = state.status(&cfg);
    assert!(matches!(state.open(), TunOpen::AlreadyOpen));
    let s2 = state.status(&cfg);
    assert_eq!(s1.service_id, s2.service_id);
    state.close();
}

#[test]
fn supervisor_restarts_after_backoff_and_stops_on_shutdown() {
    let (s, a) = supervise_start();
    assert_eq!((s, a), (SupervisorState::Starting, SupervisorAction::Start));
    let (s, a) = supervise_step(s, SupervisorEvent::Started);
    assert_eq!((s, a), (SupervisorState::Running, SupervisorAction::Watch));
    let (s, a) = supervise_step(s, SupervisorEvent::Exited);
    assert_eq!((s, a), (SupervisorState::BackingOff, SupervisorAction::Pause(RESTART_BACKOFF_SECS)));
    let (s, a) = supervise_step(s, SupervisorEvent::BackoffElapsed);
    assert_eq!((s, a), (SupervisorState::Starting, SupervisorAction::Start));
    let (s, a) = supervise_step(s, SupervisorEvent::StartFailed);
    assert_eq!((s, a), (SupervisorState::BackingOff, SupervisorAction::Pause(5)));
    let (s, a) = supervise_step(s, SupervisorEvent::Shutdown);
    assert_eq!((s, a), (SupervisorState::Stopped, SupervisorAction::Stop));
}

#[test]
fn supervisor_kills_a_running_process_on_shutdown() {
    let (s, _) = supervise_step(SupervisorState::Starting, SupervisorEvent::Started);
    assert_eq!(supervise_step(s, SupervisorEvent::Shutdown), (SupervisorState::Stopped, SupervisorAction::KillAndStop));
}

#[test]
fn toggle_flips_the_tunnel() {
    let mut st = TunState::new();
    match st.toggle() {
        TunToggled::Opened(sid) => assert_eq!(sid.len(), 6),
        TunToggled::Closed(_) => panic!("a closed tunnel must open"),
    }
    match st.toggle() {
        TunToggled::Closed(stop) => assert!(stop),
        TunToggled::Opened(_) => panic!("an open tunnel must close"),
    }
}
