use std::path::PathBuf;

use async_wsocket::native::tor::{
    ClientCell, Error, ForwardRule, OnionServicePlan, ServiceEvent, ServiceState, Turn,
};
use async_wsocket::SocketAddress;

fn local() -> SocketAddress {
    SocketAddress::v4(127, 0, 0, 1, 8080)
}

#[test]
fn first_caller_initialises_and_the_second_waits() {
    let mut cell: ClientCell<u32, String> = ClientCell::new();
    assert!(cell.outcome().is_none());
    assert_eq!(cell.request(), Turn::Init);
    assert_eq!(cell.request(), Turn::Wait);
    assert_eq!(cell.request(), Turn::Wait);
    assert!(cell.outcome().is_none());
}

#[test]
fn two_racing_callers_share_one_client() {
    let mut cell: ClientCell<u32, String> = ClientCell::new();
    let first = cell.request();
    let second = cell.request();
    assert_eq!((first, second), (Turn::Init, Turn::Wait));
    assert!(cell.publish(Ok(7)));
    assert_eq!(cell.request(), Turn::Done);
    assert_eq!(cell.outcome(), Some(Ok(&7)));
    assert_eq!(cell.request(), Turn::Done);
    assert_eq!(cell.outcome(), Some(Ok(&7)));
}

#[test]
fn failed_initialisation_is_replayed_and_never_retried() {
    let mut cell: ClientCell<u32, String> = ClientCell::new();
    assert_eq!(cell.request(), Turn::Init);
    assert!(cell.publish(Err("bootstrap failed".to_string())));
    for _ in 0..3 {
        assert_eq!(cell.request(), Turn::Done);
        assert_eq!(cell.outcome(), Some(Err(&"bootstrap failed".to_string())));
    }
}

#[test]
fn only_the_first_publication_is_taken() {
    let mut cell: ClientCell<u32, String> = ClientCell::new();
    assert!(!cell.publish(Ok(1)));
    assert!(cell.outcome().is_none());
    assert_eq!(cell.request(), Turn::Init);
    assert!(cell.publish(Ok(2)));
    assert!(!cell.publish(Ok(3)));
    assert!(!cell.publish(Err("late".to_string())));
    assert_eq!(cell.outcome(), Some(Ok(&2)));
}

#[test]
fn many_requests_give_exactly_one_init() {
    let mut cell: ClientCell<u8, u8> = ClientCell::new();
    let mut inits = 0;
    for i in 0..20 {
        if cell.request() == Turn::Init {
            inits += 1;
        }
        if i == 11 {
            cell.publish(Err(9));
        }
    }
    assert_eq!(inits, 1);
    assert_eq!(cell.outcome(), Some(Err(&9)));
}

#[test]
fn plan_of_a_valid_service() {
    let plan = OnionServicePlan::new(
        "my-service".to_string(),
        local(),
        80,
        Some(PathBuf::from("/var/tor")),
        Ok(()),
        Ok(()),
    )
    .unwrap();
    assert_eq!(plan.nickname(), "my-service");
    assert_eq!(
        plan.rule(),
        ForwardRule {
            port: 80,
            target: local()
        }
    );
    assert_eq!(plan.custom_path(), Some(&PathBuf::from("/var/tor")));
}

#[test]
fn plan_without_custom_path() {
    let plan =
        OnionServicePlan::new("relay".to_string(), local(), 443, None, Ok(()), Ok(())).unwrap();
    assert_eq!(plan.custom_path(), None);
    assert_eq!(plan.rule().port, 443);
}

#[test]
fn refused_port_is_a_proxy_config_error() {
    let r = OnionServicePlan::new(
        "relay".to_string(),
        local(),
        0,
        None,
        Err("port zero".to_string()),
        Ok(()),
    );
    assert_eq!(r.unwrap_err(), Error::ProxyConfig("port zero".to_string()));
}

#[test]
fn refused_nickname_is_an_invalid_nickname_error() {
    let r = OnionServicePlan::new(
        "not a nickname".to_string(),
        local(),
        80,
        None,
        Ok(()),
        Err("bad character".to_string()),
    );
    assert_eq!(r.unwrap_err(), Error::InvalidNickname("bad character".to_string()));
}

#[test]
fn refused_port_is_reported_before_a_refused_nickname() {
    let r = OnionServicePlan::new(
        "not a nickname".to_string(),
        local(),
        0,
        None,
        Err("port zero".to_string()),
        Err("bad character".to_string()),
    );
    assert_eq!(r.unwrap_err(), Error::ProxyConfig("port zero".to_string()));
}

#[test]
fn launched_service_is_running() {
    let state = ServiceState::launched();
    assert_eq!(state, ServiceState::Running);
    assert!(state.is_running());
    assert_eq!(state.failure(), None);
}

#[test]
fn dropped_handle_stops_the_service() {
    let state = ServiceState::launched().on_event(ServiceEvent::HandleDropped);
    assert_eq!(state, ServiceState::Stopped);
    assert!(!state.is_running());
    assert_eq!(state.failure(), None);
}

#[test]
fn task_that_returns_stops_the_service() {
    let state = ServiceState::launched().on_event(ServiceEvent::TaskEnded(Ok(())));
    assert_eq!(state, ServiceState::Stopped);
}

#[test]
fn task_failure_stays_observable() {
    let failed = ServiceState::launched()
        .on_event(ServiceEvent::TaskEnded(Err("circuit closed".to_string())));
    assert_eq!(failed, ServiceState::Failed("circuit closed".to_string()));
    assert_eq!(failed.failure(), Some("circuit closed"));
    let later = failed
        .on_event(ServiceEvent::HandleDropped)
        .on_event(ServiceEvent::TaskEnded(Ok(())))
        .on_event(ServiceEvent::TaskEnded(Err("other".to_string())));
    assert_eq!(later, ServiceState::Failed("circuit closed".to_string()));
    assert!(!later.is_running());
}

#[test]
fn stopped_service_does_not_fail_later() {
    let state = ServiceState::launched()
        .on_event(ServiceEvent::HandleDropped)
        .on_event(ServiceEvent::TaskEnded(Err("late".to_string())));
    assert_eq!(state, ServiceState::Stopped);
}
