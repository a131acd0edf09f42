use temperature_logger::wifi::{
    ap_channel, evaluate_status, mixed_configuration, select_channel, wait_decision,
    AccessPointInfo, ApIpStatus, ApLink, ApStatus, ClientConnectionStatus, ClientIpStatus,
    ClientLink, ClientStatus, DriverStatus, FailureReason, IpInfo, LinkAction, LinkError, LinkEvent,
    LinkHandle, LinkState, LinkStatus, ProbeSummary, WaitDecision, WifiManager,
    DEFAULT_AP_CHANNEL,
};

fn network(ssid: &str, channel: u8) -> AccessPointInfo {
    AccessPointInfo { ssid: ssid.to_string(), channel }
}

fn addresses() -> IpInfo {
    IpInfo { address: 0xC0A8_0117, gateway: 0xC0A8_0101 }
}

fn status(client: ClientLink, access_point: ApLink) -> LinkStatus {
    LinkStatus { client, access_point }
}

fn both_up() -> LinkStatus {
    status(ClientLink::Connected(addresses()), ApLink::Started)
}

fn answered() -> LinkEvent {
    LinkEvent::Probed(Some(ProbeSummary { transmitted: 5, received: 5 }))
}

fn lost_one() -> LinkEvent {
    LinkEvent::Probed(Some(ProbeSummary { transmitted: 5, received: 4 }))
}

fn manager() -> WifiManager {
    WifiManager::new("home-net".to_string(), "secret".to_string(), 20_000)
}

fn waiting(scan: Vec<AccessPointInfo>) -> WifiManager {
    let mut manager = manager();
    assert_eq!(manager.step(LinkEvent::Start), LinkAction::Scan);
    assert!(matches!(manager.step(LinkEvent::Scanned(scan)), LinkAction::Configure(_)));
    assert_eq!(manager.step(LinkEvent::Configured), LinkAction::AwaitStatus { at_most_ms: 20_000 });
    manager
}

#[test]
fn target_found_gives_its_channel_to_client_and_access_point() {
    let scan = vec![network("home-net", 6)];
    let ssid = "home-net".to_string();
    let channel = select_channel(&scan, &ssid);
    assert_eq!(channel, Some(6));
    assert_eq!(ap_channel(channel), 6);
    let configuration = mixed_configuration(&ssid, &"secret".to_string(), channel);
    assert_eq!(configuration.client.ssid, "home-net");
    assert_eq!(configuration.client.password, "secret");
    assert_eq!(configuration.client.channel, Some(6));
    assert_eq!(configuration.access_point.ssid, "aptest");
    assert_eq!(configuration.access_point.channel, 6);
}

#[test]
fn target_missing_falls_back_to_the_default_channel() {
    let ssid = "home-net".to_string();
    let scan = vec![network("other", 3), network("home-net-5g", 11), network("", 9)];
    assert_eq!(select_channel(&scan, &ssid), None);
    assert_eq!(select_channel(&Vec::new(), &ssid), None);
    assert_eq!(ap_channel(None), 1);
    assert_eq!(DEFAULT_AP_CHANNEL, 1);
    let configuration = mixed_configuration(&ssid, &"secret".to_string(), None);
    assert_eq!(configuration.client.channel, None);
    assert_eq!(configuration.access_point.channel, 1);
}

#[test]
fn first_network_of_the_name_wins() {
    let ssid = "home-net".to_string();
    let scan =
        vec![network("other", 3), network("home-net", 11), network("home-net", 6), network("x", 1)];
    assert_eq!(select_channel(&scan, &ssid), Some(11));
    let scan = vec![network("Home-Net", 2), network("home-net ", 4), network("home-net", 13)];
    assert_eq!(select_channel(&scan, &ssid), Some(13));
    assert_eq!(select_channel(&vec![network("home-net", 0)], &ssid), Some(0));
    assert_eq!(ap_channel(Some(0)), 0);
}

#[test]
fn driver_status_is_read_side_by_side() {
    let connected = ClientStatus::Started(ClientConnectionStatus::Connected(ClientIpStatus::Done(
        addresses(),
    )));
    let clients = [
        (ClientStatus::Stopped, ClientLink::Failed(FailureReason::Stopped)),
        (ClientStatus::Starting, ClientLink::Transitional),
        (
            ClientStatus::Started(ClientConnectionStatus::Disconnected),
            ClientLink::Failed(FailureReason::Disconnected),
        ),
        (ClientStatus::Started(ClientConnectionStatus::Connecting), ClientLink::Transitional),
        (
            ClientStatus::Started(ClientConnectionStatus::Connected(ClientIpStatus::Disabled)),
            ClientLink::Failed(FailureReason::NoAddress),
        ),
        (
            ClientStatus::Started(ClientConnectionStatus::Connected(ClientIpStatus::Waiting)),
            ClientLink::Transitional,
        ),
        (connected, ClientLink::Connected(addresses())),
    ];
    let access_points = [
        (ApStatus::Stopped, ApLink::Failed),
        (ApStatus::Starting, ApLink::Transitional),
        (ApStatus::Started(ApIpStatus::Disabled), ApLink::Failed),
        (ApStatus::Started(ApIpStatus::Waiting), ApLink::Transitional),
        (ApStatus::Started(ApIpStatus::Done), ApLink::Started),
    ];
    for (client, client_link) in clients {
        for (access_point, ap_link) in access_points {
            assert_eq!(
                LinkStatus::from_driver(DriverStatus { client, access_point }),
                LinkStatus { client: client_link, access_point: ap_link }
            );
        }
    }
    let up = DriverStatus { client: connected, access_point: ApStatus::Started(ApIpStatus::Done) };
    assert_eq!(evaluate_status(LinkStatus::from_driver(up)), Ok(addresses()));
}

#[test]
fn status_in_transition_is_recognised() {
    let cases = [
        (ClientLink::Transitional, ApLink::Transitional, true),
        (ClientLink::Transitional, ApLink::Started, true),
        (ClientLink::Connected(addresses()), ApLink::Transitional, true),
        (ClientLink::Failed(FailureReason::Stopped), ApLink::Transitional, true),
        (ClientLink::Transitional, ApLink::Failed, true),
        (ClientLink::Connected(addresses()), ApLink::Started, false),
        (ClientLink::Failed(FailureReason::Disconnected), ApLink::Failed, false),
        (ClientLink::Connected(addresses()), ApLink::Failed, false),
    ];
    for (client, access_point, expected) in cases {
        assert_eq!(LinkStatus { client, access_point }.is_transitional(), expected);
    }
}

#[test]
fn only_both_sides_up_passes() {
    assert_eq!(evaluate_status(both_up()), Ok(addresses()));
    let others = [
        status(ClientLink::Connected(addresses()), ApLink::Failed),
        status(ClientLink::Connected(addresses()), ApLink::Transitional),
        status(ClientLink::Failed(FailureReason::Stopped), ApLink::Started),
        status(ClientLink::Failed(FailureReason::Disconnected), ApLink::Started),
        status(ClientLink::Failed(FailureReason::NoAddress), ApLink::Started),
        status(ClientLink::Failed(FailureReason::NoAddress), ApLink::Failed),
        status(ClientLink::Transitional, ApLink::Started),
    ];
    for status in others {
        assert_eq!(evaluate_status(status), Err(LinkError::UnexpectedStatus(status)));
    }
}

#[test]
fn wait_gets_exactly_the_time_that_is_left() {
    let settling = status(ClientLink::Transitional, ApLink::Started);
    assert_eq!(wait_decision(settling, 0, 20_000), WaitDecision::KeepWaiting { at_most_ms: 20_000 });
    assert_eq!(wait_decision(settling, 500, 20_000), WaitDecision::KeepWaiting { at_most_ms: 19_500 });
    assert_eq!(wait_decision(settling, 19_999, 20_000), WaitDecision::KeepWaiting { at_most_ms: 1 });
    assert_eq!(wait_decision(settling, 20_000, 20_000), WaitDecision::TimedOut);
    assert_eq!(wait_decision(settling, u64::MAX, 20_000), WaitDecision::TimedOut);
    assert_eq!(wait_decision(settling, 0, 0), WaitDecision::TimedOut);
    assert_eq!(wait_decision(both_up(), 0, 20_000), WaitDecision::Settled);
    assert_eq!(wait_decision(both_up(), 25_000, 20_000), WaitDecision::Settled);
}

#[test]
fn bring_up_succeeds_with_both_sides_up_and_a_reachable_gateway() {
    let mut manager = manager();
    assert_eq!(manager.state, LinkState::Idle);
    assert_eq!(manager.outcome(), None);
    assert_eq!(manager.pending(), LinkAction::Scan);
    assert_eq!(manager.step(LinkEvent::Start), LinkAction::Scan);
    assert_eq!(manager.state, LinkState::Scanning);
    let action = manager.step(LinkEvent::Scanned(vec![network("other", 1), network("home-net", 6)]));
    assert_eq!(
        action,
        LinkAction::Configure(mixed_configuration(
            &"home-net".to_string(),
            &"secret".to_string(),
            Some(6)
        ))
    );
    assert_eq!(manager.state, LinkState::Configuring { channel: Some(6) });
    assert_eq!(manager.step(LinkEvent::Configured), LinkAction::AwaitStatus { at_most_ms: 20_000 });
    let settling = status(ClientLink::Transitional, ApLink::Started);
    assert_eq!(
        manager.step(LinkEvent::Status { status: settling, elapsed_ms: 1_200 }),
        LinkAction::AwaitStatus { at_most_ms: 18_800 }
    );
    assert_eq!(
        manager.step(LinkEvent::Status { status: both_up(), elapsed_ms: 3_000 }),
        LinkAction::Probe { gateway: 0xC0A8_0101 }
    );
    assert_eq!(manager.state, LinkState::Verifying { channel: Some(6), ip: addresses() });
    assert_eq!(manager.outcome(), None);
    let handle = LinkHandle { ip: addresses(), channel: Some(6) };
    assert_eq!(manager.step(answered()), LinkAction::Done(Ok(handle)));
    assert_eq!(manager.state, LinkState::Connected(handle));
    assert_eq!(manager.outcome(), Some(Ok(handle)));
}

#[test]
fn bring_up_times_out_on_a_link_that_never_settles() {
    let mut manager = waiting(vec![network("home-net", 6)]);
    let settling = status(ClientLink::Transitional, ApLink::Transitional);
    assert_eq!(
        manager.step(LinkEvent::Status { status: settling, elapsed_ms: 19_000 }),
        LinkAction::AwaitStatus { at_most_ms: 1_000 }
    );
    assert_eq!(
        manager.step(LinkEvent::Status { status: settling, elapsed_ms: 20_000 }),
        LinkAction::Done(Err(LinkError::Timeout))
    );
    assert_eq!(manager.state, LinkState::Failed(LinkError::Timeout));
    assert_eq!(manager.outcome(), Some(Err(LinkError::Timeout)));
}

#[test]
fn a_settled_link_is_judged_even_after_the_timeout() {
    let mut manager = waiting(Vec::new());
    assert_eq!(
        manager.step(LinkEvent::Status { status: both_up(), elapsed_ms: 20_001 }),
        LinkAction::Probe { gateway: 0xC0A8_0101 }
    );
    assert_eq!(manager.state, LinkState::Verifying { channel: None, ip: addresses() });
}

#[test]
fn bring_up_fails_on_any_other_final_status() {
    let others = [
        status(ClientLink::Failed(FailureReason::Disconnected), ApLink::Started),
        status(ClientLink::Connected(addresses()), ApLink::Failed),
        status(ClientLink::Failed(FailureReason::Stopped), ApLink::Failed),
    ];
    for status in others {
        let mut manager = waiting(vec![network("home-net", 6)]);
        assert_eq!(
            manager.step(LinkEvent::Status { status, elapsed_ms: 100 }),
            LinkAction::Done(Err(LinkError::UnexpectedStatus(status)))
        );
        assert_eq!(manager.outcome(), Some(Err(LinkError::UnexpectedStatus(status))));
    }
}

#[test]
fn bring_up_fails_on_an_unreachable_gateway() {
    let mut manager = waiting(vec![network("home-net", 6)]);
    manager.step(LinkEvent::Status { status: both_up(), elapsed_ms: 100 });
    assert_eq!(
        manager.step(lost_one()),
        LinkAction::Done(Err(LinkError::ProbeFailed))
    );
    assert_eq!(manager.state, LinkState::Failed(LinkError::ProbeFailed));
}

#[test]
fn gateway_is_reachable_when_no_request_was_lost() {
    assert!(ProbeSummary { transmitted: 5, received: 5 }.is_reachable());
    assert!(ProbeSummary { transmitted: 1, received: 1 }.is_reachable());
    assert!(!ProbeSummary { transmitted: 5, received: 4 }.is_reachable());
    assert!(!ProbeSummary { transmitted: 5, received: 0 }.is_reachable());
    assert!(!ProbeSummary { transmitted: 0, received: 0 }.is_reachable());
    assert!(!ProbeSummary { transmitted: 4, received: 5 }.is_reachable());
    for outcome in [None, Some(ProbeSummary { transmitted: 0, received: 0 })] {
        let mut manager = waiting(vec![network("home-net", 6)]);
        manager.step(LinkEvent::Status { status: both_up(), elapsed_ms: 100 });
        assert_eq!(
            manager.step(LinkEvent::Probed(outcome)),
            LinkAction::Done(Err(LinkError::ProbeFailed))
        );
    }
}

#[test]
fn a_report_out_of_turn_changes_nothing() {
    let mut manager = manager();
    assert_eq!(manager.step(LinkEvent::Configured), LinkAction::Scan);
    assert_eq!(manager.state, LinkState::Idle);
    assert_eq!(manager.step(answered()), LinkAction::Scan);
    assert_eq!(manager.state, LinkState::Idle);
    manager.step(LinkEvent::Start);
    assert_eq!(manager.step(LinkEvent::Start), LinkAction::Scan);
    assert_eq!(manager.state, LinkState::Scanning);
    assert_eq!(
        manager.step(LinkEvent::Status { status: both_up(), elapsed_ms: 1 }),
        LinkAction::Scan
    );
    manager.step(LinkEvent::Scanned(Vec::new()));
    let configure = manager.pending();
    assert_eq!(manager.step(LinkEvent::Scanned(vec![network("home-net", 6)])), configure);
    assert_eq!(manager.state, LinkState::Configuring { channel: None });
    manager.step(LinkEvent::Configured);
    let settling = status(ClientLink::Transitional, ApLink::Started);
    manager.step(LinkEvent::Status { status: settling, elapsed_ms: 5_000 });
    assert_eq!(
        manager.step(answered()),
        LinkAction::AwaitStatus { at_most_ms: 15_000 }
    );
    assert_eq!(manager.state, LinkState::WaitingForStatus { channel: None, elapsed_ms: 5_000 });
}

#[test]
fn a_scan_reported_before_the_start_is_taken() {
    let mut manager = manager();
    let action = manager.step(LinkEvent::Scanned(vec![network("home-net", 6)]));
    assert!(matches!(action, LinkAction::Configure(_)));
    assert_eq!(manager.state, LinkState::Configuring { channel: Some(6) });
}

#[test]
fn a_finished_bring_up_stays_finished() {
    let mut manager = waiting(vec![network("home-net", 6)]);
    manager.step(LinkEvent::Status { status: both_up(), elapsed_ms: 100 });
    manager.step(answered());
    let handle = LinkHandle { ip: addresses(), channel: Some(6) };
    let events = [
        LinkEvent::Start,
        LinkEvent::Scanned(Vec::new()),
        LinkEvent::Configured,
        LinkEvent::Status { status: both_up(), elapsed_ms: 0 },
        lost_one(),
    ];
    for event in events {
        assert_eq!(manager.step(event), LinkAction::Done(Ok(handle)));
        assert_eq!(manager.state, LinkState::Connected(handle));
    }
}

#[test]
fn a_zero_timeout_gives_one_look_and_no_wait() {
    let mut manager = WifiManager::new("home-net".to_string(), "secret".to_string(), 0);
    manager.step(LinkEvent::Start);
    manager.step(LinkEvent::Scanned(Vec::new()));
    assert_eq!(manager.step(LinkEvent::Configured), LinkAction::AwaitStatus { at_most_ms: 0 });
    let settling = status(ClientLink::Transitional, ApLink::Started);
    assert_eq!(
        manager.step(LinkEvent::Status { status: settling, elapsed_ms: 0 }),
        LinkAction::Done(Err(LinkError::Timeout))
    );
}
