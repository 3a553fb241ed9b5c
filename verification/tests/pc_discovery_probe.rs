use deepseek_mobile::native_bridge::{NativeBridgeState, NativeMobileCommand, NativeMobileEvent};
use deepseek_mobile::pc_discovery_probe::{
    discovery_result_line, finalize_from_bridge, kickoff_if_requested, manual_urls_from_text, parse_running_marker,
    poll_running_probe, probe_timed_out, recover_stale_running_marker, running_marker_text, PcGatewayDiscoveryCandidate,
    PcGatewayDiscoveryReport, ProbeKickoff, ProbeStep, PROBE_REQUEST_ID, TIMEOUT_RESULT_LINE,
};

fn report(items: &[(&str, bool)]) -> PcGatewayDiscoveryReport {
    PcGatewayDiscoveryReport {
        candidates: items
            .iter()
            .map(|(url, online)| PcGatewayDiscoveryCandidate { base_url: url.to_string(), online: *online })
            .collect(),
    }
}

#[test]
fn running_markers_parse() {
    assert_eq!(parse_running_marker("1700000000,manual\n"), Some((1700000000, 0, true)));
    assert_eq!(parse_running_marker(" 12,34 "), Some((12, 34, false)));
    assert_eq!(parse_running_marker("12"), None);
    assert_eq!(parse_running_marker("x,1"), None);
    assert_eq!(parse_running_marker("12,y"), None);
    assert_eq!(running_marker_text(12, Some(34)), "12,34");
    assert_eq!(running_marker_text(12, None), "12,manual");
    assert_eq!(parse_running_marker(&running_marker_text(99, Some(7))), Some((99, 7, false)));
}

#[test]
fn manual_url_lines_skip_blanks_and_comments() {
    let urls = manual_urls_from_text("# office\n  http://192.168.1.111:8787  \n\n#http://old\nhttp://10.0.0.5:8787\r\n");
    assert_eq!(urls, vec!["http://192.168.1.111:8787".to_string(), "http://10.0.0.5:8787".to_string()]);
}

#[test]
fn result_lines_describe_the_report() {
    assert_eq!(
        discovery_result_line(&report(&[("http://a", false), ("http://b", true)]), "mdns"),
        "PASS endpoints=1 first=http://b mode=mdns"
    );
    assert_eq!(
        discovery_result_line(&report(&[("http://a", false)]), "manual"),
        "FAIL discovery completed with 0 online endpoints (found 1, first=http://a) mode=manual"
    );
    assert_eq!(
        discovery_result_line(&report(&[]), "mdns"),
        "FAIL discovery completed with 0 candidates (same Wi-Fi? PC host on 0.0.0.0:8787?) mode=mdns"
    );
}

#[test]
fn kickoff_prefers_manual_urls_and_otherwise_queues_mdns() {
    let mut bridge = NativeBridgeState::default();
    assert_eq!(kickoff_if_requested(&mut bridge, false, vec![], 5), (ProbeKickoff::NotRequested, None));
    let (kick, marker) = kickoff_if_requested(&mut bridge, true, vec!["http://x".to_string()], 5);
    assert_eq!(kick, ProbeKickoff::Manual(vec!["http://x".to_string()]));
    assert_eq!(marker.as_deref(), Some("5,manual"));
    assert!(!bridge.has_pending_commands());
    bridge.last_event_id = 3;
    let (kick, marker) = kickoff_if_requested(&mut bridge, true, vec![], 6);
    assert_eq!(kick, ProbeKickoff::Mdns);
    assert_eq!(marker.as_deref(), Some("6,3"));
    match bridge.pending_commands.last() {
        Some(NativeMobileCommand::StartPcGatewayDiscovery(c)) => assert_eq!(c.request_id, PROBE_REQUEST_ID),
        other => panic!("unexpected: {other:?}"),
    }
}

#[test]
fn finalize_waits_for_a_new_event() {
    let mut bridge = NativeBridgeState::default();
    let empty = report(&[]);
    assert_eq!(finalize_from_bridge(&bridge, 0, &empty, vec![]), ProbeStep::Idle);
    bridge.accept_event(NativeMobileEvent::PcGatewayDiscoveryFailed("no wifi".to_string()));
    assert_eq!(
        finalize_from_bridge(&bridge, 0, &empty, vec![]),
        ProbeStep::Finished { result_line: "FAIL no wifi mode=mdns".to_string(), clear_manual_urls: false }
    );
    assert_eq!(
        finalize_from_bridge(&bridge, 0, &empty, vec!["http://m".to_string()]),
        ProbeStep::Manual(vec!["http://m".to_string()])
    );
    assert_eq!(finalize_from_bridge(&bridge, 1, &empty, vec![]), ProbeStep::Idle);
}

#[test]
fn finalize_finishes_completed_discovery() {
    let mut bridge = NativeBridgeState::default();
    bridge.accept_event(NativeMobileEvent::PcGatewayDiscoveryCompleted(vec![]));
    let online = report(&[("http://pc:8787", true)]);
    assert_eq!(
        finalize_from_bridge(&bridge, 0, &online, vec!["http://m".to_string()]),
        ProbeStep::Finished {
            result_line: "PASS endpoints=1 first=http://pc:8787 mode=mdns".to_string(),
            clear_manual_urls: true
        }
    );
    bridge.accept_event(NativeMobileEvent::PcGatewayDiscoveryUpdated(vec![]));
    assert_eq!(finalize_from_bridge(&bridge, 0, &report(&[("http://a", false)]), vec![]), ProbeStep::Idle);
}

#[test]
fn stale_markers_are_recovered_after_the_timeout() {
    assert!(!probe_timed_out(100, 145));
    assert!(probe_timed_out(100, 146));
    assert!(!probe_timed_out(200, 100));
    let mut bridge = NativeBridgeState::default();
    bridge.enqueue_pc_gateway_discovery("scan");
    bridge.pop_next_android_pc_discovery_command(100).unwrap();
    assert!(!recover_stale_running_marker(None, 1000, &mut bridge));
    assert!(!recover_stale_running_marker(Some((990, 0, false)), 1000, &mut bridge));
    assert!(bridge.is_waiting_for_pc_discovery_callback());
    assert!(recover_stale_running_marker(Some((900, 0, false)), 1000, &mut bridge));
    assert!(!bridge.is_waiting_for_pc_discovery_callback());
}

#[test]
fn poll_of_a_timed_out_run_goes_by_hand_or_fails() {
    let empty = report(&[]);
    let mut bridge = NativeBridgeState::default();
    bridge.enqueue_pc_gateway_discovery("scan");
    bridge.pop_next_android_pc_discovery_command(100).unwrap();
    let urls = vec!["http://192.168.1.5:8787".to_string()];
    assert_eq!(poll_running_probe(&mut bridge, None, 1000, &empty, urls.clone()), ProbeStep::Idle);
    assert_eq!(poll_running_probe(&mut bridge, Some((100, 0, true)), 1000, &empty, urls.clone()), ProbeStep::Idle);
    assert!(bridge.is_waiting_for_pc_discovery_callback());
    assert_eq!(
        poll_running_probe(&mut bridge, Some((900, 0, false)), 1000, &empty, urls.clone()),
        ProbeStep::Manual(urls)
    );
    assert!(!bridge.is_waiting_for_pc_discovery_callback());
    assert_eq!(
        poll_running_probe(&mut bridge, Some((900, 0, false)), 1000, &empty, Vec::new()),
        ProbeStep::Finished { result_line: TIMEOUT_RESULT_LINE.to_string(), clear_manual_urls: false }
    );
    assert_eq!(poll_running_probe(&mut bridge, Some((990, 5, false)), 1000, &empty, Vec::new()), ProbeStep::Idle);
}
