use kalive::TunnelError;
use kalive::exits::Endpoint;
use kalive::negotiate::ConnectPath;
use kalive::negotiate::RaceAction;
use kalive::negotiate::RaceEvent;
use kalive::negotiate::RaceState;
use kalive::negotiate::advance_race;
use kalive::negotiate::start_race;

fn ep(port: u16) -> Endpoint {
    Endpoint { ip: 0x7f000001, port }
}

#[test]
fn direct_success_before_fallback_never_touches_bridges() {
    let (s0, a0) = start_race(false);
    assert_eq!(a0, RaceAction::StartDirectConnect);
    let (s1, a1) = advance_race(s0, RaceEvent::DirectConnected);
    assert_eq!(a1, RaceAction::AdoptSession { path: ConnectPath::Direct });
    assert_eq!(s1, RaceState::Adopted { path: ConnectPath::Direct });
    // A late fallback timer is absorbed without bridge work.
    let (s2, a2) = advance_race(s1, RaceEvent::FallbackTimerFired);
    assert_eq!(s2, s1);
    assert_eq!(a2, RaceAction::Wait);
}

#[test]
fn fallback_starts_bridge_race_with_direct_still_pending() {
    let (s0, _) = start_race(false);
    let (s1, a1) = advance_race(s0, RaceEvent::FallbackTimerFired);
    assert_eq!(a1, RaceAction::FetchBridges);
    assert_eq!(s1, RaceState::AwaitingBridges { direct_live: true });
    let (s2, a2) = advance_race(s1, RaceEvent::BridgesFetched { count: 3 });
    assert_eq!(a2, RaceAction::LaunchBridgeAttempts);
    assert_eq!(s2, RaceState::BridgeRacing { direct_live: true, outstanding: 3 });
    // The still-pending direct attempt wins the race.
    let (s3, a3) = advance_race(s2, RaceEvent::DirectConnected);
    assert_eq!(a3, RaceAction::AdoptSession { path: ConnectPath::Direct });
    assert_eq!(s3, RaceState::Adopted { path: ConnectPath::Direct });
}

#[test]
fn bridge_can_win_while_direct_is_still_pending() {
    let (s0, _) = start_race(false);
    let (s1, _) = advance_race(s0, RaceEvent::FallbackTimerFired);
    let (s2, _) = advance_race(s1, RaceEvent::BridgesFetched { count: 2 });
    assert_eq!(s2, RaceState::BridgeRacing { direct_live: true, outstanding: 2 });
    let (s3, a3) = advance_race(s2, RaceEvent::BridgeConnected { endpoint: ep(42) });
    assert_eq!(
        a3,
        RaceAction::AdoptSession { path: ConnectPath::Bridged { endpoint: ep(42) } }
    );
    assert_eq!(s3, RaceState::Adopted { path: ConnectPath::Bridged { endpoint: ep(42) } });
    // A late direct success is absorbed; the adopted endpoint stands.
    let (s4, a4) = advance_race(s3, RaceEvent::DirectConnected);
    assert_eq!(s4, s3);
    assert_eq!(a4, RaceAction::Wait);
}

#[test]
fn dead_direct_attempt_cannot_win_after_fallback() {
    let (s0, _) = start_race(false);
    let (s1, _) = advance_race(s0, RaceEvent::DirectFailed);
    assert_eq!(s1, RaceState::DirectRacing { direct_dead: true });
    let (s2, _) = advance_race(s1, RaceEvent::FallbackTimerFired);
    assert_eq!(s2, RaceState::AwaitingBridges { direct_live: false });
    // A stray direct success is ignored once the attempt has died.
    let (s3, a3) = advance_race(s2, RaceEvent::DirectConnected);
    assert_eq!(s3, s2);
    assert_eq!(a3, RaceAction::Wait);
}

#[test]
fn winning_bridge_endpoint_is_adopted_regardless_of_position() {
    for count in [1usize, 2, 5, 100] {
        let (s0, _) = start_race(true);
        let (s1, _) = advance_race(s0, RaceEvent::BridgesFetched { count });
        // Some losers fail first.
        let mut s = s1;
        if count > 2 {
            let (s2, _) = advance_race(s, RaceEvent::BridgeFailed);
            let (s3, _) = advance_race(s2, RaceEvent::BridgeFailed);
            s = s3;
        }
        let (s_won, a_won) = advance_race(s, RaceEvent::BridgeConnected { endpoint: ep(7) });
        assert_eq!(
            a_won,
            RaceAction::AdoptSession { path: ConnectPath::Bridged { endpoint: ep(7) } }
        );
        assert_eq!(s_won, RaceState::Adopted { path: ConnectPath::Bridged { endpoint: ep(7) } });
    }
}

#[test]
fn bridges_forced_skips_direct_connect() {
    let (s0, a0) = start_race(true);
    assert_eq!(a0, RaceAction::FetchBridges);
    assert_eq!(s0, RaceState::AwaitingBridges { direct_live: false });
}

#[test]
fn empty_bridge_list_fails() {
    let (s0, _) = start_race(true);
    let (s1, a1) = advance_race(s0, RaceEvent::BridgesFetched { count: 0 });
    assert_eq!(s1, RaceState::Failed { error: TunnelError::NoBridgesFound });
    assert_eq!(a1, RaceAction::Abort { error: TunnelError::NoBridgesFound });
}

#[test]
fn all_bridges_failing_exhausts_the_race() {
    let (s0, _) = start_race(true);
    let (mut s, _) = advance_race(s0, RaceEvent::BridgesFetched { count: 3 });
    for _ in 0..2 {
        let (s2, a2) = advance_race(s, RaceEvent::BridgeFailed);
        assert_eq!(a2, RaceAction::Wait);
        s = s2;
    }
    let (s_end, a_end) = advance_race(s, RaceEvent::BridgeFailed);
    assert_eq!(s_end, RaceState::Failed { error: TunnelError::BridgesExhausted });
    assert_eq!(a_end, RaceAction::Abort { error: TunnelError::BridgesExhausted });
}

#[test]
fn overall_timeout_fails_every_live_state() {
    let (s0, _) = start_race(false);
    let (s1, a1) = advance_race(s0, RaceEvent::OverallTimeout);
    assert_eq!(s1, RaceState::Failed { error: TunnelError::ConnectTimeout });
    assert_eq!(a1, RaceAction::Abort { error: TunnelError::ConnectTimeout });

    let (t0, _) = start_race(true);
    let (t1, _) = advance_race(t0, RaceEvent::BridgesFetched { count: 2 });
    let (t2, a2) = advance_race(t1, RaceEvent::OverallTimeout);
    assert_eq!(t2, RaceState::Failed { error: TunnelError::ConnectTimeout });
    assert_eq!(a2, RaceAction::Abort { error: TunnelError::ConnectTimeout });
}

#[test]
fn bridge_fetch_failure_is_fatal() {
    let (s0, _) = start_race(true);
    let (s1, _) = advance_race(s0, RaceEvent::BridgeFetchFailed);
    assert_eq!(s1, RaceState::Failed { error: TunnelError::CacheFailure });
}
