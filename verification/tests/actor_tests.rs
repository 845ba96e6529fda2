use kalive::RESTART_PAUSE_SECS;
use kalive::TunnelError;
use kalive::actor::AuthOutcome;
use kalive::actor::EpochAction;
use kalive::actor::EpochPhase;
use kalive::actor::RunEvent;
use kalive::actor::SupervisorDecision;
use kalive::actor::epoch_auth_result;
use kalive::actor::epoch_begin;
use kalive::actor::epoch_exits_fetched;
use kalive::actor::epoch_fatal;
use kalive::actor::epoch_race_event;
use kalive::actor::epoch_run_event;
use kalive::actor::supervise;
use kalive::exits::ExitDescriptor;
use kalive::negotiate::RaceAction;
use kalive::negotiate::RaceEvent;
use kalive::exits::select_exit;

fn exit(hostname: &str) -> ExitDescriptor {
    ExitDescriptor { hostname: hostname.to_string(), sosistab_key: vec![0u8; 32] }
}

#[test]
fn chosen_exit_minimizes_edit_distance_with_first_tie() {
    let exits = vec![
        exit("sg-sgp-01.exits.example"),
        exit("us-nyc-01.exits.example"),
        exit("us-nyc-02.exits.example"),
        exit("de-fra-01.exits.example"),
    ];
    // Nearest to the request.
    assert_eq!(select_exit(&exits, "us-nyc-01.exits.example"), Some(1));
    // Cross-check against the metric itself over the whole list.
    let requested = "us-nyc-03.exits.example";
    let picked = select_exit(&exits, requested).unwrap();
    let dist: Vec<usize> = exits
        .iter()
        .map(|e| strsim::damerau_levenshtein(&e.hostname, requested))
        .collect();
    let best = *dist.iter().min().unwrap();
    assert_eq!(dist[picked], best);
    assert!(dist[..picked].iter().all(|&d| d > best));
    // A tie between the two nearest resolves to the first listed.
    assert_eq!(
        strsim::damerau_levenshtein(&exits[1].hostname, requested),
        strsim::damerau_levenshtein(&exits[2].hostname, requested)
    );
    assert_eq!(picked, 1);
    // Empty list: nothing to choose.
    assert_eq!(select_exit(&Vec::new(), requested), None);
}

#[test]
fn epoch_clears_exit_before_anything_else() {
    let (ph, action) = epoch_begin();
    assert_eq!(ph, EpochPhase::FetchingExits);
    assert_eq!(action, EpochAction::ClearExitAndFetch);
}

#[test]
fn empty_exit_list_fails_the_epoch() {
    let (ph, _) = epoch_begin();
    let (ph1, a1) = epoch_exits_fetched(ph, &Vec::new(), "any", false);
    assert_eq!(ph1, EpochPhase::Ended { error: TunnelError::NoExitsFound });
    assert_eq!(a1, EpochAction::Fail { error: TunnelError::NoExitsFound });
}

#[test]
fn exit_is_published_only_after_authentication() {
    let exits = vec![exit("a.example"), exit("b.example")];
    let (ph, _) = epoch_begin();
    let (ph, a) = epoch_exits_fetched(ph, &exits, "b.example", false);
    assert_eq!(a, EpochAction::StartRace { exit_index: 1, first: RaceAction::StartDirectConnect });
    // Nothing on the way to the handshake publishes the exit.
    let (ph, a) = epoch_race_event(ph, RaceEvent::DirectConnected);
    assert!(!matches!(a, EpochAction::PublishExit { .. }));
    assert_eq!(ph, EpochPhase::Authenticating { exit_index: 1 });
    // Acceptance publishes exactly the selected exit.
    let (ph, a) = epoch_auth_result(ph, AuthOutcome::Accepted);
    assert_eq!(a, EpochAction::PublishExit { exit_index: 1 });
    assert_eq!(ph, EpochPhase::Running { exit_index: 1 });
}

#[test]
fn auth_rejection_and_timeout_end_the_epoch() {
    let ph = EpochPhase::Authenticating { exit_index: 0 };
    let (ph1, _) = epoch_auth_result(ph, AuthOutcome::Rejected);
    assert_eq!(ph1, EpochPhase::Ended { error: TunnelError::AuthFailure });
    let (ph2, _) = epoch_auth_result(ph, AuthOutcome::TimedOut);
    assert_eq!(ph2, EpochPhase::Ended { error: TunnelError::AuthTimeout });
}

#[test]
fn watchdog_failure_is_never_fatal() {
    let ph = EpochPhase::Running { exit_index: 0 };
    let (ph1, a1) = epoch_run_event(ph, RunEvent::WatchdogProbeFailed);
    assert_eq!(ph1, ph);
    assert_eq!(a1, EpochAction::Wait);
}

#[test]
fn fatal_run_events_end_the_epoch() {
    let ph = EpochPhase::Running { exit_index: 0 };
    let (p, _) = epoch_run_event(ph, RunEvent::StreamOpenFailed);
    assert_eq!(p, EpochPhase::Ended { error: TunnelError::StreamOpenFailure });
    let (p, _) = epoch_run_event(ph, RunEvent::RequestChannelClosed);
    assert_eq!(p, EpochPhase::Ended { error: TunnelError::RequestChannelClosed });
    let (p, _) = epoch_run_event(ph, RunEvent::RelayFailed);
    assert_eq!(p, EpochPhase::Ended { error: TunnelError::TransportFailure });
    let (p, a) = epoch_run_event(ph, RunEvent::StatsRequested);
    assert_eq!(p, ph);
    assert_eq!(a, EpochAction::ReplyStats);
}

#[test]
fn handle_survives_any_fatal_error() {
    // Whatever ends an epoch, what the supervisor decides is the same fixed
    // pause and a fresh epoch, so a later request can succeed.
    for error in [
        TunnelError::NoExitsFound,
        TunnelError::BridgesExhausted,
        TunnelError::ConnectTimeout,
        TunnelError::AuthFailure,
        TunnelError::StreamOpenFailure,
        TunnelError::TransportFailure,
        TunnelError::CacheFailure,
    ] {
        assert_eq!(supervise(error), SupervisorDecision::RestartAfter { pause_secs: RESTART_PAUSE_SECS });
        assert_eq!(RESTART_PAUSE_SECS, 1);
    }
    // The fresh epoch begins from the clean slate again.
    let (ph, a) = epoch_begin();
    assert_eq!(ph, EpochPhase::FetchingExits);
    assert_eq!(a, EpochAction::ClearExitAndFetch);
}

#[test]
fn cache_failure_is_fatal_mid_epoch() {
    let (ph, _) = epoch_begin();
    let (ph1, a1) = epoch_fatal(ph, TunnelError::CacheFailure);
    assert_eq!(ph1, EpochPhase::Ended { error: TunnelError::CacheFailure });
    assert_eq!(a1, EpochAction::Fail { error: TunnelError::CacheFailure });
    // An ended epoch absorbs further failures.
    let (ph2, a2) = epoch_fatal(ph1, TunnelError::TransportFailure);
    assert_eq!(ph2, ph1);
    assert_eq!(a2, EpochAction::Wait);
}
