//! The connection-race negotiator.
//!
//! One epoch's connection path is a little state machine.  With bridges
//! disabled it starts a direct connect raced against the fallback timer;
//! when the timer fires first, a bridge race starts while the direct
//! attempt stays pending, and whichever path completes successfully first
//! is adopted.  With bridges enabled the direct attempt is skipped.  A
//! failed direct attempt is never reported to the caller — it simply can
//! no longer win.  The driver performs the emitted actions (start the
//! attempt, fetch the bridge list, launch one attempt per bridge) and
//! feeds the completions back as events, the overall ten-second deadline
//! among them.

use vstd::prelude::*;
use crate::exits::Endpoint;
use crate::TunnelError;

verus! {

/// Which path a session was adopted from.
#[derive(Clone, Copy, Debug, PartialEq, Eq, Structural)]
pub enum ConnectPath {
    /// The direct connect to the chosen exit.
    Direct,
    /// The bridge whose endpoint is carried here.
    Bridged { endpoint: Endpoint },
}

/// Where the race stands.
#[derive(Clone, Copy, Debug, PartialEq, Eq, Structural)]
pub enum RaceState {
    /// The direct attempt is outstanding (or has quietly died) and the
    /// fallback timer is armed.
    DirectRacing { direct_dead: bool },
    /// The bridge list is being fetched; the direct attempt may still win.
    AwaitingBridges { direct_live: bool },
    /// One attempt per bridge is outstanding; the direct attempt may
    /// still win.
    BridgeRacing { direct_live: bool, outstanding: usize },
    /// One session was adopted; the race is over.
    Adopted { path: ConnectPath },
    /// The race failed; the epoch is over.
    Failed { error: TunnelError },
}

/// What the driver reports back to the race.
#[derive(Clone, Copy, Debug, PartialEq, Eq, Structural)]
pub enum RaceEvent {
    /// The direct attempt produced a session.
    DirectConnected,
    /// The direct attempt failed; it is left pending forever, never
    /// surfaced.
    DirectFailed,
    /// Five seconds passed without a direct session.
    FallbackTimerFired,
    /// The bridge list arrived with this many bridges.
    BridgesFetched { count: usize },
    /// The bridge list could not be fetched.
    BridgeFetchFailed,
    /// Some bridge attempt produced a session to this endpoint.
    BridgeConnected { endpoint: Endpoint },
    /// Some bridge attempt failed.
    BridgeFailed,
    /// Ten seconds passed without any session.
    OverallTimeout,
}

/// What the driver must do next.
#[derive(Clone, Copy, Debug, PartialEq, Eq, Structural)]
pub enum RaceAction {
    /// Nothing; keep waiting for events.
    Wait,
    /// Start the direct connect to the chosen exit and arm the fallback
    /// timer.
    StartDirectConnect,
    /// Fetch the bridge list for the chosen exit.
    FetchBridges,
    /// Launch one connection attempt per fetched bridge, all at once.
    LaunchBridgeAttempts,
    /// Wrap the adopted session; the losers are left unconsumed.
    AdoptSession { path: ConnectPath },
    /// Tear the epoch attempt down with this error.
    Abort { error: TunnelError },
}

/// How the race begins: straight to the bridge race when bridges are
/// forced, otherwise with the direct attempt and the fallback timer.
pub open spec fn race_begin(use_bridges: bool) -> (RaceState, RaceAction) {
    if use_bridges {
        (RaceState::AwaitingBridges { direct_live: false }, RaceAction::FetchBridges)
    } else {
        (RaceState::DirectRacing { direct_dead: false }, RaceAction::StartDirectConnect)
    }
}

/// The race's whole transition relation: next state and action for every
/// state and event.  Events that make no sense in a state are ignored,
/// and the two terminal states absorb everything.
pub open spec fn race_step(s: RaceState, e: RaceEvent) -> (RaceState, RaceAction) {
    match s {
        RaceState::DirectRacing { direct_dead } => match e {
            RaceEvent::DirectConnected => (
                RaceState::Adopted { path: ConnectPath::Direct },
                RaceAction::AdoptSession { path: ConnectPath::Direct },
            ),
            RaceEvent::DirectFailed => (RaceState::DirectRacing { direct_dead: true }, RaceAction::Wait),
            RaceEvent::FallbackTimerFired => (
                RaceState::AwaitingBridges { direct_live: !direct_dead },
                RaceAction::FetchBridges,
            ),
            RaceEvent::OverallTimeout => (
                RaceState::Failed { error: TunnelError::ConnectTimeout },
                RaceAction::Abort { error: TunnelError::ConnectTimeout },
            ),
            _ => (s, RaceAction::Wait),
        },
        RaceState::AwaitingBridges { direct_live } => match e {
            RaceEvent::DirectConnected => if direct_live {
                (
                    RaceState::Adopted { path: ConnectPath::Direct },
                    RaceAction::AdoptSession { path: ConnectPath::Direct },
                )
            } else {
                (s, RaceAction::Wait)
            },
            RaceEvent::DirectFailed => (RaceState::AwaitingBridges { direct_live: false }, RaceAction::Wait),
            RaceEvent::BridgesFetched { count } => if count == 0 {
                (
                    RaceState::Failed { error: TunnelError::NoBridgesFound },
                    RaceAction::Abort { error: TunnelError::NoBridgesFound },
                )
            } else {
                (
                    RaceState::BridgeRacing { direct_live, outstanding: count },
                    RaceAction::LaunchBridgeAttempts,
                )
            },
            RaceEvent::BridgeFetchFailed => (
                RaceState::Failed { error: TunnelError::CacheFailure },
                RaceAction::Abort { error: TunnelError::CacheFailure },
            ),
            RaceEvent::OverallTimeout => (
                RaceState::Failed { error: TunnelError::ConnectTimeout },
                RaceAction::Abort { error: TunnelError::ConnectTimeout },
            ),
            _ => (s, RaceAction::Wait),
        },
        RaceState::BridgeRacing { direct_live, outstanding } => match e {
            RaceEvent::DirectConnected => if direct_live {
                (
                    RaceState::Adopted { path: ConnectPath::Direct },
                    RaceAction::AdoptSession { path: ConnectPath::Direct },
                )
            } else {
                (s, RaceAction::Wait)
            },
            RaceEvent::DirectFailed => (
                RaceState::BridgeRacing { direct_live: false, outstanding },
                RaceAction::Wait,
            ),
            RaceEvent::BridgeConnected { endpoint } => (
                RaceState::Adopted { path: ConnectPath::Bridged { endpoint } },
                RaceAction::AdoptSession { path: ConnectPath::Bridged { endpoint } },
            ),
            RaceEvent::BridgeFailed => if outstanding <= 1 {
                (
                    RaceState::Failed { error: TunnelError::BridgesExhausted },
                    RaceAction::Abort { error: TunnelError::BridgesExhausted },
                )
            } else {
                (
                    RaceState::BridgeRacing { direct_live, outstanding: (outstanding - 1) as usize },
                    RaceAction::Wait,
                )
            },
            RaceEvent::OverallTimeout => (
                RaceState::Failed { error: TunnelError::ConnectTimeout },
                RaceAction::Abort { error: TunnelError::ConnectTimeout },
            ),
            _ => (s, RaceAction::Wait),
        },
        RaceState::Adopted { .. } => (s, RaceAction::Wait),
        RaceState::Failed { .. } => (s, RaceAction::Wait),
    }
}

/// Begins the race.
pub fn start_race(use_bridges: bool) -> (r: (RaceState, RaceAction))
    ensures
        r == race_begin(use_bridges),
{
    if use_bridges {
        (RaceState::AwaitingBridges { direct_live: false }, RaceAction::FetchBridges)
    } else {
        (RaceState::DirectRacing { direct_dead: false }, RaceAction::StartDirectConnect)
    }
}

/// Advances the race by one event.
pub fn advance_race(s: RaceState, e: RaceEvent) -> (r: (RaceState, RaceAction))
    ensures
        r == race_step(s, e),
{
    match s {
        RaceState::DirectRacing { direct_dead } => match e {
            RaceEvent::DirectConnected => (
                RaceState::Adopted { path: ConnectPath::Direct },
                RaceAction::AdoptSession { path: ConnectPath::Direct },
            ),
            RaceEvent::DirectFailed => (RaceState::DirectRacing { direct_dead: true }, RaceAction::Wait),
            RaceEvent::FallbackTimerFired => (
                RaceState::AwaitingBridges { direct_live: !direct_dead },
                RaceAction::FetchBridges,
            ),
            RaceEvent::OverallTimeout => (
                RaceState::Failed { error: TunnelError::ConnectTimeout },
                RaceAction::Abort { error: TunnelError::ConnectTimeout },
            ),
            _ => (s, RaceAction::Wait),
        },
        RaceState::AwaitingBridges { direct_live } => match e {
            RaceEvent::DirectConnected => if direct_live {
                (
                    RaceState::Adopted { path: ConnectPath::Direct },
                    RaceAction::AdoptSession { path: ConnectPath::Direct },
                )
            } else {
                (s, RaceAction::Wait)
            },
            RaceEvent::DirectFailed => (RaceState::AwaitingBridges { direct_live: false }, RaceAction::Wait),
            RaceEvent::BridgesFetched { count } => if count == 0 {
                (
                    RaceState::Failed { error: TunnelError::NoBridgesFound },
                    RaceAction::Abort { error: TunnelError::NoBridgesFound },
                )
            } else {
                (
                    RaceState::BridgeRacing { direct_live, outstanding: count },
                    RaceAction::LaunchBridgeAttempts,
                )
            },
            RaceEvent::BridgeFetchFailed => (
                RaceState::Failed { error: TunnelError::CacheFailure },
                RaceAction::Abort { error: TunnelError::CacheFailure },
            ),
            RaceEvent::OverallTimeout => (
                RaceState::Failed { error: TunnelError::ConnectTimeout },
                RaceAction::Abort { error: TunnelError::ConnectTimeout },
            ),
            _ => (s, RaceAction::Wait),
        },
        RaceState::BridgeRacing { direct_live, outstanding } => match e {
            RaceEvent::DirectConnected => if direct_live {
                (
                    RaceState::Adopted { path: ConnectPath::Direct },
                    RaceAction::AdoptSession { path: ConnectPath::Direct },
                )
            } else {
                (s, RaceAction::Wait)
            },
            RaceEvent::DirectFailed => (
                RaceState::BridgeRacing { direct_live: false, outstanding },
                RaceAction::Wait,
            ),
            RaceEvent::BridgeConnected { endpoint } => (
                RaceState::Adopted { path: ConnectPath::Bridged { endpoint } },
                RaceAction::AdoptSession { path: ConnectPath::Bridged { endpoint } },
            ),
            RaceEvent::BridgeFailed => if outstanding <= 1 {
                (
                    RaceState::Failed { error: TunnelError::BridgesExhausted },
                    RaceAction::Abort { error: TunnelError::BridgesExhausted },
                )
            } else {
                (
                    RaceState::BridgeRacing { direct_live, outstanding: outstanding - 1 },
                    RaceAction::Wait,
                )
            },
            RaceEvent::OverallTimeout => (
                RaceState::Failed { error: TunnelError::ConnectTimeout },
                RaceAction::Abort { error: TunnelError::ConnectTimeout },
            ),
            _ => (s, RaceAction::Wait),
        },
        RaceState::Adopted { .. } => (s, RaceAction::Wait),
        RaceState::Failed { .. } => (s, RaceAction::Wait),
    }
}

/// The actions a run of the race emits, one per event.
pub open spec fn race_actions(s: RaceState, events: Seq<RaceEvent>) -> Seq<RaceAction>
    decreases events.len(),
{
    if events.len() == 0 {
        Seq::empty()
    } else {
        seq![race_step(s, events[0]).1] + race_actions(race_step(s, events[0]).0, events.drop_first())
    }
}

/// No action of the run starts any bridge work.
pub open spec fn no_bridge_work(actions: Seq<RaceAction>) -> bool {
    forall|i: int| 0 <= i < actions.len()
        ==> !(#[trigger] actions[i] is FetchBridges) && !(actions[i] is LaunchBridgeAttempts)
}

/// A settled race is stable: once adopted or failed, every further event
/// is absorbed without any action.
pub proof fn lemma_settled_race_is_stable(s: RaceState, e: RaceEvent)
    requires
        s is Adopted || s is Failed,
    ensures
        race_step(s, e) == (s, RaceAction::Wait),
{
}

/// A settled race emits no bridge work, however many events follow.
pub proof fn lemma_settled_race_emits_nothing(s: RaceState, events: Seq<RaceEvent>)
    requires
        s is Adopted || s is Failed,
    ensures
        no_bridge_work(race_actions(s, events)),
    decreases events.len(),
{
    if events.len() > 0 {
        lemma_settled_race_emits_nothing(s, events.drop_first());
        assert(race_actions(s, events)[0] == RaceAction::Wait);
        assert(forall|i: int| 1 <= i < race_actions(s, events).len()
            ==> race_actions(s, events)[i] == #[trigger] race_actions(s, events.drop_first())[i - 1]);
    }
}

/// If the direct connect succeeds before the fallback timer fires, no
/// bridge work is ever started: in any run from the direct-racing state
/// in which every fallback-timer event is preceded by the direct success,
/// no action fetches bridges or launches a bridge attempt.
pub proof fn lemma_direct_win_precludes_bridges(direct_dead: bool, events: Seq<RaceEvent>)
    requires
        forall|i: int| 0 <= i < events.len() && events[i] == RaceEvent::FallbackTimerFired
            ==> exists|j: int| 0 <= j < i && events[j] == RaceEvent::DirectConnected,
    ensures
        no_bridge_work(race_actions(RaceState::DirectRacing { direct_dead }, events)),
    decreases events.len(),
{
    let s = RaceState::DirectRacing { direct_dead };
    if events.len() > 0 {
        let e0 = events[0];
        let (s1, a1) = race_step(s, e0);
        assert(e0 != RaceEvent::FallbackTimerFired);
        assert(!(a1 is FetchBridges) && !(a1 is LaunchBridgeAttempts));
        if e0 == RaceEvent::DirectConnected || e0 == RaceEvent::OverallTimeout {
            lemma_settled_race_emits_nothing(s1, events.drop_first());
        } else {
            assert(s1 == RaceState::DirectRacing { direct_dead: direct_dead || e0 == RaceEvent::DirectFailed });
            assert forall|i: int|
                0 <= i < events.drop_first().len()
                    && events.drop_first()[i] == RaceEvent::FallbackTimerFired
                implies exists|j: int|
                    0 <= j < i && events.drop_first()[j] == RaceEvent::DirectConnected by {
                assert(events[i + 1] == RaceEvent::FallbackTimerFired);
                let j = choose|j: int| 0 <= j < i + 1 && events[j] == RaceEvent::DirectConnected;
                assert(j != 0);
                assert(events.drop_first()[j - 1] == RaceEvent::DirectConnected);
            }
            lemma_direct_win_precludes_bridges(direct_dead || e0 == RaceEvent::DirectFailed, events.drop_first());
        }
        assert(forall|i: int| 1 <= i < race_actions(s, events).len()
            ==> race_actions(s, events)[i] == #[trigger] race_actions(s1, events.drop_first())[i - 1]);
    }
}

/// When the fallback timer fires first, the bridge race starts while the
/// direct attempt, unless it has already died, can still win; and in the
/// bridge race whichever side completes first is adopted.
pub proof fn lemma_fallback_races_both_paths(direct_dead: bool, direct_live: bool, outstanding: usize, endpoint: Endpoint)
    ensures
        race_step(RaceState::DirectRacing { direct_dead }, RaceEvent::FallbackTimerFired)
            == (RaceState::AwaitingBridges { direct_live: !direct_dead }, RaceAction::FetchBridges),
        direct_live ==> race_step(
            RaceState::BridgeRacing { direct_live, outstanding },
            RaceEvent::DirectConnected,
        ) == (
            RaceState::Adopted { path: ConnectPath::Direct },
            RaceAction::AdoptSession { path: ConnectPath::Direct },
        ),
        race_step(
            RaceState::BridgeRacing { direct_live, outstanding },
            RaceEvent::BridgeConnected { endpoint },
        ) == (
            RaceState::Adopted { path: ConnectPath::Bridged { endpoint } },
            RaceAction::AdoptSession { path: ConnectPath::Bridged { endpoint } },
        ),
{
}

/// The adopted session's remote endpoint is the endpoint of the bridge
/// that connected, wherever that bridge stood in the list: the state after
/// a bridge success carries exactly the event's endpoint, for every count
/// of outstanding attempts.
pub proof fn lemma_adopted_endpoint_is_winner(direct_live: bool, outstanding: usize, endpoint: Endpoint)
    ensures
        race_step(
            RaceState::BridgeRacing { direct_live, outstanding },
            RaceEvent::BridgeConnected { endpoint },
        ).0 == (RaceState::Adopted { path: ConnectPath::Bridged { endpoint } }),
{
}

/// The state a run of the race ends in.
pub open spec fn race_run(s: RaceState, events: Seq<RaceEvent>) -> RaceState
    decreases events.len(),
{
    if events.len() == 0 {
        s
    } else {
        race_run(race_step(s, events[0]).0, events.drop_first())
    }
}

/// When every one of the outstanding bridge attempts fails and nothing
/// else completes, the race ends exhausted — whether or not a direct
/// attempt was still nominally pending.
pub proof fn lemma_bridge_exhaustion_run(direct_live: bool, n: usize, events: Seq<RaceEvent>)
    requires
        1 <= n,
        events.len() == n,
        forall|i: int| 0 <= i < events.len() ==> events[i] == RaceEvent::BridgeFailed,
    ensures
        race_run(RaceState::BridgeRacing { direct_live, outstanding: n }, events)
            == (RaceState::Failed { error: TunnelError::BridgesExhausted }),
    decreases n,
{
    let s = RaceState::BridgeRacing { direct_live, outstanding: n };
    assert(events[0] == RaceEvent::BridgeFailed);
    assert(race_run(s, events) == race_run(race_step(s, events[0]).0, events.drop_first()));
    if n == 1 {
        assert(race_step(s, events[0]).0 == (RaceState::Failed { error: TunnelError::BridgesExhausted }));
        assert(events.drop_first().len() == 0);
    } else {
        assert(race_step(s, events[0]).0
            == (RaceState::BridgeRacing { direct_live, outstanding: (n - 1) as usize }));
        assert(forall|i: int| 0 <= i < events.drop_first().len()
            ==> #[trigger] events.drop_first()[i] == events[i + 1]);
        lemma_bridge_exhaustion_run(direct_live, (n - 1) as usize, events.drop_first());
    }
}

/// With no working path, the race fails with whichever condition triggers
/// first: the last bridge failure yields exhaustion, the ten-second
/// deadline yields the connect timeout — in every live state.
pub proof fn lemma_no_working_path_fails(s: RaceState, direct_live: bool)
    ensures
        race_step(
            RaceState::BridgeRacing { direct_live, outstanding: 1 },
            RaceEvent::BridgeFailed,
        ).0 == (RaceState::Failed { error: TunnelError::BridgesExhausted }),
        !(s is Adopted) && !(s is Failed)
            ==> race_step(s, RaceEvent::OverallTimeout).0
                == (RaceState::Failed { error: TunnelError::ConnectTimeout }),
{
}

} // verus!
