//! The keepalive actor's per-epoch decisions, and the supervisor.
//!
//! One epoch clears the published exit descriptor, fetches and selects an
//! exit, runs the connection race, authenticates, and then services
//! requests until something fatal happens.  The driver performs each
//! emitted action and feeds the outcome back.  On any fatal error the
//! supervisor decides the same thing: restart the whole epoch after a
//! one-second pause, forever.

use vstd::prelude::*;
use crate::TunnelError;
use crate::exits::{ExitDescriptor, edit_distance, select_exit};
use crate::negotiate::{RaceState, RaceEvent, RaceAction, ConnectPath, race_begin, race_step,
    start_race, advance_race};

verus! {

/// Where one epoch stands.
#[derive(Clone, Copy, Debug, PartialEq, Eq, Structural)]
pub enum EpochPhase {
    /// The published exit descriptor has been cleared; the exit list is
    /// being fetched.
    FetchingExits,
    /// The connection race for the chosen exit is running.
    Racing { exit_index: usize, state: RaceState },
    /// A session was adopted and the handshake is running under its
    /// five-second bound.
    Authenticating { exit_index: usize },
    /// The epoch is live: requests are serviced until a fatal condition.
    Running { exit_index: usize },
    /// The epoch is over; the supervisor takes it from here.
    Ended { error: TunnelError },
}

/// What the driver must do next for the epoch.
#[derive(Clone, Copy, Debug, PartialEq, Eq, Structural)]
pub enum EpochAction {
    /// Clear the published exit descriptor to its absent state, then
    /// fetch the exit list.
    ClearExitAndFetch,
    /// Begin the connection race for the chosen exit with this first
    /// race action.
    StartRace { exit_index: usize, first: RaceAction },
    /// Perform this race action.
    Race { action: RaceAction },
    /// Wrap the adopted session, fetch a token, and run the
    /// authentication handshake under its five-second bound.
    StartAuth { path: ConnectPath },
    /// Publish the chosen exit as the current one: the epoch succeeded.
    PublishExit { exit_index: usize },
    /// Answer the pending stats request with a fresh snapshot.
    ReplyStats,
    /// Tear the epoch down with this error.
    Fail { error: TunnelError },
    /// Nothing; keep waiting.
    Wait,
}

/// How the authentication handshake came out.
#[derive(Clone, Copy, Debug, PartialEq, Eq, Structural)]
pub enum AuthOutcome {
    Accepted,
    Rejected,
    TimedOut,
}

/// What can happen while the epoch is live.
#[derive(Clone, Copy, Debug, PartialEq, Eq, Structural)]
pub enum RunEvent {
    /// A requested stream open failed at the transport.
    StreamOpenFailed,
    /// A requested stream open succeeded and was handed over.
    StreamOpened,
    /// A stats request arrived.
    StatsRequested,
    /// The request channel closed: every handle was dropped.
    RequestChannelClosed,
    /// The VPN relay terminated with an error.
    RelayFailed,
    /// The periodic watchdog probe failed.
    WatchdogProbeFailed,
    /// The periodic watchdog probe succeeded.
    WatchdogProbeSucceeded,
}

/// Begins one epoch: the published exit descriptor is cleared before
/// anything else, so stats read the absent state until this epoch fully
/// succeeds.
pub fn epoch_begin() -> (r: (EpochPhase, EpochAction))
    ensures
        r == (EpochPhase::FetchingExits, EpochAction::ClearExitAndFetch),
{
    (EpochPhase::FetchingExits, EpochAction::ClearExitAndFetch)
}

/// The exit list arrived.  An empty list ends the epoch; otherwise the
/// exit nearest the requested hostname is chosen — ties to the first
/// listed — and the connection race begins.
pub fn epoch_exits_fetched(
    ph: EpochPhase,
    exits: &Vec<ExitDescriptor>,
    requested: &str,
    use_bridges: bool,
) -> (r: (EpochPhase, EpochAction))
    ensures
        !(ph is FetchingExits) ==> r == (ph, EpochAction::Wait),
        ph is FetchingExits && exits@.len() == 0 ==> r == (
            EpochPhase::Ended { error: TunnelError::NoExitsFound },
            EpochAction::Fail { error: TunnelError::NoExitsFound },
        ),
        ph is FetchingExits && exits@.len() > 0 ==> (r.0 matches EpochPhase::Racing { exit_index, state }
            && state == race_begin(use_bridges).0
            && r.1 == (EpochAction::StartRace { exit_index, first: race_begin(use_bridges).1 })
            && exit_index < exits@.len()
            && (forall|j: int| 0 <= j < exits@.len()
                ==> edit_distance(exits@[exit_index as int].hostname@, requested@)
                    <= edit_distance(#[trigger] exits@[j].hostname@, requested@))
            && (forall|j: int| 0 <= j < exit_index
                ==> edit_distance(#[trigger] exits@[j].hostname@, requested@)
                    > edit_distance(exits@[exit_index as int].hostname@, requested@))),
        !(r.1 is PublishExit),
{
    match ph {
        EpochPhase::FetchingExits => {
            match select_exit(exits, requested) {
                None => (
                    EpochPhase::Ended { error: TunnelError::NoExitsFound },
                    EpochAction::Fail { error: TunnelError::NoExitsFound },
                ),
                Some(exit_index) => {
                    let (state, first) = start_race(use_bridges);
                    (
                        EpochPhase::Racing { exit_index, state },
                        EpochAction::StartRace { exit_index, first },
                    )
                }
            }
        }
        _ => (ph, EpochAction::Wait),
    }
}

/// A collaborator fetch failed, or some other condition ended the epoch
/// outright.  An already-ended epoch absorbs it.
pub fn epoch_fatal(ph: EpochPhase, error: TunnelError) -> (r: (EpochPhase, EpochAction))
    ensures
        ph is Ended ==> r == (ph, EpochAction::Wait),
        !(ph is Ended) ==> r == (
            EpochPhase::Ended { error },
            EpochAction::Fail { error },
        ),
        !(r.1 is PublishExit),
{
    match ph {
        EpochPhase::Ended { .. } => (ph, EpochAction::Wait),
        _ => (EpochPhase::Ended { error }, EpochAction::Fail { error }),
    }
}

/// One race event.  Adoption moves the epoch into authentication; a race
/// failure ends the epoch; anything else keeps racing.
pub fn epoch_race_event(ph: EpochPhase, e: RaceEvent) -> (r: (EpochPhase, EpochAction))
    ensures
        !(ph is Racing) ==> r == (ph, EpochAction::Wait),
        ph matches EpochPhase::Racing { exit_index, state } ==> {
            let next = race_step(state, e).0;
            let act = race_step(state, e).1;
            &&& (next matches RaceState::Adopted { path }
                ==> r == (EpochPhase::Authenticating { exit_index }, EpochAction::StartAuth { path }))
            &&& (next matches RaceState::Failed { error }
                ==> r == (EpochPhase::Ended { error }, EpochAction::Fail { error }))
            &&& (!(next is Adopted) && !(next is Failed)
                ==> r == (EpochPhase::Racing { exit_index, state: next }, EpochAction::Race { action: act }))
        },
        !(r.1 is PublishExit),
{
    match ph {
        EpochPhase::Racing { exit_index, state } => {
            let (next, act) = advance_race(state, e);
            match next {
                RaceState::Adopted { path } => (
                    EpochPhase::Authenticating { exit_index },
                    EpochAction::StartAuth { path },
                ),
                RaceState::Failed { error } => (
                    EpochPhase::Ended { error },
                    EpochAction::Fail { error },
                ),
                _ => (
                    EpochPhase::Racing { exit_index, state: next },
                    EpochAction::Race { action: act },
                ),
            }
        }
        _ => (ph, EpochAction::Wait),
    }
}

/// The handshake's outcome.  The chosen exit is published if and only if
/// the handshake was accepted: before that, stats keep reading the absent
/// state set when the epoch began.
pub fn epoch_auth_result(ph: EpochPhase, outcome: AuthOutcome) -> (r: (EpochPhase, EpochAction))
    ensures
        !(ph is Authenticating) ==> r == (ph, EpochAction::Wait),
        ph matches EpochPhase::Authenticating { exit_index } ==> {
            &&& outcome == AuthOutcome::Accepted ==> r == (
                EpochPhase::Running { exit_index },
                EpochAction::PublishExit { exit_index },
            )
            &&& outcome == AuthOutcome::Rejected ==> r == (
                EpochPhase::Ended { error: TunnelError::AuthFailure },
                EpochAction::Fail { error: TunnelError::AuthFailure },
            )
            &&& outcome == AuthOutcome::TimedOut ==> r == (
                EpochPhase::Ended { error: TunnelError::AuthTimeout },
                EpochAction::Fail { error: TunnelError::AuthTimeout },
            )
        },
        (r.1 is PublishExit) <==> (ph is Authenticating && outcome == AuthOutcome::Accepted),
{
    match ph {
        EpochPhase::Authenticating { exit_index } => match outcome {
            AuthOutcome::Accepted => (
                EpochPhase::Running { exit_index },
                EpochAction::PublishExit { exit_index },
            ),
            AuthOutcome::Rejected => (
                EpochPhase::Ended { error: TunnelError::AuthFailure },
                EpochAction::Fail { error: TunnelError::AuthFailure },
            ),
            AuthOutcome::TimedOut => (
                EpochPhase::Ended { error: TunnelError::AuthTimeout },
                EpochAction::Fail { error: TunnelError::AuthTimeout },
            ),
        },
        _ => (ph, EpochAction::Wait),
    }
}

/// One event of the live epoch.  A failed stream open, a closed request
/// channel and a dead relay are fatal; a failed watchdog probe never is —
/// in every phase it leaves the state exactly as it was.
pub fn epoch_run_event(ph: EpochPhase, ev: RunEvent) -> (r: (EpochPhase, EpochAction))
    ensures
        !(ph is Running) ==> r == (ph, EpochAction::Wait),
        ph is Running ==> match ev {
            RunEvent::StreamOpenFailed => r == (
                EpochPhase::Ended { error: TunnelError::StreamOpenFailure },
                EpochAction::Fail { error: TunnelError::StreamOpenFailure },
            ),
            RunEvent::RequestChannelClosed => r == (
                EpochPhase::Ended { error: TunnelError::RequestChannelClosed },
                EpochAction::Fail { error: TunnelError::RequestChannelClosed },
            ),
            RunEvent::RelayFailed => r == (
                EpochPhase::Ended { error: TunnelError::TransportFailure },
                EpochAction::Fail { error: TunnelError::TransportFailure },
            ),
            RunEvent::StatsRequested => r == (ph, EpochAction::ReplyStats),
            RunEvent::StreamOpened => r == (ph, EpochAction::Wait),
            RunEvent::WatchdogProbeFailed => r == (ph, EpochAction::Wait),
            RunEvent::WatchdogProbeSucceeded => r == (ph, EpochAction::Wait),
        },
        ev == RunEvent::WatchdogProbeFailed ==> r.0 == ph,
        !(r.1 is PublishExit),
{
    match ph {
        EpochPhase::Running { .. } => match ev {
            RunEvent::StreamOpenFailed => (
                EpochPhase::Ended { error: TunnelError::StreamOpenFailure },
                EpochAction::Fail { error: TunnelError::StreamOpenFailure },
            ),
            RunEvent::RequestChannelClosed => (
                EpochPhase::Ended { error: TunnelError::RequestChannelClosed },
                EpochAction::Fail { error: TunnelError::RequestChannelClosed },
            ),
            RunEvent::RelayFailed => (
                EpochPhase::Ended { error: TunnelError::TransportFailure },
                EpochAction::Fail { error: TunnelError::TransportFailure },
            ),
            RunEvent::StatsRequested => (ph, EpochAction::ReplyStats),
            RunEvent::StreamOpened => (ph, EpochAction::Wait),
            RunEvent::WatchdogProbeFailed => (ph, EpochAction::Wait),
            RunEvent::WatchdogProbeSucceeded => (ph, EpochAction::Wait),
        },
        _ => (ph, EpochAction::Wait),
    }
}

/// What the supervisor decides: there is only one possibility.
#[derive(Clone, Copy, Debug, PartialEq, Eq, Structural)]
pub enum SupervisorDecision {
    /// Start a fresh epoch after this many seconds.
    RestartAfter { pause_secs: u64 },
}

/// The supervisor never gives up: whatever ended the epoch, the decision
/// is a fresh epoch after a one-second pause, so the handle stays usable
/// and a later request can succeed once a new epoch completes.
pub fn supervise(error: TunnelError) -> (r: SupervisorDecision)
    ensures
        r == (SupervisorDecision::RestartAfter { pause_secs: crate::RESTART_PAUSE_SECS }),
{
    SupervisorDecision::RestartAfter { pause_secs: crate::RESTART_PAUSE_SECS }
}

} // verus!
