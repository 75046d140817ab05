//! The periodic status telemetry: its start/stop guard and its message
//! format.
//!
//! The telemetry loop itself — timers, channels and the outbound push — is
//! the caller's. Here stand the exclusive flag that keeps at most one loop
//! active at a time, and the exact text that each report signs.

use crate::text::{append_decimal, bool_to_text, spec_bool_text, spec_decimal};
use vstd::prelude::*;
use vstd::string::StringExecFns;

verus! {

/// What a start request decides: spawn the polling loop, or report that one
/// is already running — a success, not an error.
#[derive(Clone, Copy, Debug, PartialEq, Eq)]
pub enum StartPollingOutcome {
    SpawnLoop,
    AlreadyRunning,
}

/// The exclusive flag guarding the telemetry polling loop, so that at most
/// one loop is active at a time.
#[derive(Clone, Copy, Debug, PartialEq, Eq)]
pub struct PollingGuard {
    pub is_started: bool,
}

/// The guard after a start request: a loop is running.
pub open spec fn spec_after_start(g: PollingGuard) -> PollingGuard {
    PollingGuard { is_started: true }
}

/// What a start request decides: spawn a loop only when none is running.
pub open spec fn spec_start_outcome(g: PollingGuard) -> StartPollingOutcome {
    if g.is_started {
        StartPollingOutcome::AlreadyRunning
    } else {
        StartPollingOutcome::SpawnLoop
    }
}

/// The guard after a stop request: no loop is running.
pub open spec fn spec_after_stop(g: PollingGuard) -> PollingGuard {
    PollingGuard { is_started: false }
}

impl PollingGuard {
    /// A guard with no loop running.
    pub fn new() -> (r: Self)
        ensures
            !r.is_started,
    {
        PollingGuard { is_started: false }
    }

    /// Requests a start: the caller spawns a loop exactly when the outcome
    /// says so, and either way a loop is running afterwards.
    pub fn start_polling(&mut self) -> (r: StartPollingOutcome)
        ensures
            *final(self) == spec_after_start(*old(self)),
            r == spec_start_outcome(*old(self)),
    {
        if self.is_started {
            StartPollingOutcome::AlreadyRunning
        } else {
            self.is_started = true;
            StartPollingOutcome::SpawnLoop
        }
    }

    /// Requests a stop: the running loop, if any, is to wind down.
    pub fn stop_polling(&mut self)
        ensures
            *final(self) == spec_after_stop(*old(self)),
    {
        self.is_started = false;
    }
}

/// Law: a second start while a loop runs reports it already running and
/// changes nothing, and a stop followed by a start spawns a fresh loop.
pub proof fn lemma_start_stop_idempotence(g: PollingGuard)
    ensures
        spec_start_outcome(spec_after_start(g)) == StartPollingOutcome::AlreadyRunning,
        spec_after_start(spec_after_start(g)) == spec_after_start(g),
        spec_start_outcome(spec_after_stop(g)) == StartPollingOutcome::SpawnLoop,
{
}

/// The comma-separated text that each telemetry report signs: version,
/// network, application id, user id, whether mining is active, and the
/// block height.
pub open spec fn spec_signable_message(
    app_version: Seq<char>,
    network: Seq<char>,
    app_id: Seq<char>,
    user_id: Seq<char>,
    is_mining_active: bool,
    block_height: u64,
) -> Seq<char> {
    app_version + ","@ + network + ","@ + app_id + ","@ + user_id + ","@ + spec_bool_text(
        is_mining_active,
    ) + ","@ + spec_decimal(block_height as nat)
}

/// Builds the text that a telemetry report signs.
pub fn signable_message(
    app_version: &str,
    network: &str,
    app_id: &str,
    user_id: &str,
    is_mining_active: bool,
    block_height: u64,
) -> (r: String)
    ensures
        r@ == spec_signable_message(
            app_version@,
            network@,
            app_id@,
            user_id@,
            is_mining_active,
            block_height,
        ),
{
    let mut r = String::new();
    r.append(app_version);
    r.append(",");
    r.append(network);
    r.append(",");
    r.append(app_id);
    r.append(",");
    r.append(user_id);
    r.append(",");
    r.append(bool_to_text(is_mining_active));
    r.append(",");
    append_decimal(&mut r, block_height);
    proof {
        assert(r@ =~= spec_signable_message(
            app_version@,
            network@,
            app_id@,
            user_id@,
            is_mining_active,
            block_height,
        ));
    }
    r
}

} // verus!
