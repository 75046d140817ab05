//! User-idle tracking.
//!
//! The listener watches the mouse position once a second: an unchanged
//! position accumulates idle time, a move resets it. Once the idle time
//! reaches the configured timeout the user counts as idle and mining may
//! begin; a later move brings the user back to active. Reading the input
//! device, the once-a-second timer and the event emission belong to the
//! caller; the decision per observation is here.

use vstd::prelude::*;
use vstd::string::StringExecFns;

verus! {

/// A change of the user's activity, to be announced to the application
/// shell.
#[derive(Clone, Copy, Debug, PartialEq, Eq)]
pub enum UserActivityEvent {
    Idle,
    Active,
}

/// The payload announcing a user-activity change.
#[derive(Clone, Debug)]
pub struct UserActivityEventPayload {
    pub event_type: String,
}

impl UserActivityEventPayload {
    /// The payload announcing that the user went idle.
    pub fn user_idle() -> (r: Self)
        ensures
            r.event_type@ == "user_idle"@,
    {
        UserActivityEventPayload { event_type: "user_idle".to_owned() }
    }

    /// The payload announcing that the user is active again.
    pub fn user_active() -> (r: Self)
        ensures
            r.event_type@ == "user_active"@,
    {
        UserActivityEventPayload { event_type: "user_active".to_owned() }
    }

    /// The payload for `event`.
    pub fn for_event(event: UserActivityEvent) -> (r: Self)
        ensures
            r.event_type@ == (match event {
                UserActivityEvent::Idle => "user_idle"@,
                UserActivityEvent::Active => "user_active"@,
            }),
    {
        match event {
            UserActivityEvent::Idle => Self::user_idle(),
            UserActivityEvent::Active => Self::user_active(),
        }
    }
}

/// The payload announcing how long until the user counts as idle.
#[derive(Clone, Debug)]
pub struct CurrentTimeoutDurationEventPayload {
    pub event_type: String,
    pub duration: u64,
}

impl CurrentTimeoutDurationEventPayload {
    /// The payload announcing `duration` seconds left until idle.
    pub fn new(duration: u64) -> (r: Self)
        ensures
            r.event_type@ == "current_timeout_duration"@,
            r.duration == duration,
    {
        CurrentTimeoutDurationEventPayload {
            event_type: "current_timeout_duration".to_owned(),
            duration,
        }
    }
}

/// The idle listener's state: whether it is listening, whether idle mining
/// has been initialized, the configured timeout, the accumulated idle
/// seconds, and the mouse position last seen.
#[derive(Clone, Copy, Debug, PartialEq, Eq)]
pub struct UserListener {
    pub is_listening: bool,
    pub is_mining_initialized: bool,
    pub timeout_secs: u64,
    pub timeout_counter_secs: u64,
    pub last_mouse_coords: (i32, i32),
}

/// What one observation decides: the event to announce, if any, and the
/// seconds left until the user counts as idle.
#[derive(Clone, Copy, Debug, PartialEq, Eq)]
pub struct IdleTick {
    pub event: Option<UserActivityEvent>,
    pub remaining_secs: u64,
}

/// The accumulated idle seconds after one observation: one more when the
/// mouse has not moved (stopping at the counter's ceiling), zero when it
/// has.
pub open spec fn spec_counter_after(l: UserListener, coords: (i32, i32)) -> u64 {
    if coords == l.last_mouse_coords {
        if l.timeout_counter_secs + 1 > u64::MAX {
            u64::MAX
        } else {
            (l.timeout_counter_secs + 1) as u64
        }
    } else {
        0
    }
}

/// The event one observation announces: Idle the moment the accumulated
/// idle time reaches the timeout while mining is uninitialized, Active the
/// moment it falls back under the timeout while mining is initialized.
pub open spec fn spec_tick_event(l: UserListener, coords: (i32, i32)) -> Option<UserActivityEvent> {
    if spec_counter_after(l, coords) >= l.timeout_secs && !l.is_mining_initialized {
        Some(UserActivityEvent::Idle)
    } else if spec_counter_after(l, coords) < l.timeout_secs && l.is_mining_initialized {
        Some(UserActivityEvent::Active)
    } else {
        None
    }
}

impl UserListener {
    /// A listener that is not yet listening.
    pub fn new() -> (r: Self)
        ensures
            !r.is_listening,
            !r.is_mining_initialized,
            r.timeout_secs == 0,
            r.timeout_counter_secs == 0,
            r.last_mouse_coords == (0i32, 0i32),
    {
        UserListener {
            is_listening: false,
            is_mining_initialized: false,
            timeout_secs: 0,
            timeout_counter_secs: 0,
            last_mouse_coords: (0, 0),
        }
    }

    /// Begins listening: the timeout is set, the idle time starts at zero,
    /// and the given mouse position is the reference for the first
    /// observation.
    pub fn start_listening(&mut self, timeout_secs: u64, initial_coords: (i32, i32))
        ensures
            final(self).is_listening,
            final(self).is_mining_initialized == old(self).is_mining_initialized,
            final(self).timeout_secs == timeout_secs,
            final(self).timeout_counter_secs == 0,
            final(self).last_mouse_coords == initial_coords,
    {
        self.is_listening = true;
        self.timeout_secs = timeout_secs;
        self.timeout_counter_secs = 0;
        self.last_mouse_coords = initial_coords;
    }

    /// One observation of the mouse position: accumulates or resets the
    /// idle time, announces an Idle or Active change when one happens, and
    /// reports the seconds left until idle.
    pub fn observe_mouse(&mut self, coords: (i32, i32)) -> (r: IdleTick)
        ensures
            final(self).is_listening == old(self).is_listening,
            final(self).timeout_secs == old(self).timeout_secs,
            final(self).last_mouse_coords == coords,
            final(self).timeout_counter_secs == spec_counter_after(*old(self), coords),
            r.event == spec_tick_event(*old(self), coords),
            final(self).is_mining_initialized == (match r.event {
                Some(UserActivityEvent::Idle) => true,
                Some(UserActivityEvent::Active) => false,
                None => old(self).is_mining_initialized,
            }),
            r.remaining_secs == (if old(self).timeout_secs >= spec_counter_after(
                *old(self),
                coords,
            ) {
                old(self).timeout_secs - spec_counter_after(*old(self), coords)
            } else {
                0
            }),
    {
        if coords.0 == self.last_mouse_coords.0 && coords.1 == self.last_mouse_coords.1 {
            self.timeout_counter_secs = self.timeout_counter_secs.saturating_add(1);
        } else {
            self.last_mouse_coords = coords;
            self.timeout_counter_secs = 0;
        }
        let mut event: Option<UserActivityEvent> = None;
        if self.timeout_counter_secs >= self.timeout_secs && !self.is_mining_initialized {
            event = Some(UserActivityEvent::Idle);
            self.is_mining_initialized = true;
        } else if self.timeout_counter_secs < self.timeout_secs && self.is_mining_initialized {
            event = Some(UserActivityEvent::Active);
            self.is_mining_initialized = false;
        }
        IdleTick {
            event,
            remaining_secs: self.timeout_secs.saturating_sub(self.timeout_counter_secs),
        }
    }

    /// The listening loop was cancelled: whether an Active change is still
    /// owed to the application shell, mining being initialized.
    pub fn on_cancelled(&mut self) -> (r: bool)
        ensures
            r == old(self).is_mining_initialized,
            !final(self).is_mining_initialized,
            final(self).is_listening == old(self).is_listening,
            final(self).timeout_secs == old(self).timeout_secs,
            final(self).timeout_counter_secs == old(self).timeout_counter_secs,
            final(self).last_mouse_coords == old(self).last_mouse_coords,
    {
        let was_initialized = self.is_mining_initialized;
        self.is_mining_initialized = false;
        was_initialized
    }

    /// A stop request was accepted: the listener no longer counts as
    /// listening.
    pub fn stop_listening(&mut self)
        ensures
            !final(self).is_listening,
            final(self).is_mining_initialized == old(self).is_mining_initialized,
            final(self).timeout_secs == old(self).timeout_secs,
            final(self).timeout_counter_secs == old(self).timeout_counter_secs,
            final(self).last_mouse_coords == old(self).last_mouse_coords,
    {
        self.is_listening = false;
    }
}

} // verus!
