//! The telemetry snapshot, what a poll of the device brings, and the poller's
//! rule for telling a lost link from a noisy one.

use vstd::prelude::*;

verus! {

/// After how many failed polls in a row the poller acts.
pub const ERROR_THRESHOLD: u32 = 3;

/// Seconds to pause after a reconnect has failed.
pub const RECONNECT_FAILED_PAUSE_SECS: u64 = 5;

/// Seconds to pause when polls fail although a link is held.
pub const NOISY_LINK_PAUSE_SECS: u64 = 2;

/// The latest known state of the bike.
#[derive(Clone, Copy, Debug, PartialEq, Eq, Structural)]
pub struct BikeData {
    /// Speed in hundredths of a kilometre per hour.
    pub speed: u32,
    /// Cadence in revolutions per minute.
    pub rpm: u16,
    /// The power setpoint in watts, as last written with success.
    pub power: u16,
    /// Whether the device is taken to be reachable.
    pub connected: bool,
}

/// What one poll of the device brought. A value that the device did not report is `None`.
#[derive(Clone, Copy, Debug, PartialEq, Eq, Structural)]
pub struct TelemetryReading {
    /// Speed in the device's unit, tenths of a kilometre per hour.
    pub speed: Option<u16>,
    /// Cadence in revolutions per minute.
    pub rpm: Option<u16>,
    /// The setpoint as the device echoes it, in watts.
    pub power_target: Option<u16>,
}

impl BikeData {
    /// The snapshot after a poll that brought `reading`: speed and cadence are
    /// taken from it, 0 where the device reported none, and the device counts as
    /// reachable. The setpoint stays as it was last written: the echo does not
    /// replace it.
    pub open spec fn after_reading(self, reading: TelemetryReading) -> BikeData {
        BikeData {
            speed: match reading.speed {
                Some(tenths) => (tenths * 10) as u32,
                None => 0,
            },
            rpm: match reading.rpm {
                Some(rpm) => rpm,
                None => 0,
            },
            power: self.power,
            connected: true,
        }
    }

    /// Takes a reading into the snapshot.
    pub fn apply_reading(&mut self, reading: &TelemetryReading)
        ensures
            *final(self) == old(self).after_reading(*reading),
    {
        self.speed = match reading.speed {
            Some(tenths) => tenths as u32 * 10,
            None => 0,
        };
        self.rpm = match reading.rpm {
            Some(rpm) => rpm,
            None => 0,
        };
        self.connected = true;
    }
}

/// What the polling loop is to do after a poll or a reconnect.
#[derive(Clone, Copy, Debug, PartialEq, Eq, Structural)]
pub enum PollAction {
    /// Go on with the next tick.
    Continue,
    /// The link is gone: call for a reconnect and report how it went.
    Reconnect,
    /// Wait this long before the next tick.
    Pause { secs: u64 },
}

/// The count of failed polls in a row after one more failure: it stops at the
/// largest value a `u32` can hold.
pub open spec fn one_more_error(errors: nat) -> nat {
    if errors < u32::MAX {
        errors + 1
    } else {
        errors
    }
}

/// What a failed poll leads to, given the count of failures before it and
/// whether a link is held. Below the threshold nothing happens. At the
/// threshold a missing link calls for a reconnect, while a link that is held
/// only earns a short pause.
pub open spec fn failure_action(errors: nat, link_held: bool) -> PollAction {
    if one_more_error(errors) < ERROR_THRESHOLD {
        PollAction::Continue
    } else if link_held {
        PollAction::Pause { secs: NOISY_LINK_PAUSE_SECS }
    } else {
        PollAction::Reconnect
    }
}

/// The count of failures after a failed poll: with a link held the count starts
/// again from 0 once the threshold is reached, else the failure is counted.
pub open spec fn errors_after_failure(errors: nat, link_held: bool) -> nat {
    if one_more_error(errors) >= ERROR_THRESHOLD && link_held {
        0
    } else {
        one_more_error(errors)
    }
}

/// The poller's memory: how many polls have failed in a row.
#[derive(Clone, Copy, Debug, PartialEq, Eq, Structural)]
pub struct TelemetryPoller {
    consecutive_errors: u32,
}

impl TelemetryPoller {
    /// How many polls have failed in a row.
    pub closed spec fn errors(self) -> nat {
        self.consecutive_errors as nat
    }

    /// No poll has failed yet.
    pub fn new() -> (poller: Self)
        ensures
            poller.errors() == 0,
    {
        TelemetryPoller { consecutive_errors: 0 }
    }

    /// How many polls have failed in a row.
    pub fn consecutive_errors(&self) -> (errors: u32)
        ensures
            errors == self.errors(),
    {
        self.consecutive_errors
    }

    /// A poll went well.
    pub fn record_success(&mut self)
        ensures
            final(self).errors() == 0,
    {
        self.consecutive_errors = 0;
    }

    /// A poll failed. `link_held` says whether a link is held at this moment.
    pub fn record_failure(&mut self, link_held: bool) -> (action: PollAction)
        ensures
            action == failure_action(old(self).errors(), link_held),
            final(self).errors() == errors_after_failure(old(self).errors(), link_held),
    {
        if self.consecutive_errors < u32::MAX {
            self.consecutive_errors += 1;
        }
        if self.consecutive_errors < ERROR_THRESHOLD {
            PollAction::Continue
        } else if link_held {
            self.consecutive_errors = 0;
            PollAction::Pause { secs: NOISY_LINK_PAUSE_SECS }
        } else {
            PollAction::Reconnect
        }
    }

    /// The reconnect that the poller called for is over. After a success the
    /// count starts again from 0; after a failure it stays, and the loop pauses.
    pub fn record_reconnect(&mut self, succeeded: bool) -> (action: PollAction)
        ensures
            action == (if succeeded {
                PollAction::Continue
            } else {
                PollAction::Pause { secs: RECONNECT_FAILED_PAUSE_SECS }
            }),
            final(self).errors() == (if succeeded {
                0
            } else {
                old(self).errors()
            }),
    {
        if succeeded {
            self.consecutive_errors = 0;
            PollAction::Continue
        } else {
            PollAction::Pause { secs: RECONNECT_FAILED_PAUSE_SECS }
        }
    }
}

/// The poller never acts on fewer than three failures in a row, and it never
/// gives up a link that is held: a reconnect is called for only without one.
pub proof fn lemma_poller_policy(errors: nat, link_held: bool)
    ensures
        errors + 1 < ERROR_THRESHOLD ==> failure_action(errors, link_held) == PollAction::Continue
            && errors_after_failure(errors, link_held) == errors + 1,
        failure_action(errors, link_held) == PollAction::Reconnect ==> !link_held,
        link_held && errors + 1 >= ERROR_THRESHOLD ==> failure_action(errors, link_held) == (
        PollAction::Pause { secs: NOISY_LINK_PAUSE_SECS }) && errors_after_failure(errors, link_held)
            == 0,
        !link_held && errors + 1 >= ERROR_THRESHOLD ==> failure_action(errors, link_held)
            == PollAction::Reconnect,
{
}

} // verus!
