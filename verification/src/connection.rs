//! The connection supervisor: whether a link to the device is held, how often a
//! reconnect has been tried, and the order of scans and connects that one
//! connection attempt goes through.
//!
//! Nothing here touches the device. The caller performs each action that is
//! handed out and reports back what happened.

use vstd::prelude::*;
use vstd::arithmetic::power2::lemma2_to64;
use vstd::arithmetic::power2::lemma_pow2_unfold;
use vstd::arithmetic::power2::pow2;
use crate::error::ControlError;

verus! {

/// How many reconnects in a row are tried before the counter resets itself.
pub const MAX_RECONNECT_ATTEMPTS: u32 = 5;

/// How many scans one connection attempt makes before it gives up.
pub const MAX_SCANS: u32 = 5;

/// How often one connection attempt tries to connect to the chosen device.
pub const MAX_CONNECT_TRIES: u32 = 2;

/// How many connection attempts are made at startup with a doubling delay.
pub const INITIAL_ATTEMPTS: u32 = 5;

/// Milliseconds to wait after an old link was dropped.
pub const LINK_RELEASE_MILLIS: u64 = 500;

/// Seconds to wait between finding a device and connecting to it.
pub const DEVICE_SETTLE_SECS: u64 = 3;

/// Seconds to wait before the second try to connect.
pub const CONNECT_RETRY_SECS: u64 = 2;

/// Seconds between connection attempts once the attempts at startup are used up.
pub const FALLBACK_PERIOD_SECS: u64 = 30;

/// What the supervisor knows of the link: whether one is held, and how many
/// reconnects have been tried since the last success.
#[derive(Clone, Copy, Debug, PartialEq, Eq, Structural)]
pub struct ConnectionState {
    link_held: bool,
    reconnect_attempts: u32,
}

/// What a call for a reconnect leads to.
#[derive(Clone, Copy, Debug, PartialEq, Eq, Structural)]
pub enum ReconnectStep {
    /// A link is held already: there is nothing to do.
    AlreadyConnected,
    /// A connection attempt is due; this is its number since the last success.
    Attempt(u32),
}

/// The counter after a call for a reconnect.
pub open spec fn attempts_after_reconnect(connected: bool, attempts: nat) -> nat {
    if connected {
        attempts
    } else if attempts >= MAX_RECONNECT_ATTEMPTS {
        0
    } else {
        attempts + 1
    }
}

/// The answer to a call for a reconnect.
pub open spec fn reconnect_outcome(connected: bool, attempts: nat) -> Result<ReconnectStep, ControlError> {
    if connected {
        Ok(ReconnectStep::AlreadyConnected)
    } else if attempts >= MAX_RECONNECT_ATTEMPTS {
        Err(ControlError::RetryExhausted)
    } else {
        Ok(ReconnectStep::Attempt((attempts + 1) as u32))
    }
}

impl ConnectionState {
    /// Whether a link is held.
    pub closed spec fn connected(self) -> bool {
        self.link_held
    }

    /// How many reconnects have been tried since the last success.
    pub closed spec fn attempts(self) -> nat {
        self.reconnect_attempts as nat
    }

    /// The counter never exceeds the ceiling.
    pub open spec fn wf(self) -> bool {
        self.attempts() <= MAX_RECONNECT_ATTEMPTS
    }

    /// No link, and nothing tried yet.
    pub fn new() -> (state: Self)
        ensures
            state.wf(),
            !state.connected(),
            state.attempts() == 0,
    {
        ConnectionState { link_held: false, reconnect_attempts: 0 }
    }

    /// Whether a link is held.
    pub fn is_connected(&self) -> (held: bool)
        ensures
            held == self.connected(),
    {
        self.link_held
    }

    /// How many reconnects have been tried since the last success.
    pub fn reconnect_attempts(&self) -> (attempts: u32)
        ensures
            attempts == self.attempts(),
    {
        self.reconnect_attempts
    }

    /// Decides what a call for a reconnect does. With a link held it does
    /// nothing. Without one it counts the attempt; the attempt that would pass
    /// the ceiling resets the counter to 0 and fails, so that the caller backs off.
    pub fn begin_reconnect(&mut self) -> (outcome: Result<ReconnectStep, ControlError>)
        requires
            old(self).wf(),
        ensures
            final(self).wf(),
            final(self).connected() == old(self).connected(),
            final(self).attempts() == attempts_after_reconnect(
                old(self).connected(),
                old(self).attempts(),
            ),
            outcome == reconnect_outcome(old(self).connected(), old(self).attempts()),
    {
        if self.link_held {
            return Ok(ReconnectStep::AlreadyConnected);
        }
        if self.reconnect_attempts >= MAX_RECONNECT_ATTEMPTS {
            self.reconnect_attempts = 0;
            return Err(ControlError::RetryExhausted);
        }
        self.reconnect_attempts += 1;
        Ok(ReconnectStep::Attempt(self.reconnect_attempts))
    }

    /// Records that the link was dropped.
    pub fn link_released(&mut self)
        ensures
            !final(self).connected(),
            final(self).attempts() == old(self).attempts(),
    {
        self.link_held = false;
    }

    /// Records that a link was established: the counter starts again from 0.
    pub fn link_established(&mut self)
        ensures
            final(self).wf(),
            final(self).connected(),
            final(self).attempts() == 0,
    {
        self.link_held = true;
        self.reconnect_attempts = 0;
    }
}

/// What the caller is to do next in a connection attempt.
#[derive(Clone, Copy, Debug, PartialEq, Eq, Structural)]
pub enum ConnectAction {
    /// Drop the old handle, then wait for the link layer to let go of it.
    ReleaseLink { settle_millis: u64 },
    /// Wait, then scan for devices.
    Scan { delay_secs: u64 },
    /// Wait, then connect to the device at `device_index` of the last scan that found any.
    Connect { device_index: usize, delay_secs: u64 },
    /// The session that the last connect gave is the new link.
    Established,
    /// The attempt is over, and no link was made.
    Failed(ControlError),
}

/// What the caller reports back.
#[derive(Clone, Copy, Debug, PartialEq, Eq, Structural)]
pub enum ConnectEvent {
    /// The old handle is gone and the settle time is over.
    LinkReleased,
    /// A scan is over. `devices` is how many it found: 0 also where it failed.
    Scanned { devices: usize },
    /// The device accepted the session.
    Connected,
    /// The device did not accept the session.
    Refused,
}

/// Seconds to wait before scan number `scan`, counted from 1: none before the
/// first, then one more before each further scan.
pub open spec fn scan_delay_secs(scan: nat) -> nat {
    if scan <= 1 {
        0
    } else {
        (2 + scan) as nat
    }
}

/// One attempt to connect: the action that is due, and how many scans and
/// connects have been handed out so far.
#[derive(Clone, Copy, Debug, PartialEq, Eq, Structural)]
pub struct ConnectAttempt {
    pending: ConnectAction,
    scans: u32,
    connects: u32,
}

/// What a `ConnectAttempt` stands for.
pub struct AttemptView {
    /// The action that is due.
    pub action: ConnectAction,
    /// How many scans have been handed out so far.
    pub scans: nat,
    /// How many connects have been handed out so far.
    pub connects: nat,
}

impl View for ConnectAttempt {
    type V = AttemptView;

    closed spec fn view(&self) -> AttemptView {
        AttemptView {
            action: self.pending,
            scans: self.scans as nat,
            connects: self.connects as nat,
        }
    }
}

impl AttemptView {
    /// The attempt as it begins: an old link is released first, else the first
    /// scan starts at once.
    pub open spec fn begun(link_held: bool) -> AttemptView {
        if link_held {
            AttemptView {
                action: ConnectAction::ReleaseLink { settle_millis: LINK_RELEASE_MILLIS },
                scans: 0,
                connects: 0,
            }
        } else {
            AttemptView { action: ConnectAction::Scan { delay_secs: 0 }, scans: 1, connects: 0 }
        }
    }

    /// Whether `event` is an answer to the action that is due.
    pub open spec fn answers(self, event: ConnectEvent) -> bool {
        match (self.action, event) {
            (ConnectAction::ReleaseLink { .. }, ConnectEvent::LinkReleased) => true,
            (ConnectAction::Scan { .. }, ConnectEvent::Scanned { .. }) => true,
            (ConnectAction::Connect { .. }, ConnectEvent::Connected) => true,
            (ConnectAction::Connect { .. }, ConnectEvent::Refused) => true,
            _ => false,
        }
    }

    /// Whether the attempt is over.
    pub open spec fn finished(self) -> bool {
        self.action is Established || self.action is Failed
    }

    /// The counts are within their limits and fit the action that is due.
    pub open spec fn wf(self) -> bool {
        match self.action {
            ConnectAction::ReleaseLink { settle_millis } => {
                &&& settle_millis == LINK_RELEASE_MILLIS
                &&& self.scans == 0
                &&& self.connects == 0
            },
            ConnectAction::Scan { delay_secs } => {
                &&& 1 <= self.scans <= MAX_SCANS
                &&& self.connects == 0
                &&& delay_secs == scan_delay_secs(self.scans)
            },
            ConnectAction::Connect { delay_secs, .. } => {
                &&& 1 <= self.scans <= MAX_SCANS
                &&& 1 <= self.connects <= MAX_CONNECT_TRIES
                &&& delay_secs == (if self.connects == 1 {
                    DEVICE_SETTLE_SECS
                } else {
                    CONNECT_RETRY_SECS
                })
            },
            ConnectAction::Established => {
                &&& 1 <= self.scans <= MAX_SCANS
                &&& 1 <= self.connects <= MAX_CONNECT_TRIES
            },
            ConnectAction::Failed(error) => {
                ||| error == ControlError::DiscoveryFailed && self.scans == MAX_SCANS
                    && self.connects == 0
                ||| error == ControlError::ConnectFailed && 1 <= self.scans <= MAX_SCANS
                    && self.connects == MAX_CONNECT_TRIES
            },
        }
    }

    /// The attempt after `event`. An event that does not answer the action that
    /// is due changes nothing.
    ///
    /// After the release the first scan starts at once. A scan that found
    /// nothing is followed by the next scan, after a delay that grows by a
    /// second each time, until the limit of scans is reached: then discovery has
    /// failed. A scan that found devices is followed, after a settle time, by a
    /// connect to the last device that it reported. One refused connect is
    /// tried again after a short delay; the second refusal fails the attempt.
    pub open spec fn next(self, event: ConnectEvent) -> AttemptView {
        match (self.action, event) {
            (ConnectAction::ReleaseLink { .. }, ConnectEvent::LinkReleased) => AttemptView {
                action: ConnectAction::Scan { delay_secs: 0 },
                scans: 1,
                connects: 0,
            },
            (ConnectAction::Scan { .. }, ConnectEvent::Scanned { devices }) => {
                if devices > 0 {
                    AttemptView {
                        action: ConnectAction::Connect {
                            device_index: (devices - 1) as usize,
                            delay_secs: DEVICE_SETTLE_SECS,
                        },
                        scans: self.scans,
                        connects: 1,
                    }
                } else if self.scans < MAX_SCANS {
                    AttemptView {
                        action: ConnectAction::Scan {
                            delay_secs: scan_delay_secs(self.scans + 1) as u64,
                        },
                        scans: self.scans + 1,
                        connects: 0,
                    }
                } else {
                    AttemptView {
                        action: ConnectAction::Failed(ControlError::DiscoveryFailed),
                        ..self
                    }
                }
            },
            (ConnectAction::Connect { .. }, ConnectEvent::Connected) => AttemptView {
                action: ConnectAction::Established,
                ..self
            },
            (ConnectAction::Connect { device_index, .. }, ConnectEvent::Refused) => {
                if self.connects < MAX_CONNECT_TRIES {
                    AttemptView {
                        action: ConnectAction::Connect {
                            device_index,
                            delay_secs: CONNECT_RETRY_SECS,
                        },
                        scans: self.scans,
                        connects: self.connects + 1,
                    }
                } else {
                    AttemptView {
                        action: ConnectAction::Failed(ControlError::ConnectFailed),
                        ..self
                    }
                }
            },
            _ => self,
        }
    }

    /// An upper bound on the answers that the attempt can still take before it is over.
    pub open spec fn steps_left(self) -> nat {
        match self.action {
            ConnectAction::ReleaseLink { .. } => (MAX_SCANS + MAX_CONNECT_TRIES + 1) as nat,
            ConnectAction::Scan { .. } => (MAX_SCANS - self.scans + 1 + MAX_CONNECT_TRIES) as nat,
            ConnectAction::Connect { .. } => (MAX_CONNECT_TRIES - self.connects + 1) as nat,
            ConnectAction::Established => 0,
            ConnectAction::Failed(_) => 0,
        }
    }
}

impl ConnectAttempt {
    /// Begins an attempt. `link_held` says whether an old link has to go first.
    pub fn begin(link_held: bool) -> (attempt: Self)
        ensures
            attempt@ == AttemptView::begun(link_held),
            attempt@.wf(),
    {
        if link_held {
            ConnectAttempt {
                pending: ConnectAction::ReleaseLink { settle_millis: LINK_RELEASE_MILLIS },
                scans: 0,
                connects: 0,
            }
        } else {
            ConnectAttempt { pending: ConnectAction::Scan { delay_secs: 0 }, scans: 1, connects: 0 }
        }
    }

    /// The action that is due.
    pub fn pending(&self) -> (action: ConnectAction)
        ensures
            action == self@.action,
    {
        self.pending
    }

    /// Takes the caller's report and hands out the action that is due next.
    pub fn on_event(&mut self, event: ConnectEvent) -> (action: ConnectAction)
        requires
            old(self)@.wf(),
        ensures
            final(self)@.wf(),
            final(self)@ == old(self)@.next(event),
            action == final(self)@.action,
    {
        match (self.pending, event) {
            (ConnectAction::ReleaseLink { .. }, ConnectEvent::LinkReleased) => {
                self.pending = ConnectAction::Scan { delay_secs: 0 };
                self.scans = 1;
            },
            (ConnectAction::Scan { .. }, ConnectEvent::Scanned { devices }) => {
                if devices > 0 {
                    self.pending =
                    ConnectAction::Connect {
                        device_index: devices - 1,
                        delay_secs: DEVICE_SETTLE_SECS,
                    };
                    self.connects = 1;
                } else if self.scans < MAX_SCANS {
                    self.pending = ConnectAction::Scan { delay_secs: 3 + self.scans as u64 };
                    self.scans += 1;
                } else {
                    self.pending = ConnectAction::Failed(ControlError::DiscoveryFailed);
                }
            },
            (ConnectAction::Connect { .. }, ConnectEvent::Connected) => {
                self.pending = ConnectAction::Established;
            },
            (ConnectAction::Connect { device_index, .. }, ConnectEvent::Refused) => {
                if self.connects < MAX_CONNECT_TRIES {
                    self.pending =
                    ConnectAction::Connect { device_index, delay_secs: CONNECT_RETRY_SECS };
                    self.connects += 1;
                } else {
                    self.pending = ConnectAction::Failed(ControlError::ConnectFailed);
                }
            },
            _ => {},
        }
        self.pending
    }
}

/// An attempt begins within its limits, whether or not an old link is held.
pub proof fn lemma_connect_attempt_begins(link_held: bool)
    ensures
        AttemptView::begun(link_held).wf(),
        !AttemptView::begun(link_held).finished(),
{
}

/// Every event leaves an attempt within its limits, and an event that does not
/// answer the action that is due leaves it as it was.
pub proof fn lemma_connect_attempt_wf(attempt: AttemptView, event: ConnectEvent)
    requires
        attempt.wf(),
    ensures
        attempt.next(event).wf(),
        !attempt.answers(event) ==> attempt.next(event) == attempt,
{
}

/// Every attempt comes to an end: each answer to the action that is due uses up
/// at least one of a bounded number of steps, and an attempt with none left is over.
pub proof fn lemma_connect_attempt_ends(attempt: AttemptView, event: ConnectEvent)
    requires
        attempt.wf(),
    ensures
        attempt.steps_left() <= MAX_SCANS + MAX_CONNECT_TRIES + 1,
        attempt.steps_left() == 0 <==> attempt.finished(),
        attempt.answers(event) ==> attempt.next(event).steps_left() < attempt.steps_left(),
        attempt.finished() ==> attempt.next(event) == attempt,
{
}

/// The limits of one attempt: never more scans or connects than allowed, a
/// failure only when the limit in question is used up, and waits that follow
/// the schedule.
pub proof fn lemma_connect_limits(attempt: AttemptView)
    requires
        attempt.wf(),
    ensures
        attempt.scans <= MAX_SCANS,
        attempt.connects <= MAX_CONNECT_TRIES,
        attempt.action == ConnectAction::Failed(ControlError::DiscoveryFailed) ==> attempt.scans
            == MAX_SCANS && attempt.connects == 0,
        attempt.action == ConnectAction::Failed(ControlError::ConnectFailed) ==> attempt.connects
            == MAX_CONNECT_TRIES,
        attempt.action is Failed ==> attempt.action == ConnectAction::Failed(
            ControlError::DiscoveryFailed,
        ) || attempt.action == ConnectAction::Failed(ControlError::ConnectFailed),
        attempt.action is Established ==> attempt.connects >= 1,
        attempt.action matches ConnectAction::Scan { delay_secs } ==> delay_secs == scan_delay_secs(
            attempt.scans,
        ) && delay_secs <= 7,
{
}

/// Seconds to wait before the next connection attempt at startup, after
/// `failed` attempts have failed: none before the first, then 1 second doubled
/// with each failure, and the fallback period once the attempts at startup are
/// used up.
pub open spec fn startup_delay_secs(failed: nat) -> nat {
    if failed == 0 {
        0
    } else if failed < INITIAL_ATTEMPTS {
        pow2((failed - 1) as nat)
    } else {
        FALLBACK_PERIOD_SECS as nat
    }
}

/// The connection attempts at startup: how many have failed so far, counted up
/// to the number of attempts that are made with a doubling delay.
#[derive(Clone, Copy, Debug, PartialEq, Eq, Structural)]
pub struct InitialConnect {
    failed: u32,
}

impl InitialConnect {
    /// How many attempts have failed, counted up to `INITIAL_ATTEMPTS`.
    pub closed spec fn failures(self) -> nat {
        self.failed as nat
    }

    /// The count stops at the number of attempts at startup.
    pub open spec fn wf(self) -> bool {
        self.failures() <= INITIAL_ATTEMPTS
    }

    /// Nothing has been tried yet.
    pub fn new() -> (plan: Self)
        ensures
            plan.wf(),
            plan.failures() == 0,
    {
        InitialConnect { failed: 0 }
    }

    /// Whether the attempts at startup are used up, so that the fixed fallback period applies.
    pub fn in_fallback(&self) -> (fallback: bool)
        ensures
            fallback == (self.failures() >= INITIAL_ATTEMPTS),
    {
        self.failed >= INITIAL_ATTEMPTS
    }

    /// Seconds to wait before the next attempt.
    pub fn delay_before_attempt(&self) -> (secs: u64)
        requires
            self.wf(),
        ensures
            secs == startup_delay_secs(self.failures()),
    {
        if self.failed == 0 {
            return 0;
        }
        if self.failed >= INITIAL_ATTEMPTS {
            return FALLBACK_PERIOD_SECS;
        }
        let mut secs: u64 = 1;
        let mut doubled: u32 = 1;
        proof {
            lemma2_to64();
        }
        while doubled < self.failed
            invariant
                1 <= doubled <= self.failed < INITIAL_ATTEMPTS,
                secs == pow2((doubled - 1) as nat),
                secs <= 16,
            decreases self.failed - doubled,
        {
            proof {
                lemma_pow2_unfold(doubled as nat);
                lemma2_to64();
            }
            secs = secs * 2;
            doubled += 1;
        }
        secs
    }

    /// Records that an attempt has failed.
    pub fn attempt_failed(&mut self)
        requires
            old(self).wf(),
        ensures
            final(self).wf(),
            final(self).failures() == (if old(self).failures() < INITIAL_ATTEMPTS {
                old(self).failures() + 1
            } else {
                old(self).failures()
            }),
    {
        if self.failed < INITIAL_ATTEMPTS {
            self.failed += 1;
        }
    }
}

/// The delays at startup: none before the first attempt, then 1, 2, 4 and 8
/// seconds, each the double of the one before, and 30 seconds from then on.
pub proof fn lemma_startup_delays()
    ensures
        startup_delay_secs(0) == 0,
        startup_delay_secs(1) == 1,
        startup_delay_secs(2) == 2,
        startup_delay_secs(3) == 4,
        startup_delay_secs(4) == 8,
        forall|failed: nat|
            1 <= failed && failed + 1 < INITIAL_ATTEMPTS ==> #[trigger] startup_delay_secs(failed + 1)
                == 2 * startup_delay_secs(failed),
        forall|failed: nat|
            failed >= INITIAL_ATTEMPTS ==> #[trigger] startup_delay_secs(failed)
                == FALLBACK_PERIOD_SECS,
{
    lemma2_to64();
    assert forall|failed: nat| 1 <= failed && failed + 1 < INITIAL_ATTEMPTS implies #[trigger] startup_delay_secs(
        failed + 1,
    ) == 2 * startup_delay_secs(failed) by {
        lemma_pow2_unfold(failed);
    }
}

} // verus!
