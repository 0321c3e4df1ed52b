//! The service around a real device: one object that holds the link state, the
//! telemetry snapshot, the poller's memory, the catalog and the running program,
//! and that changes them only through checked operations.
//!
//! The device itself stays with the caller. An operation that needs the device
//! says so in what it returns, and the caller reports back what the device did.

use vstd::prelude::*;
use crate::connection::attempts_after_reconnect;
use crate::connection::reconnect_outcome;
use crate::connection::AttemptView;
use crate::connection::ConnectAttempt;
use crate::connection::ConnectionState;
use crate::connection::ReconnectStep;
use crate::connection::MAX_RECONNECT_ATTEMPTS;
use crate::error::ControlError;
use crate::program_store::catalog_wf;
use crate::program_store::create_outcome;
use crate::program_store::delete_outcome;
use crate::program_store::is_listing;
use crate::program_store::update_outcome;
use crate::scheduler::active_id;
use crate::scheduler::running_after_tick;
use crate::scheduler::running_wf;
use crate::scheduler::start_outcome;
use crate::scheduler::tick_outcome;
use crate::scheduler::ProgramScheduler;
use crate::scheduler::TickOutcome;
use crate::telemetry::errors_after_failure;
use crate::telemetry::failure_action;
use crate::telemetry::BikeData;
use crate::telemetry::PollAction;
use crate::telemetry::TelemetryPoller;
use crate::telemetry::TelemetryReading;
use crate::telemetry::RECONNECT_FAILED_PAUSE_SECS;
use crate::training_program::ExecutionView;
use crate::training_program::ProgramExecutionState;
use crate::training_program::ProgramView;
use crate::training_program::TrainingProgram;

verus! {

/// The lowest setpoint, in watts, that the device is asked for.
pub const MIN_POWER: u16 = 0;

/// The highest setpoint, in watts, that the device is asked for.
pub const MAX_POWER: u16 = 400;

/// The state of the service.
pub struct BikeController {
    connection: ConnectionState,
    poller: TelemetryPoller,
    data: BikeData,
    programs: ProgramScheduler,
}

/// What a `BikeController` stands for.
pub struct ControllerView {
    /// Whether a link to the device is held.
    pub link_held: bool,
    /// Reconnects tried since the last success.
    pub reconnect_attempts: nat,
    /// Polls that have failed in a row.
    pub poll_errors: nat,
    /// The telemetry snapshot.
    pub data: BikeData,
    /// The stored programs by id.
    pub catalog: Map<Seq<char>, ProgramView>,
    /// The state of the running program, if one runs.
    pub running: Option<ExecutionView>,
}

impl ControllerView {
    /// The invariant of the service: the reconnect counter is within its
    /// ceiling, every stored program is valid, and a running program is under
    /// way, on schedule and unchanged in the catalog.
    pub open spec fn wf(self) -> bool {
        &&& self.reconnect_attempts <= MAX_RECONNECT_ATTEMPTS
        &&& catalog_wf(self.catalog)
        &&& (self.running matches Some(state) ==> running_wf(self.catalog, state))
    }

    /// The service with another snapshot.
    pub open spec fn with_data(self, data: BikeData) -> ControllerView {
        ControllerView { data, ..self }
    }
}

/// What a request for the setpoint `level` is answered with: a level above the
/// range is refused whatever else holds, then a missing link.
pub open spec fn power_outcome(level: u16, link_held: bool) -> Result<(), ControlError> {
    if level > MAX_POWER {
        Err(ControlError::ValidationError)
    } else if !link_held {
        Err(ControlError::NoActiveLink)
    } else {
        Ok(())
    }
}

/// What a request to start the program `id` is answered with: the scheduler's
/// answer first, then the answer to the setpoint of the first interval.
pub open spec fn start_program_outcome(service: ControllerView, id: Seq<char>) -> Result<
    (),
    ControlError,
> {
    match start_outcome(service.catalog, service.running, id) {
        Err(error) => Err(error),
        Ok(_) => power_outcome(
            service.catalog[id].started().current_power_target as u16,
            service.link_held,
        ),
    }
}

/// The service after a poll. A poll that brought a reading over a link that is
/// held is a success. Any other poll is a failure: it is counted, and where it
/// calls for a reconnect the device is marked as unreachable.
pub open spec fn after_poll(service: ControllerView, reading: Option<TelemetryReading>) -> ControllerView {
    match reading {
        Some(r) if service.link_held => ControllerView {
            data: service.data.after_reading(r),
            poll_errors: 0,
            ..service
        },
        _ => ControllerView {
            poll_errors: errors_after_failure(service.poll_errors, service.link_held),
            data: if failure_action(service.poll_errors, service.link_held) == PollAction::Reconnect {
                BikeData { connected: false, ..service.data }
            } else {
                service.data
            },
            ..service
        },
    }
}

/// What the polling loop is to do after a poll.
pub open spec fn poll_action(service: ControllerView, reading: Option<TelemetryReading>) -> PollAction {
    match reading {
        Some(r) if service.link_held => PollAction::Continue,
        _ => failure_action(service.poll_errors, service.link_held),
    }
}

impl View for BikeController {
    type V = ControllerView;

    closed spec fn view(&self) -> ControllerView {
        ControllerView {
            link_held: self.connection.connected(),
            reconnect_attempts: self.connection.attempts(),
            poll_errors: self.poller.errors(),
            data: self.data,
            catalog: self.programs.catalog(),
            running: self.programs.running(),
        }
    }
}

impl BikeController {
    /// The catalog's own representation is in order.
    pub closed spec fn store_wf(self) -> bool {
        self.programs.store_wf()
    }

    /// The invariant of the service.
    pub open spec fn wf(self) -> bool {
        &&& self.store_wf()
        &&& self@.wf()
    }

    /// The service as it starts: no link, nothing measured, nothing stored,
    /// nothing running.
    pub fn new() -> (service: Self)
        ensures
            service.wf(),
            service@ == (ControllerView {
                link_held: false,
                reconnect_attempts: 0,
                poll_errors: 0,
                data: BikeData { speed: 0, rpm: 0, power: 0, connected: false },
                catalog: Map::empty(),
                running: None,
            }),
    {
        BikeController {
            connection: ConnectionState::new(),
            poller: TelemetryPoller::new(),
            data: BikeData { speed: 0, rpm: 0, power: 0, connected: false },
            programs: ProgramScheduler::new(),
        }
    }

    /// The telemetry snapshot.
    pub fn get_data(&self) -> (data: BikeData)
        ensures
            data == self@.data,
    {
        self.data
    }

    /// The setpoint in the snapshot, in watts.
    pub fn get_power(&self) -> (power: u16)
        ensures
            power == self@.data.power,
    {
        self.data.power
    }

    /// Whether a link to the device is held.
    pub fn is_connected(&self) -> (held: bool)
        ensures
            held == self@.link_held,
    {
        self.connection.is_connected()
    }

    /// Reconnects tried since the last success.
    pub fn reconnect_attempts(&self) -> (attempts: u32)
        ensures
            attempts == self@.reconnect_attempts,
    {
        self.connection.reconnect_attempts()
    }

    /// Answers a request for a new setpoint. On `Ok` the snapshot holds the new
    /// setpoint and the caller writes it through the link. On `Err` nothing has
    /// changed and nothing is to be written.
    pub fn set_power(&mut self, level: u16) -> (outcome: Result<(), ControlError>)
        ensures
            outcome == power_outcome(level, old(self)@.link_held),
            final(self)@ == (if outcome is Ok {
                old(self)@.with_data(BikeData { power: level, ..old(self)@.data })
            } else {
                old(self)@
            }),
            final(self).store_wf() == old(self).store_wf(),
            old(self).wf() ==> final(self).wf(),
    {
        if level > MAX_POWER {
            return Err(ControlError::ValidationError);
        }
        if !self.connection.is_connected() {
            return Err(ControlError::NoActiveLink);
        }
        self.data.power = level;
        Ok(())
    }

    /// Stores a new program. An invalid program is refused, and so is one whose
    /// id is taken.
    pub fn create_program(&mut self, program: TrainingProgram) -> (outcome: Result<(), ControlError>)
        requires
            old(self).wf(),
            program@.fits(),
        ensures
            final(self).wf(),
            outcome == create_outcome(old(self)@.catalog, program@),
            final(self)@ == (if outcome is Ok {
                ControllerView {
                    catalog: old(self)@.catalog.insert(program@.id, program@),
                    ..old(self)@
                }
            } else {
                old(self)@
            }),
    {
        self.programs.create_program(program)
    }

    /// Replaces a stored program. The running program cannot be replaced;
    /// beyond that an invalid program is refused, and an unknown id.
    pub fn update_program(&mut self, program: TrainingProgram) -> (outcome: Result<(), ControlError>)
        requires
            old(self).wf(),
            program@.fits(),
        ensures
            final(self).wf(),
            outcome == update_outcome(old(self)@.catalog, program@, active_id(old(self)@.running)),
            final(self)@ == (if outcome is Ok {
                ControllerView {
                    catalog: old(self)@.catalog.insert(program@.id, program@),
                    ..old(self)@
                }
            } else {
                old(self)@
            }),
    {
        self.programs.update_program(program)
    }

    /// Removes a stored program. The running program cannot be removed; beyond
    /// that an unknown id is refused.
    pub fn delete_program(&mut self, program_id: &str) -> (outcome: Result<(), ControlError>)
        requires
            old(self).wf(),
        ensures
            final(self).wf(),
            outcome == delete_outcome(
                old(self)@.catalog,
                program_id@,
                active_id(old(self)@.running),
            ),
            final(self)@ == (if outcome is Ok {
                ControllerView { catalog: old(self)@.catalog.remove(program_id@), ..old(self)@ }
            } else {
                old(self)@
            }),
    {
        self.programs.delete_program(program_id)
    }

    /// Copies of all stored programs, each once.
    pub fn list_programs(&self) -> (listing: Vec<TrainingProgram>)
        requires
            self.wf(),
        ensures
            is_listing(listing@.map_values(|p: TrainingProgram| p@), self@.catalog),
    {
        self.programs.list_programs()
    }

    /// A copy of the program stored under `program_id`.
    pub fn get_program(&self, program_id: &str) -> (found: Option<TrainingProgram>)
        requires
            self.wf(),
        ensures
            match found {
                Some(program) => self@.catalog.contains_key(program_id@) && program@
                    == self@.catalog[program_id@],
                None => !self@.catalog.contains_key(program_id@),
            },
    {
        self.programs.get_program(program_id)
    }

    /// Starts the program stored under `program_id`. On `Ok` the program runs
    /// from the head of its first interval, the snapshot holds that interval's
    /// target, and the caller writes the target through the link and starts the
    /// ticking. On `Err` nothing has changed.
    pub fn start_program(&mut self, program_id: &str) -> (outcome: Result<(), ControlError>)
        requires
            old(self).wf(),
        ensures
            final(self).wf(),
            outcome == start_program_outcome(old(self)@, program_id@),
            final(self)@ == (if outcome is Ok {
                let state = old(self)@.catalog[program_id@].started();
                ControllerView {
                    running: Some(state),
                    data: BikeData {
                        power: state.current_power_target as u16,
                        ..old(self)@.data
                    },
                    ..old(self)@
                }
            } else {
                old(self)@
            }),
    {
        let state = match self.programs.prepare(program_id) {
            Ok(state) => state,
            Err(error) => {
                return Err(error);
            },
        };
        match self.set_power(state.current_power_target) {
            Ok(_) => {},
            Err(error) => {
                return Err(error);
            },
        }
        self.programs.activate(state);
        Ok(())
    }

    /// Stops the running program at once and hands out the state it had
    /// reached. With nothing running there is nothing to stop.
    pub fn stop_program(&mut self) -> (outcome: Result<ProgramExecutionState, ControlError>)
        requires
            old(self).wf(),
        ensures
            final(self).wf(),
            final(self)@ == (ControllerView { running: None, ..old(self)@ }),
            match outcome {
                Ok(state) => old(self)@.running == Some(state@),
                Err(error) => old(self)@.running is None && error == ControlError::Conflict,
            },
    {
        self.programs.stop_program()
    }

    /// A copy of the state of the running program.
    pub fn get_active_program(&self) -> (state: Option<ProgramExecutionState>)
        ensures
            match state {
                Some(s) => self@.running == Some(s@),
                None => self@.running is None,
            },
    {
        self.programs.get_active_program()
    }

    /// Moves the running program on by one second and says what the ticking
    /// loop is to do. The program's state and the setpoint in the snapshot are
    /// read in one step. A setpoint that is handed out is written by the caller
    /// with `set_power`, without holding up the next tick.
    ///
    /// The program finishes on the tick with which the seconds since its start
    /// reach its total duration, and on no other; it is cleared in the same step.
    pub fn tick(&mut self) -> (outcome: TickOutcome)
        requires
            old(self).wf(),
        ensures
            final(self).wf(),
            final(self)@ == (ControllerView {
                running: running_after_tick(old(self)@.running),
                ..old(self)@
            }),
            outcome == tick_outcome(old(self)@.running, old(self)@.data.power),
            outcome is Finished <==> (old(self)@.running matches Some(state) && state.total_elapsed
                + 1 == state.total_duration),
    {
        self.programs.tick(self.data.power)
    }

    /// Takes in what a poll brought: `Some` with the reading, `None` where the
    /// read failed. Says what the polling loop is to do next.
    pub fn poll_completed(&mut self, reading: Option<TelemetryReading>) -> (action: PollAction)
        ensures
            final(self)@ == after_poll(old(self)@, reading),
            action == poll_action(old(self)@, reading),
            final(self).store_wf() == old(self).store_wf(),
            old(self).wf() ==> final(self).wf(),
    {
        let link_held = self.connection.is_connected();
        match reading {
            Some(r) if link_held => {
                self.data.apply_reading(&r);
                self.poller.record_success();
                PollAction::Continue
            },
            _ => {
                let action = self.poller.record_failure(link_held);
                if action == PollAction::Reconnect {
                    self.data.connected = false;
                }
                action
            },
        }
    }

    /// Decides what a call for a reconnect does. With a link held it does
    /// nothing. Without one it counts the attempt; the attempt that would pass
    /// the ceiling resets the counter to 0 and fails, so that the caller backs off.
    pub fn reconnect(&mut self) -> (outcome: Result<ReconnectStep, ControlError>)
        requires
            old(self).wf(),
        ensures
            final(self).wf(),
            outcome == reconnect_outcome(old(self)@.link_held, old(self)@.reconnect_attempts),
            final(self)@ == (ControllerView {
                reconnect_attempts: attempts_after_reconnect(
                    old(self)@.link_held,
                    old(self)@.reconnect_attempts,
                ),
                ..old(self)@
            }),
    {
        self.connection.begin_reconnect()
    }

    /// The reconnect that the poller called for is over. After a success the
    /// count of failed polls starts again from 0; after a failure it stays, and
    /// the polling loop pauses.
    pub fn reconnect_completed(&mut self, succeeded: bool) -> (action: PollAction)
        ensures
            action == (if succeeded {
                PollAction::Continue
            } else {
                PollAction::Pause { secs: RECONNECT_FAILED_PAUSE_SECS }
            }),
            final(self)@ == (ControllerView {
                poll_errors: if succeeded {
                    0
                } else {
                    old(self)@.poll_errors
                },
                ..old(self)@
            }),
            final(self).store_wf() == old(self).store_wf(),
            old(self).wf() ==> final(self).wf(),
    {
        self.poller.record_reconnect(succeeded)
    }

    /// Begins a connection attempt. A link that is held is given up first: from
    /// now on none is held, and the attempt starts with its release.
    pub fn begin_connect(&mut self) -> (attempt: ConnectAttempt)
        ensures
            attempt@ == AttemptView::begun(old(self)@.link_held),
            attempt@.wf(),
            final(self)@ == (ControllerView { link_held: false, ..old(self)@ }),
            final(self).store_wf() == old(self).store_wf(),
            old(self).wf() ==> final(self).wf(),
    {
        let link_held = self.connection.is_connected();
        if link_held {
            self.connection.link_released();
        }
        ConnectAttempt::begin(link_held)
    }

    /// Records that a connection attempt has established a link: the link is
    /// held, the device counts as reachable, and the reconnect counter starts
    /// again from 0.
    pub fn link_established(&mut self)
        ensures
            final(self)@ == (ControllerView {
                link_held: true,
                reconnect_attempts: 0,
                data: BikeData { connected: true, ..old(self)@.data },
                ..old(self)@
            }),
            final(self).store_wf() == old(self).store_wf(),
            old(self).wf() ==> final(self).wf(),
    {
        self.connection.link_established();
        self.data.connected = true;
    }
}

/// The accepted range of setpoints is 0 W to 400 W, both ends included: with a
/// link held every level in the range is accepted, and no level above it ever is.
pub proof fn lemma_power_range(level: u16, link_held: bool)
    ensures
        level > MAX_POWER ==> power_outcome(level, link_held) == Err::<(), ControlError>(
            ControlError::ValidationError,
        ),
        MIN_POWER <= level <= MAX_POWER && link_held ==> power_outcome(level, link_held) is Ok,
        power_outcome(MIN_POWER, true) is Ok,
        power_outcome(MAX_POWER, true) is Ok,
        power_outcome(401, link_held) == Err::<(), ControlError>(ControlError::ValidationError),
{
}

/// Whatever is stored and whatever is asked, the reconnect counter stays within
/// its ceiling: a call for a reconnect never leaves it above 5, and resets it
/// to 0 instead of passing 5.
pub proof fn lemma_reconnect_counter_bounded(connected: bool, attempts: nat)
    requires
        attempts <= MAX_RECONNECT_ATTEMPTS,
    ensures
        attempts_after_reconnect(connected, attempts) <= MAX_RECONNECT_ATTEMPTS,
        !connected && attempts == MAX_RECONNECT_ATTEMPTS ==> attempts_after_reconnect(
            connected,
            attempts,
        ) == 0 && reconnect_outcome(connected, attempts) == Err::<ReconnectStep, ControlError>(
            ControlError::RetryExhausted,
        ),
        connected ==> reconnect_outcome(connected, attempts) == Ok::<ReconnectStep, ControlError>(
            ReconnectStep::AlreadyConnected,
        ),
{
}

/// While a program runs it can be neither replaced nor removed nor started
/// again: each of the three is refused as a conflict, whatever else is wrong
/// with the request. No other program can be started either.
pub proof fn lemma_running_program_is_guarded(
    service: ControllerView,
    program: ProgramView,
    id: Seq<char>,
)
    requires
        service.running is Some,
    ensures
        program.id == service.running->0.program_id ==> update_outcome(
            service.catalog,
            program,
            active_id(service.running),
        ) == Err::<(), ControlError>(ControlError::Conflict),
        id == service.running->0.program_id ==> delete_outcome(
            service.catalog,
            id,
            active_id(service.running),
        ) == Err::<(), ControlError>(ControlError::Conflict),
        start_program_outcome(service, id) == Err::<(), ControlError>(ControlError::Conflict),
{
}

} // verus!
