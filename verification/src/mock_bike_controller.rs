//! The same service without a device: telemetry is simulated, the link is
//! always there, and a setpoint takes effect as soon as it is accepted.

use vstd::prelude::*;
use crate::error::ControlError;
use crate::program_store::catalog_wf;
use crate::program_store::create_outcome;
use crate::program_store::delete_outcome;
use crate::program_store::is_listing;
use crate::program_store::update_outcome;
use crate::scheduler::active_id;
use crate::scheduler::running_after_tick;
use crate::scheduler::running_wf;
use crate::scheduler::start_outcome;
use crate::scheduler::tick_outcome;
use crate::scheduler::ProgramScheduler;
use crate::scheduler::TickOutcome;
use crate::telemetry::BikeData;
use crate::training_program::ExecutionView;
use crate::training_program::ProgramExecutionState;
use crate::training_program::ProgramView;
use crate::training_program::TrainingProgram;

verus! {

/// The lowest setpoint, in watts, that the simulated bike accepts.
pub const MIN_POWER: u16 = 25;

/// The highest setpoint, in watts, that the simulated bike accepts.
pub const MAX_POWER: u16 = 400;

/// The setpoint, in watts, with which the simulated bike starts.
pub const INITIAL_POWER: u16 = 100;

/// The cadence, in revolutions per minute, around which the simulation swings.
pub const BASE_RPM: i32 = 60;

/// Hundredths of a kilometre per hour that one revolution per minute is worth.
pub const SPEED_PER_RPM: u32 = 18;

/// The state of the simulated service.
pub struct BikeController {
    data: BikeData,
    programs: ProgramScheduler,
    simulation_running: bool,
}

/// What a simulated `BikeController` stands for.
pub struct SimulatedView {
    /// The telemetry snapshot.
    pub data: BikeData,
    /// The stored programs by id.
    pub catalog: Map<Seq<char>, ProgramView>,
    /// The state of the running program, if one runs.
    pub running: Option<ExecutionView>,
    /// Whether the simulation of a workout is switched on.
    pub simulating: bool,
}

impl SimulatedView {
    /// The invariant of the service: every stored program is valid, and a
    /// running program is under way, on schedule and unchanged in the catalog.
    pub open spec fn wf(self) -> bool {
        &&& catalog_wf(self.catalog)
        &&& (self.running matches Some(state) ==> running_wf(self.catalog, state))
    }
}

/// What a request for the setpoint `level` is answered with: only a level
/// outside the range is refused.
pub open spec fn power_outcome(level: u16) -> Result<(), ControlError> {
    if level < MIN_POWER || level > MAX_POWER {
        Err(ControlError::ValidationError)
    } else {
        Ok(())
    }
}

/// The cadence that the simulation shows for a swing of `variation` around the
/// base cadence: never below 0.
pub open spec fn simulated_rpm(variation: i16) -> u16 {
    if BASE_RPM + variation < 0 {
        0
    } else {
        (BASE_RPM + variation) as u16
    }
}

/// The snapshot after one step of the simulation: cadence and speed follow the
/// swing, the setpoint and the reachability stay.
pub open spec fn after_sample(data: BikeData, variation: i16) -> BikeData {
    BikeData {
        rpm: simulated_rpm(variation),
        speed: (simulated_rpm(variation) * SPEED_PER_RPM) as u32,
        ..data
    }
}

impl View for BikeController {
    type V = SimulatedView;

    closed spec fn view(&self) -> SimulatedView {
        SimulatedView {
            data: self.data,
            catalog: self.programs.catalog(),
            running: self.programs.running(),
            simulating: self.simulation_running,
        }
    }
}

impl BikeController {
    /// The catalog's own representation is in order.
    pub closed spec fn store_wf(self) -> bool {
        self.programs.store_wf()
    }

    /// The invariant of the service.
    pub open spec fn wf(self) -> bool {
        &&& self.store_wf()
        &&& self@.wf()
    }

    /// The service as it starts: at rest with the initial setpoint, reachable,
    /// nothing stored, nothing running, the simulation not yet switched on.
    pub fn new() -> (service: Self)
        ensures
            service.wf(),
            service@ == (SimulatedView {
                data: BikeData { speed: 0, rpm: 0, power: INITIAL_POWER, connected: true },
                catalog: Map::empty(),
                running: None,
                simulating: false,
            }),
    {
        BikeController {
            data: BikeData { speed: 0, rpm: 0, power: INITIAL_POWER, connected: true },
            programs: ProgramScheduler::new(),
            simulation_running: false,
        }
    }

    /// Switches the simulation on.
    pub fn begin_simulation(&mut self)
        ensures
            final(self)@ == (SimulatedView { simulating: true, ..old(self)@ }),
            final(self).store_wf() == old(self).store_wf(),
            old(self).wf() ==> final(self).wf(),
    {
        self.simulation_running = true;
    }

    /// One step of the simulation. `rpm_variation` is the swing of the cadence
    /// around its base for this step. Returns whether the simulation goes on: a
    /// simulation that is not switched on changes nothing and ends.
    pub fn simulation_step(&mut self, rpm_variation: i16) -> (goes_on: bool)
        ensures
            goes_on == old(self)@.simulating,
            final(self)@ == (if old(self)@.simulating {
                SimulatedView { data: after_sample(old(self)@.data, rpm_variation), ..old(self)@ }
            } else {
                old(self)@
            }),
            final(self).store_wf() == old(self).store_wf(),
            old(self).wf() ==> final(self).wf(),
    {
        if !self.simulation_running {
            return false;
        }
        let swung: i32 = BASE_RPM + rpm_variation as i32;
        let rpm: u16 = if swung < 0 {
            0
        } else {
            swung as u16
        };
        self.data.rpm = rpm;
        self.data.speed = rpm as u32 * SPEED_PER_RPM;
        true
    }

    /// The telemetry snapshot.
    pub fn get_data(&self) -> (data: BikeData)
        ensures
            data == self@.data,
    {
        self.data
    }

    /// The setpoint in the snapshot, in watts.
    pub fn get_power(&self) -> (power: u16)
        ensures
            power == self@.data.power,
    {
        self.data.power
    }

    /// Sets the setpoint. A level outside the range is refused, and nothing changes.
    pub fn set_power(&mut self, level: u16) -> (outcome: Result<(), ControlError>)
        ensures
            outcome == power_outcome(level),
            final(self)@ == (if outcome is Ok {
                SimulatedView { data: BikeData { power: level, ..old(self)@.data }, ..old(self)@ }
            } else {
                old(self)@
            }),
            final(self).store_wf() == old(self).store_wf(),
            old(self).wf() ==> final(self).wf(),
    {
        if level < MIN_POWER || level > MAX_POWER {
            return Err(ControlError::ValidationError);
        }
        self.data.power = level;
        Ok(())
    }

    /// Stores a new program. An invalid program is refused, and so is one whose
    /// id is taken.
    pub fn create_program(&mut self, program: TrainingProgram) -> (outcome: Result<(), ControlError>)
        requires
            old(self).wf(),
            program@.fits(),
        ensures
            final(self).wf(),
            outcome == create_outcome(old(self)@.catalog, program@),
            final(self)@ == (if outcome is Ok {
                SimulatedView {
                    catalog: old(self)@.catalog.insert(program@.id, program@),
                    ..old(self)@
                }
            } else {
                old(self)@
            }),
    {
        self.programs.create_program(program)
    }

    /// Replaces a stored program. The running program cannot be replaced;
    /// beyond that an invalid program is refused, and an unknown id.
    pub fn update_program(&mut self, program: TrainingProgram) -> (outcome: Result<(), ControlError>)
        requires
            old(self).wf(),
            program@.fits(),
        ensures
            final(self).wf(),
            outcome == update_outcome(old(self)@.catalog, program@, active_id(old(self)@.running)),
            final(self)@ == (if outcome is Ok {
                SimulatedView {
                    catalog: old(self)@.catalog.insert(program@.id, program@),
                    ..old(self)@
                }
            } else {
                old(self)@
            }),
    {
        self.programs.update_program(program)
    }

    /// Removes a stored program. The running program cannot be removed; beyond
    /// that an unknown id is refused.
    pub fn delete_program(&mut self, program_id: &str) -> (outcome: Result<(), ControlError>)
        requires
            old(self).wf(),
        ensures
            final(self).wf(),
            outcome == delete_outcome(
                old(self)@.catalog,
                program_id@,
                active_id(old(self)@.running),
            ),
            final(self)@ == (if outcome is Ok {
                SimulatedView { catalog: old(self)@.catalog.remove(program_id@), ..old(self)@ }
            } else {
                old(self)@
            }),
    {
        self.programs.delete_program(program_id)
    }

    /// Copies of all stored programs, each once.
    pub fn list_programs(&self) -> (listing: Vec<TrainingProgram>)
        requires
            self.wf(),
        ensures
            is_listing(listing@.map_values(|p: TrainingProgram| p@), self@.catalog),
    {
        self.programs.list_programs()
    }

    /// A copy of the program stored under `program_id`.
    pub fn get_program(&self, program_id: &str) -> (found: Option<TrainingProgram>)
        requires
            self.wf(),
        ensures
            match found {
                Some(program) => self@.catalog.contains_key(program_id@) && program@
                    == self@.catalog[program_id@],
                None => !self@.catalog.contains_key(program_id@),
            },
    {
        self.programs.get_program(program_id)
    }

    /// Starts the program stored under `program_id`. On `Ok` the program runs
    /// from the head of its first interval and the snapshot holds that
    /// interval's target. On `Err` nothing has changed.
    pub fn start_program(&mut self, program_id: &str) -> (outcome: Result<(), ControlError>)
        requires
            old(self).wf(),
        ensures
            final(self).wf(),
            outcome == start_outcome(old(self)@.catalog, old(self)@.running, program_id@),
            final(self)@ == (if outcome is Ok {
                let state = old(self)@.catalog[program_id@].started();
                SimulatedView {
                    running: Some(state),
                    data: BikeData {
                        power: state.current_power_target as u16,
                        ..old(self)@.data
                    },
                    ..old(self)@
                }
            } else {
                old(self)@
            }),
    {
        let state = match self.programs.prepare(program_id) {
            Ok(state) => state,
            Err(error) => {
                return Err(error);
            },
        };
        assert(state@.program.intervals[0].in_bounds());
        match self.set_power(state.current_power_target) {
            Ok(_) => {},
            Err(error) => {
                return Err(error);
            },
        }
        self.programs.activate(state);
        Ok(())
    }

    /// Stops the running program at once and hands out the state it had
    /// reached. With nothing running there is nothing to stop.
    pub fn stop_program(&mut self) -> (outcome: Result<ProgramExecutionState, ControlError>)
        requires
            old(self).wf(),
        ensures
            final(self).wf(),
            final(self)@ == (SimulatedView { running: None, ..old(self)@ }),
            match outcome {
                Ok(state) => old(self)@.running == Some(state@),
                Err(error) => old(self)@.running is None && error == ControlError::Conflict,
            },
    {
        self.programs.stop_program()
    }

    /// A copy of the state of the running program.
    pub fn get_active_program(&self) -> (state: Option<ProgramExecutionState>)
        ensures
            match state {
                Some(s) => self@.running == Some(s@),
                None => self@.running is None,
            },
    {
        self.programs.get_active_program()
    }

    /// Moves the running program on by one second and says what the ticking
    /// loop is to do. A setpoint that is handed out is set by the caller with
    /// `set_power`.
    pub fn tick(&mut self) -> (outcome: TickOutcome)
        requires
            old(self).wf(),
        ensures
            final(self).wf(),
            final(self)@ == (SimulatedView {
                running: running_after_tick(old(self)@.running),
                ..old(self)@
            }),
            outcome == tick_outcome(old(self)@.running, old(self)@.data.power),
            outcome is Finished <==> (old(self)@.running matches Some(state) && state.total_elapsed
                + 1 == state.total_duration),
    {
        self.programs.tick(self.data.power)
    }
}

/// The accepted range of setpoints is 25 W to 400 W, both ends included.
pub proof fn lemma_power_range(level: u16)
    ensures
        power_outcome(level) is Ok <==> MIN_POWER <= level <= MAX_POWER,
        power_outcome(MIN_POWER) is Ok,
        power_outcome(MAX_POWER) is Ok,
{
}

/// The target of every interval of a valid program is a setpoint that the
/// simulated bike accepts, so a program that the scheduler lets start does start.
pub proof fn lemma_valid_targets_accepted(program: ProgramView, i: int)
    requires
        program.is_valid(),
        0 <= i < program.intervals.len(),
    ensures
        power_outcome(program.intervals[i].power_target as u16) is Ok,
{
    assert(program.intervals[i].in_bounds());
}

} // verus!
