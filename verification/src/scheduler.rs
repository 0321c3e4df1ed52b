//! The program scheduler: the catalog together with the one program that may be
//! running, the guard that keeps the running program from being edited, and the
//! step that moves the running program on by a second.

use vstd::prelude::*;
use crate::error::ControlError;
use crate::program_store::catalog_wf;
use crate::program_store::create_outcome;
use crate::program_store::delete_outcome;
use crate::program_store::is_listing;
use crate::program_store::update_outcome;
use crate::program_store::ProgramStore;
use crate::training_program::ExecutionView;
use crate::training_program::ProgramExecutionState;
use crate::training_program::ProgramView;
use crate::training_program::TrainingProgram;
use crate::training_program_proofs::lemma_advance_keeps_running;
use crate::training_program_proofs::lemma_started_is_running;
use crate::training_program_proofs::lemma_tick_finishes_at_total;
use crate::training_program_proofs::lemma_tick_keeps_schedule;

verus! {

/// What a tick of one second did.
#[derive(Clone, Copy, Debug, PartialEq, Eq, Structural)]
pub enum TickOutcome {
    /// No program is running: the ticking loop ends.
    Idle,
    /// The running program reached its end and was cleared: the ticking loop ends.
    Finished,
    /// The program goes on. `power_change` is the setpoint that is to be
    /// written, where the target differs from the setpoint in the snapshot.
    Running { power_change: Option<u16> },
}

/// The id of the running program, if one runs.
pub open spec fn active_id(running: Option<ExecutionView>) -> Option<Seq<char>> {
    match running {
        Some(state) => Some(state.program_id),
        None => None,
    }
}

/// What a request to start the program `id` is answered with, before any
/// setpoint is written: a start while a program runs is refused, then an
/// unknown id, then a stored program that is not valid.
pub open spec fn start_outcome(
    catalog: Map<Seq<char>, ProgramView>,
    running: Option<ExecutionView>,
    id: Seq<char>,
) -> Result<(), ControlError> {
    if running is Some {
        Err(ControlError::Conflict)
    } else if !catalog.contains_key(id) {
        Err(ControlError::NotFound)
    } else if !catalog[id].is_valid() {
        Err(ControlError::ValidationError)
    } else {
        Ok(())
    }
}

/// The running program after a tick of one second: a program that finishes is
/// cleared, any other has moved on by a second.
pub open spec fn running_after_tick(running: Option<ExecutionView>) -> Option<ExecutionView> {
    match running {
        Some(state) => if state.finishes(1) {
            None
        } else {
            Some(state.advanced(1))
        },
        None => None,
    }
}

/// What a tick of one second reports, given the setpoint in the snapshot.
pub open spec fn tick_outcome(running: Option<ExecutionView>, cached_power: u16) -> TickOutcome {
    match running {
        Some(state) => if state.finishes(1) {
            TickOutcome::Finished
        } else {
            let target = state.advanced(1).current_power_target;
            TickOutcome::Running {
                power_change: if target != cached_power {
                    Some(target as u16)
                } else {
                    None
                },
            }
        },
        None => TickOutcome::Idle,
    }
}

/// The state of a running program as the scheduler keeps it: under way and on
/// schedule, and the very program that the catalog has under its id.
pub open spec fn running_wf(catalog: Map<Seq<char>, ProgramView>, state: ExecutionView) -> bool {
    &&& state.running()
    &&& state.on_schedule()
    &&& state.program.fits()
    &&& catalog.contains_key(state.program_id)
    &&& catalog[state.program_id] == state.program
}

/// The catalog and the program that is running, if one is.
pub struct ProgramScheduler {
    store: ProgramStore,
    active: Option<ProgramExecutionState>,
}

impl ProgramScheduler {
    /// The stored programs by id.
    pub closed spec fn catalog(self) -> Map<Seq<char>, ProgramView> {
        self.store@
    }

    /// The state of the running program, if one runs.
    pub closed spec fn running(self) -> Option<ExecutionView> {
        match self.active {
            Some(state) => Some(state@),
            None => None,
        }
    }

    /// The catalog's own representation is in order.
    pub closed spec fn store_wf(self) -> bool {
        self.store.wf()
    }

    /// The invariant of the scheduler: the catalog is in order, and a running
    /// program is under way, on schedule and unchanged in the catalog.
    pub open spec fn wf(self) -> bool {
        &&& self.store_wf()
        &&& catalog_wf(self.catalog())
        &&& (self.running() matches Some(state) ==> running_wf(self.catalog(), state))
    }

    /// An empty catalog, and nothing running.
    pub fn new() -> (scheduler: Self)
        ensures
            scheduler.wf(),
            scheduler.catalog() == Map::<Seq<char>, ProgramView>::empty(),
            scheduler.running() is None,
    {
        ProgramScheduler { store: ProgramStore::new(), active: None }
    }

    /// Stores a new program. An invalid program is refused, and so is one whose
    /// id is taken. What runs is not touched.
    pub fn create_program(&mut self, program: TrainingProgram) -> (outcome: Result<(), ControlError>)
        requires
            old(self).wf(),
            program@.fits(),
        ensures
            final(self).wf(),
            outcome == create_outcome(old(self).catalog(), program@),
            final(self).catalog() == (if outcome is Ok {
                old(self).catalog().insert(program@.id, program@)
            } else {
                old(self).catalog()
            }),
            final(self).running() == old(self).running(),
    {
        self.store.create(program)
    }

    /// Replaces a stored program. The running program cannot be replaced;
    /// beyond that an invalid program is refused, and an unknown id.
    pub fn update_program(&mut self, program: TrainingProgram) -> (outcome: Result<(), ControlError>)
        requires
            old(self).wf(),
            program@.fits(),
        ensures
            final(self).wf(),
            outcome == update_outcome(
                old(self).catalog(),
                program@,
                active_id(old(self).running()),
            ),
            final(self).catalog() == (if outcome is Ok {
                old(self).catalog().insert(program@.id, program@)
            } else {
                old(self).catalog()
            }),
            final(self).running() == old(self).running(),
    {
        let running = match &self.active {
            Some(state) => Some(&state.program_id),
            None => None,
        };
        self.store.update(program, running)
    }

    /// Removes a stored program. The running program cannot be removed; beyond
    /// that an unknown id is refused.
    pub fn delete_program(&mut self, id: &str) -> (outcome: Result<(), ControlError>)
        requires
            old(self).wf(),
        ensures
            final(self).wf(),
            outcome == delete_outcome(old(self).catalog(), id@, active_id(old(self).running())),
            final(self).catalog() == (if outcome is Ok {
                old(self).catalog().remove(id@)
            } else {
                old(self).catalog()
            }),
            final(self).running() == old(self).running(),
    {
        let running = match &self.active {
            Some(state) => Some(&state.program_id),
            None => None,
        };
        self.store.delete(id, running)
    }

    /// Copies of all stored programs, each once.
    pub fn list_programs(&self) -> (listing: Vec<TrainingProgram>)
        requires
            self.wf(),
        ensures
            is_listing(listing@.map_values(|p: TrainingProgram| p@), self.catalog()),
    {
        self.store.list()
    }

    /// A copy of the program stored under `id`.
    pub fn get_program(&self, id: &str) -> (found: Option<TrainingProgram>)
        requires
            self.wf(),
        ensures
            match found {
                Some(program) => self.catalog().contains_key(id@) && program@ == self.catalog()[id@],
                None => !self.catalog().contains_key(id@),
            },
    {
        self.store.get(id)
    }

    /// A copy of the state of the running program.
    pub fn get_active_program(&self) -> (state: Option<ProgramExecutionState>)
        ensures
            match state {
                Some(s) => self.running() == Some(s@),
                None => self.running() is None,
            },
    {
        match &self.active {
            Some(state) => Some(state.clone()),
            None => None,
        }
    }

    /// Whether a program is running.
    pub fn is_running(&self) -> (running: bool)
        ensures
            running == self.running() is Some,
    {
        self.active.is_some()
    }

    /// Answers a request to start the program `id` and, where it is granted,
    /// hands out the state in which that program starts. Nothing runs yet: the
    /// state becomes the running one with `activate`.
    pub fn prepare(&self, id: &str) -> (outcome: Result<ProgramExecutionState, ControlError>)
        requires
            self.wf(),
        ensures
            match outcome {
                Ok(state) => start_outcome(self.catalog(), self.running(), id@) is Ok && state@
                    == self.catalog()[id@].started() && running_wf(self.catalog(), state@),
                Err(error) => start_outcome(self.catalog(), self.running(), id@) == Err::<
                    (),
                    ControlError,
                >(error),
            },
    {
        if self.active.is_some() {
            return Err(ControlError::Conflict);
        }
        let program = match self.store.get(id) {
            Some(program) => program,
            None => {
                return Err(ControlError::NotFound);
            },
        };
        if !program.is_valid() {
            return Err(ControlError::ValidationError);
        }
        proof {
            lemma_started_is_running(program@);
        }
        Ok(ProgramExecutionState::new(program))
    }

    /// Makes `state` the running one.
    pub fn activate(&mut self, state: ProgramExecutionState)
        requires
            old(self).wf(),
            old(self).running() is None,
            running_wf(old(self).catalog(), state@),
        ensures
            final(self).wf(),
            final(self).catalog() == old(self).catalog(),
            final(self).running() == Some(state@),
    {
        self.active = Some(state);
    }

    /// Stops the running program at once and hands out the state it had reached.
    /// With nothing running there is nothing to stop.
    pub fn stop_program(&mut self) -> (outcome: Result<ProgramExecutionState, ControlError>)
        requires
            old(self).wf(),
        ensures
            final(self).wf(),
            final(self).catalog() == old(self).catalog(),
            final(self).running() is None,
            match outcome {
                Ok(state) => old(self).running() == Some(state@),
                Err(error) => old(self).running() is None && error == ControlError::Conflict,
            },
    {
        match self.active.take() {
            Some(state) => Ok(state),
            None => Err(ControlError::Conflict),
        }
    }

    /// Moves the running program on by one second. `cached_power` is the
    /// setpoint in the snapshot, read in the same critical section.
    ///
    /// The program finishes on the tick with which the seconds since its start
    /// reach its total duration, and on no other; it is cleared in the same step.
    pub fn tick(&mut self, cached_power: u16) -> (outcome: TickOutcome)
        requires
            old(self).wf(),
        ensures
            final(self).wf(),
            final(self).catalog() == old(self).catalog(),
            final(self).running() == running_after_tick(old(self).running()),
            outcome == tick_outcome(old(self).running(), cached_power),
            outcome is Finished <==> (old(self).running() matches Some(state) && state.total_elapsed
                + 1 == state.total_duration),
    {
        match self.active.take() {
            Some(mut state) => {
                proof {
                    lemma_tick_keeps_schedule(state@);
                    lemma_tick_finishes_at_total(state@);
                    lemma_advance_keeps_running(state@, 1);
                }
                let finished = state.advance(1);
                if finished {
                    TickOutcome::Finished
                } else {
                    let target = state.current_power_target;
                    self.active = Some(state);
                    TickOutcome::Running {
                        power_change: if target != cached_power {
                            Some(target)
                        } else {
                            None
                        },
                    }
                }
            },
            None => TickOutcome::Idle,
        }
    }
}

} // verus!
