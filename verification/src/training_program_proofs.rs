//! What holds of a program while it runs: the invariant of a running state and
//! the laws that follow from it.

use vstd::prelude::*;
use vstd::arithmetic::div_mod::lemma_div_is_ordered;
use vstd::arithmetic::div_mod::lemma_div_multiples_vanish;
use crate::training_program::elapsed_before;
use crate::training_program::lemma_elapsed_before_bounds;
use crate::training_program::lemma_elapsed_before_next;
use crate::training_program::ExecutionView;
use crate::training_program::IntervalView;
use crate::training_program::ProgramView;

verus! {

impl ExecutionView {
    /// The state of a valid program that is under way: it stands inside one of
    /// the program's intervals, before that interval's end, and shows that
    /// interval's target and name.
    pub open spec fn running(self) -> bool {
        let intervals = self.program.intervals;
        let index = self.current_interval_index as int;
        &&& self.program.is_valid()
        &&& self.program_id == self.program.id
        &&& self.program_name == self.program.name
        &&& self.total_duration == self.program.total_duration()
        &&& index < intervals.len()
        &&& self.elapsed_in_interval < intervals[index].duration_secs
        &&& self.current_power_target == intervals[index].power_target
        &&& self.current_interval_name == intervals[index].name
    }

    /// No second was lost at a boundary: the time since the start is the time
    /// of the intervals that are over plus the time in the current one.
    pub open spec fn on_schedule(self) -> bool {
        self.total_elapsed == elapsed_before(
            self.program.intervals,
            self.current_interval_index as int,
        ) + self.elapsed_in_interval
    }

    /// The state of `program` after `ticks` steps of one second, counted from its start.
    pub open spec fn after_ticks(program: ProgramView, ticks: nat) -> ExecutionView
        decreases ticks,
    {
        if ticks == 0 {
            program.started()
        } else {
            Self::after_ticks(program, (ticks - 1) as nat).advanced(1)
        }
    }
}

/// Every interval of a valid program lasts at least a second, so each further
/// interval makes the time before it strictly longer.
pub proof fn lemma_elapsed_before_increases(s: Seq<IntervalView>, m: int, n: int)
    requires
        0 <= m < n <= s.len(),
        forall|i: int| 0 <= i < s.len() ==> (#[trigger] s[i]).in_bounds(),
    ensures
        elapsed_before(s, m) + s[m].duration_secs <= elapsed_before(s, n),
    decreases n - m,
{
    lemma_elapsed_before_next(s, m);
    if m + 1 < n {
        lemma_elapsed_before_increases(s, m + 1, n);
        assert(s[m + 1].in_bounds());
    }
}

/// A valid program starts in a running state, on schedule, at second 0.
pub proof fn lemma_started_is_running(program: ProgramView)
    requires
        program.is_valid(),
    ensures
        program.started().running(),
        program.started().on_schedule(),
        program.started().total_elapsed == 0,
        program.started().total_duration == program.total_duration(),
{
    assert(program.intervals[0].in_bounds());
    lemma_elapsed_before_bounds(program.intervals, 0);
}

/// A step leaves a running program either finished or running. The total
/// duration and the program itself never change.
pub proof fn lemma_advance_keeps_running(state: ExecutionView, seconds: nat)
    requires
        state.running(),
    ensures
        state.advanced(seconds).program == state.program,
        state.advanced(seconds).total_duration == state.total_duration,
        state.advanced(seconds).total_elapsed == state.total_elapsed + seconds,
        !state.finishes(seconds) ==> state.advanced(seconds).running(),
{
    let next = state.current_interval_index as int + 1;
    if state.at_boundary(seconds) && next < state.program.intervals.len() {
        assert(state.program.intervals[next].in_bounds());
    }
}

/// At an interval boundary the index, the target and the name move to the next
/// interval in one step, and the time in the interval starts again from 0.
pub proof fn lemma_boundary_switches_interval(state: ExecutionView, seconds: nat)
    requires
        state.at_boundary(seconds),
        state.current_interval_index + 1 < state.program.intervals.len(),
    ensures
        ({
            let next = state.current_interval_index + 1;
            let after = state.advanced(seconds);
            &&& after.current_interval_index == next
            &&& after.elapsed_in_interval == 0
            &&& after.current_power_target == state.program.intervals[next as int].power_target
            &&& after.current_interval_name == state.program.intervals[next as int].name
        }),
{
}

/// Away from a boundary nothing but the two clocks moves.
pub proof fn lemma_inside_interval_keeps_target(state: ExecutionView, seconds: nat)
    requires
        !state.at_boundary(seconds),
    ensures
        ({
            let after = state.advanced(seconds);
            &&& after.current_interval_index == state.current_interval_index
            &&& after.elapsed_in_interval == state.elapsed_in_interval + seconds
            &&& after.current_power_target == state.current_power_target
            &&& after.current_interval_name == state.current_interval_name
        }),
{
}

/// A running program that is on schedule has time left, and a step of one
/// second keeps it on schedule.
pub proof fn lemma_tick_keeps_schedule(state: ExecutionView)
    requires
        state.running(),
        state.on_schedule(),
    ensures
        state.total_elapsed < state.total_duration,
        state.advanced(1).on_schedule(),
{
    let s = state.program.intervals;
    let index = state.current_interval_index as int;
    lemma_elapsed_before_next(s, index);
    lemma_elapsed_before_bounds(s, index + 1);
}

/// A running program that is on schedule finishes on the very second on which
/// the time since its start reaches its total duration, and on no other.
pub proof fn lemma_tick_finishes_at_total(state: ExecutionView)
    requires
        state.running(),
        state.on_schedule(),
    ensures
        state.finishes(1) <==> state.total_elapsed + 1 == state.total_duration,
{
    let s = state.program.intervals;
    let index = state.current_interval_index as int;
    lemma_elapsed_before_next(s, index);
    lemma_elapsed_before_bounds(s, index + 1);
    if index + 1 < s.len() {
        lemma_elapsed_before_increases(s, index + 1, s.len() as int);
        assert(s[index + 1].in_bounds());
    }
}

/// Ticking a valid program from its start: before the total duration is
/// reached, the state after `ticks` seconds is running and on schedule at
/// second `ticks`.
pub proof fn lemma_ticks_before_finish(program: ProgramView, ticks: nat)
    requires
        program.is_valid(),
        ticks < program.total_duration(),
    ensures
        ExecutionView::after_ticks(program, ticks).running(),
        ExecutionView::after_ticks(program, ticks).on_schedule(),
        ExecutionView::after_ticks(program, ticks).total_elapsed == ticks,
        ExecutionView::after_ticks(program, ticks).total_duration == program.total_duration(),
        ExecutionView::after_ticks(program, ticks).program == program,
    decreases ticks,
{
    if ticks == 0 {
        lemma_started_is_running(program);
    } else {
        let before = ExecutionView::after_ticks(program, (ticks - 1) as nat);
        lemma_ticks_before_finish(program, (ticks - 1) as nat);
        lemma_tick_finishes_at_total(before);
        lemma_tick_keeps_schedule(before);
        lemma_advance_keeps_running(before, 1);
    }
}

/// Ticking a valid program from its start: once the total duration is reached,
/// the state stands behind the last interval for good.
pub proof fn lemma_ticks_after_finish(program: ProgramView, ticks: nat)
    requires
        program.is_valid(),
        ticks >= program.total_duration(),
    ensures
        ExecutionView::after_ticks(program, ticks).current_interval_index
            == program.intervals.len(),
        ExecutionView::after_ticks(program, ticks).program == program,
        ExecutionView::after_ticks(program, ticks).total_elapsed == ticks,
        ExecutionView::after_ticks(program, ticks).total_duration == program.total_duration(),
    decreases ticks,
{
    assert(program.intervals[0].in_bounds());
    lemma_elapsed_before_increases(program.intervals, 0, program.intervals.len() as int);
    lemma_elapsed_before_bounds(program.intervals, 0);
    assert(ticks > 0);
    let before = ExecutionView::after_ticks(program, (ticks - 1) as nat);
    if ticks == program.total_duration() {
        lemma_ticks_before_finish(program, (ticks - 1) as nat);
        lemma_tick_finishes_at_total(before);
        lemma_advance_keeps_running(before, 1);
    } else {
        lemma_ticks_after_finish(program, (ticks - 1) as nat);
    }
}

/// A valid program that is ticked second by second from its start reports its
/// end exactly once: on the tick with which the seconds since the start reach
/// the total duration. No earlier tick reports it, and no later one.
pub proof fn lemma_finishes_exactly_once(program: ProgramView, ticks: nat)
    requires
        program.is_valid(),
    ensures
        ExecutionView::after_ticks(program, ticks).finishes(1) <==> ticks + 1
            == program.total_duration(),
{
    if ticks < program.total_duration() {
        lemma_ticks_before_finish(program, ticks);
        lemma_tick_finishes_at_total(ExecutionView::after_ticks(program, ticks));
    } else {
        lemma_ticks_after_finish(program, ticks);
    }
}

/// One step over the whole duration finishes a valid program from its start
/// where the program has a single interval, and only there.
pub proof fn lemma_single_step_over_total(program: ProgramView)
    requires
        program.is_valid(),
    ensures
        program.started().finishes(program.total_duration()) <==> program.intervals.len() == 1,
{
    assert(program.intervals[0].in_bounds());
    lemma_elapsed_before_increases(program.intervals, 0, program.intervals.len() as int);
    lemma_elapsed_before_bounds(program.intervals, 0);
}

/// Progress never goes back: with the same total duration, more seconds ridden
/// never show a smaller percentage.
pub proof fn lemma_percent_monotonic(earlier: ExecutionView, later: ExecutionView)
    requires
        earlier.total_duration == later.total_duration,
        earlier.total_elapsed <= later.total_elapsed,
    ensures
        earlier.percent_done() <= later.percent_done(),
{
    if earlier.total_duration > 0 {
        lemma_div_is_ordered(
            (earlier.total_elapsed * 100) as int,
            (later.total_elapsed * 100) as int,
            earlier.total_duration as int,
        );
    }
}

/// Progress is 0 at second 0 and for a program that lasts no time, and it is
/// exactly 100 once the seconds ridden equal a positive total duration.
pub proof fn lemma_percent_endpoints(state: ExecutionView)
    ensures
        state.total_elapsed == 0 ==> state.percent_done() == 0,
        state.total_duration == 0 ==> state.percent_done() == 0,
        state.total_duration > 0 && state.total_elapsed == state.total_duration
            ==> state.percent_done() == 100,
{
    if state.total_duration > 0 {
        if state.total_elapsed == 0 {
            lemma_div_multiples_vanish(0, state.total_duration as int);
        }
        if state.total_elapsed == state.total_duration {
            lemma_div_multiples_vanish(100, state.total_duration as int);
            assert(state.total_elapsed * 100 == state.total_duration * 100);
            assert(state.total_duration * 100 == (state.total_duration as int) * 100);
        }
    }
}

/// Ticked from its start, a valid program shows 0 % at the start and exactly
/// 100 % in the state that the finishing tick leaves.
pub proof fn lemma_percent_from_start_to_finish(program: ProgramView)
    requires
        program.is_valid(),
    ensures
        program.started().percent_done() == 0,
        ExecutionView::after_ticks(program, program.total_duration()).percent_done() == 100,
{
    lemma_percent_endpoints(program.started());
    lemma_started_is_running(program);
    lemma_tick_keeps_schedule(program.started());
    lemma_ticks_after_finish(program, program.total_duration());
    lemma_percent_endpoints(ExecutionView::after_ticks(program, program.total_duration()));
}

} // verus!
