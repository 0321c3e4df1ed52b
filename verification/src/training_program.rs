use vstd::prelude::*;

verus! {

/// Lowest power target, in watts, that an interval of a valid program may ask for.
pub const MIN_INTERVAL_POWER: u16 = 25;

/// Highest power target, in watts, that an interval of a valid program may ask for.
pub const MAX_INTERVAL_POWER: u16 = 400;

/// One timed segment of a training program.
#[derive(Debug, PartialEq, Eq)]
pub struct TrainingInterval {
    /// How long the segment lasts, in seconds.
    pub duration_secs: u32,
    /// The power the bike is set to during the segment, in watts.
    pub power_target: u16,
    /// What the segment is called, if anything.
    pub name: Option<String>,
}

/// What a `TrainingInterval` stands for.
pub struct IntervalView {
    pub duration_secs: nat,
    pub power_target: nat,
    pub name: Option<Seq<char>>,
}

/// The text behind an optional string.
pub open spec fn text_of(s: Option<String>) -> Option<Seq<char>> {
    match s {
        Some(t) => Some(t@),
        None => None,
    }
}

impl View for TrainingInterval {
    type V = IntervalView;

    open spec fn view(&self) -> IntervalView {
        IntervalView {
            duration_secs: self.duration_secs as nat,
            power_target: self.power_target as nat,
            name: text_of(self.name),
        }
    }
}

impl IntervalView {
    /// The duration is positive and the power target lies in the accepted range.
    pub open spec fn in_bounds(self) -> bool {
        &&& self.duration_secs > 0
        &&& MIN_INTERVAL_POWER <= self.power_target <= MAX_INTERVAL_POWER
    }
}

impl Clone for TrainingInterval {
    fn clone(&self) -> (res: Self)
        ensures
            res@ == self@,
    {
        let name = match &self.name {
            Some(n) => Some(n.clone()),
            None => None,
        };
        TrainingInterval { duration_secs: self.duration_secs, power_target: self.power_target, name }
    }
}

/// The seconds that the intervals of `s` last, all together.
pub open spec fn duration_sum(s: Seq<IntervalView>) -> nat
    decreases s.len(),
{
    if s.len() == 0 {
        0
    } else {
        duration_sum(s.drop_last()) + s.last().duration_secs
    }
}

/// The seconds that the first `n` intervals of `s` last, all together.
pub open spec fn elapsed_before(s: Seq<IntervalView>, n: int) -> nat {
    duration_sum(s.take(n))
}

/// Adding one more interval to a prefix adds its duration.
pub proof fn lemma_elapsed_before_next(s: Seq<IntervalView>, n: int)
    requires
        0 <= n < s.len(),
    ensures
        elapsed_before(s, n + 1) == elapsed_before(s, n) + s[n].duration_secs,
{
    assert(s.take(n + 1).drop_last() =~= s.take(n));
}

/// A prefix never lasts longer than the whole, and the whole prefix is the whole.
pub proof fn lemma_elapsed_before_bounds(s: Seq<IntervalView>, n: int)
    requires
        0 <= n <= s.len(),
    ensures
        elapsed_before(s, n) <= duration_sum(s),
        elapsed_before(s, s.len() as int) == duration_sum(s),
        elapsed_before(s, 0) == 0,
    decreases s.len() - n,
{
    assert(s.take(s.len() as int) =~= s);
    assert(s.take(0).len() == 0);
    if n < s.len() {
        lemma_elapsed_before_next(s, n);
        lemma_elapsed_before_bounds(s, n + 1);
    }
}

/// A complete training program: an identified, ordered list of intervals.
#[derive(Debug, PartialEq, Eq)]
pub struct TrainingProgram {
    /// The key under which the program is stored.
    pub id: String,
    /// What the program is called.
    pub name: String,
    /// A free description, if any.
    pub description: Option<String>,
    /// The segments, in the order in which they are ridden.
    pub intervals: Vec<TrainingInterval>,
}

/// What a `TrainingProgram` stands for.
pub struct ProgramView {
    pub id: Seq<char>,
    pub name: Seq<char>,
    pub description: Option<Seq<char>>,
    pub intervals: Seq<IntervalView>,
}

impl View for TrainingProgram {
    type V = ProgramView;

    open spec fn view(&self) -> ProgramView {
        ProgramView {
            id: self.id@,
            name: self.name@,
            description: text_of(self.description),
            intervals: self.intervals@.map_values(|i: TrainingInterval| i@),
        }
    }
}

impl ProgramView {
    /// The seconds that the whole program lasts.
    pub open spec fn total_duration(self) -> nat {
        duration_sum(self.intervals)
    }

    /// There is at least one interval, and every interval is within bounds.
    pub open spec fn is_valid(self) -> bool {
        &&& self.intervals.len() > 0
        &&& forall|i: int| 0 <= i < self.intervals.len() ==> (#[trigger] self.intervals[i]).in_bounds()
    }

    /// The total duration can be held in a `u32`.
    pub open spec fn fits(self) -> bool {
        self.total_duration() <= u32::MAX
    }
}

impl Clone for TrainingProgram {
    fn clone(&self) -> (res: Self)
        ensures
            res@ == self@,
    {
        let description = match &self.description {
            Some(d) => Some(d.clone()),
            None => None,
        };
        let intervals = self.intervals.clone();
        assert(intervals@.map_values(|i: TrainingInterval| i@) =~= self.intervals@.map_values(
            |i: TrainingInterval| i@,
        ));
        TrainingProgram { id: self.id.clone(), name: self.name.clone(), description, intervals }
    }
}

impl TrainingProgram {
    /// The total duration in seconds, where it fits in a `u32`.
    pub fn checked_total_duration(&self) -> (total: Option<u32>)
        ensures
            total == (if self@.fits() {
                Some(self@.total_duration() as u32)
            } else {
                None
            }),
    {
        let ghost s = self@.intervals;
        let mut sum: u32 = 0;
        let mut i: usize = 0;
        proof {
            lemma_elapsed_before_bounds(s, 0);
        }
        while i < self.intervals.len()
            invariant
                s == self@.intervals,
                s.len() == self.intervals.len(),
                0 <= i <= self.intervals.len(),
                sum == elapsed_before(s, i as int),
            decreases self.intervals.len() - i,
        {
            proof {
                lemma_elapsed_before_next(s, i as int);
                lemma_elapsed_before_bounds(s, i as int + 1);
            }
            match sum.checked_add(self.intervals[i].duration_secs) {
                Some(next) => {
                    sum = next;
                },
                None => {
                    return None;
                },
            }
            i += 1;
        }
        proof {
            lemma_elapsed_before_bounds(s, i as int);
        }
        Some(sum)
    }

    /// The total duration of the program in seconds.
    pub fn total_duration(&self) -> (total: u32)
        requires
            self@.fits(),
        ensures
            total == self@.total_duration(),
    {
        match self.checked_total_duration() {
            Some(total) => total,
            None => unreached(),
        }
    }

    /// Whether the program can be stored and run.
    pub fn is_valid(&self) -> (valid: bool)
        ensures
            valid == self@.is_valid(),
    {
        if self.intervals.len() == 0 {
            return false;
        }
        let mut i: usize = 0;
        while i < self.intervals.len()
            invariant
                0 <= i <= self.intervals.len(),
                self@.intervals.len() == self.intervals.len(),
                forall|j: int| 0 <= j < i ==> (#[trigger] self@.intervals[j]).in_bounds(),
            decreases self.intervals.len() - i,
        {
            let interval = &self.intervals[i];
            if !(interval.duration_secs > 0 && interval.power_target >= MIN_INTERVAL_POWER
                && interval.power_target <= MAX_INTERVAL_POWER) {
                assert(!self@.intervals[i as int].in_bounds());
                return false;
            }
            i += 1;
        }
        true
    }
}

/// Progress through the one program that is running.
#[derive(Debug, PartialEq, Eq)]
pub struct ProgramExecutionState {
    /// The id of the running program.
    pub program_id: String,
    /// The name of the running program.
    pub program_name: String,
    /// Which interval is being ridden, counted from 0.
    pub current_interval_index: usize,
    /// Seconds spent in the current interval.
    pub elapsed_in_interval: u32,
    /// Seconds spent since the program started.
    pub total_elapsed: u32,
    /// Seconds that the whole program lasts.
    pub total_duration: u32,
    /// The power target of the current interval, in watts.
    pub current_power_target: u16,
    /// The name of the current interval.
    pub current_interval_name: Option<String>,
    /// The program as it was when it started.
    pub program: TrainingProgram,
}

/// What a `ProgramExecutionState` stands for.
pub struct ExecutionView {
    pub program_id: Seq<char>,
    pub program_name: Seq<char>,
    pub current_interval_index: nat,
    pub elapsed_in_interval: nat,
    pub total_elapsed: nat,
    pub total_duration: nat,
    pub current_power_target: nat,
    pub current_interval_name: Option<Seq<char>>,
    pub program: ProgramView,
}

impl View for ProgramExecutionState {
    type V = ExecutionView;

    open spec fn view(&self) -> ExecutionView {
        ExecutionView {
            program_id: self.program_id@,
            program_name: self.program_name@,
            current_interval_index: self.current_interval_index as nat,
            elapsed_in_interval: self.elapsed_in_interval as nat,
            total_elapsed: self.total_elapsed as nat,
            total_duration: self.total_duration as nat,
            current_power_target: self.current_power_target as nat,
            current_interval_name: text_of(self.current_interval_name),
            program: self.program@,
        }
    }
}

impl ProgramView {
    /// The state in which the program starts: at the head of its first interval,
    /// with that interval's target and name (0 W and no name if there is none).
    pub open spec fn started(self) -> ExecutionView {
        ExecutionView {
            program_id: self.id,
            program_name: self.name,
            current_interval_index: 0,
            elapsed_in_interval: 0,
            total_elapsed: 0,
            total_duration: self.total_duration(),
            current_power_target: if self.intervals.len() > 0 {
                self.intervals[0].power_target
            } else {
                0
            },
            current_interval_name: if self.intervals.len() > 0 {
                self.intervals[0].name
            } else {
                None
            },
            program: self,
        }
    }
}

impl ExecutionView {
    /// After `seconds` more, the current interval has been ridden to its end.
    pub open spec fn at_boundary(self, seconds: nat) -> bool {
        &&& self.current_interval_index < self.program.intervals.len()
        &&& self.elapsed_in_interval + seconds
            >= self.program.intervals[self.current_interval_index as int].duration_secs
    }

    /// After `seconds` more, the last interval has been ridden to its end.
    pub open spec fn finishes(self, seconds: nat) -> bool {
        &&& self.at_boundary(seconds)
        &&& self.current_interval_index + 1 == self.program.intervals.len()
    }

    /// The state `seconds` later. Time always adds up. At a boundary the index
    /// moves on and the time in the interval starts again from 0; where a next
    /// interval exists, its target and name are taken over in the same step.
    pub open spec fn advanced(self, seconds: nat) -> ExecutionView {
        let next = self.current_interval_index + 1;
        if !self.at_boundary(seconds) {
            ExecutionView {
                elapsed_in_interval: self.elapsed_in_interval + seconds,
                total_elapsed: self.total_elapsed + seconds,
                ..self
            }
        } else if next < self.program.intervals.len() {
            ExecutionView {
                current_interval_index: next,
                elapsed_in_interval: 0,
                total_elapsed: self.total_elapsed + seconds,
                current_power_target: self.program.intervals[next as int].power_target,
                current_interval_name: self.program.intervals[next as int].name,
                ..self
            }
        } else {
            ExecutionView {
                current_interval_index: next,
                elapsed_in_interval: 0,
                total_elapsed: self.total_elapsed + seconds,
                ..self
            }
        }
    }

    /// The seconds still to ride: never below 0.
    pub open spec fn remaining(self) -> nat {
        if self.total_duration >= self.total_elapsed {
            (self.total_duration - self.total_elapsed) as nat
        } else {
            0
        }
    }

    /// The share of the program that has been ridden, in whole percent, rounded
    /// down; 0 for a program that lasts no time.
    pub open spec fn percent_done(self) -> nat {
        if self.total_duration == 0 {
            0
        } else {
            (self.total_elapsed * 100) / self.total_duration
        }
    }
}

impl Clone for ProgramExecutionState {
    fn clone(&self) -> (res: Self)
        ensures
            res@ == self@,
    {
        let current_interval_name = match &self.current_interval_name {
            Some(n) => Some(n.clone()),
            None => None,
        };
        ProgramExecutionState {
            program_id: self.program_id.clone(),
            program_name: self.program_name.clone(),
            current_interval_index: self.current_interval_index,
            elapsed_in_interval: self.elapsed_in_interval,
            total_elapsed: self.total_elapsed,
            total_duration: self.total_duration,
            current_power_target: self.current_power_target,
            current_interval_name,
            program: self.program.clone(),
        }
    }
}

impl ProgramExecutionState {
    /// Starts `program`: the state is at the head of the first interval.
    pub fn new(program: TrainingProgram) -> (state: Self)
        requires
            program@.fits(),
        ensures
            state@ == program@.started(),
            state.program == program,
    {
        let total_duration = program.total_duration();
        let mut current_power_target: u16 = 0;
        let mut current_interval_name: Option<String> = None;
        if program.intervals.len() > 0 {
            let first = &program.intervals[0];
            current_power_target = first.power_target;
            current_interval_name = match &first.name {
                Some(n) => Some(n.clone()),
                None => None,
            };
        }
        ProgramExecutionState {
            program_id: program.id.clone(),
            program_name: program.name.clone(),
            current_interval_index: 0,
            elapsed_in_interval: 0,
            total_elapsed: 0,
            total_duration,
            current_power_target,
            current_interval_name,
            program,
        }
    }

    /// Moves the clock on by `seconds` and steps to the next interval where the
    /// current one is over. Returns whether the program has finished.
    pub fn advance(&mut self, seconds: u32) -> (finished: bool)
        requires
            old(self).elapsed_in_interval + seconds <= u32::MAX,
            old(self).total_elapsed + seconds <= u32::MAX,
        ensures
            final(self)@ == old(self)@.advanced(seconds as nat),
            finished == old(self)@.finishes(seconds as nat),
            final(self).program == old(self).program,
    {
        self.elapsed_in_interval += seconds;
        self.total_elapsed += seconds;
        if self.current_interval_index < self.program.intervals.len() {
            if self.elapsed_in_interval >= self.program.intervals[self.current_interval_index].duration_secs {
                self.current_interval_index += 1;
                self.elapsed_in_interval = 0;
                if self.current_interval_index < self.program.intervals.len() {
                    let next = &self.program.intervals[self.current_interval_index];
                    self.current_power_target = next.power_target;
                    self.current_interval_name = match &next.name {
                        Some(n) => Some(n.clone()),
                        None => None,
                    };
                } else {
                    return true;
                }
            }
        }
        false
    }

    /// The seconds still to ride.
    pub fn remaining_time(&self) -> (remaining: u32)
        ensures
            remaining == self@.remaining(),
    {
        if self.total_duration >= self.total_elapsed {
            self.total_duration - self.total_elapsed
        } else {
            0
        }
    }

    /// Progress in whole percent, rounded down.
    pub fn progress_percent(&self) -> (percent: u64)
        ensures
            percent == self@.percent_done(),
    {
        if self.total_duration == 0 {
            0
        } else {
            (self.total_elapsed as u64 * 100) / (self.total_duration as u64)
        }
    }
}

} // verus!
