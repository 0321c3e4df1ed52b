use bike_trainer::training_program::ProgramExecutionState;
use bike_trainer::training_program::TrainingInterval;
use bike_trainer::training_program::TrainingProgram;

#[test]
fn test_program_total_duration() {
    let program = TrainingProgram {
        id: "test".to_string(),
        name: "Test Program".to_string(),
        description: None,
        intervals: vec![
            TrainingInterval {
                duration_secs: 60,
                power_target: 100,
                name: Some("Warmup".to_string()),
            },
            TrainingInterval {
                duration_secs: 120,
                power_target: 200,
                name: Some("Work".to_string()),
            },
        ],
    };

    assert_eq!(program.total_duration(), 180);
}

#[test]
fn test_execution_state_advance() {
    let program = TrainingProgram {
        id: "test".to_string(),
        name: "Test".to_string(),
        description: None,
        intervals: vec![
            TrainingInterval {
                duration_secs: 10,
                power_target: 100,
                name: None,
            },
            TrainingInterval {
                duration_secs: 10,
                power_target: 200,
                name: None,
            },
        ],
    };

    let mut state = ProgramExecutionState::new(program);
    assert_eq!(state.current_interval_index, 0);
    assert_eq!(state.current_power_target, 100);

    let finished = state.advance(5);
    assert!(!finished);
    assert_eq!(state.current_interval_index, 0);
    assert_eq!(state.elapsed_in_interval, 5);

    let finished = state.advance(5);
    assert!(!finished);
    assert_eq!(state.current_interval_index, 1);
    assert_eq!(state.current_power_target, 200);
    assert_eq!(state.elapsed_in_interval, 0);

    let finished = state.advance(10);
    assert!(finished);
}

fn interval(duration_secs: u32, power_target: u16, name: Option<&str>) -> TrainingInterval {
    TrainingInterval { duration_secs, power_target, name: name.map(|n| n.to_string()) }
}

fn program(id: &str, intervals: Vec<TrainingInterval>) -> TrainingProgram {
    TrainingProgram { id: id.to_string(), name: "Program".to_string(), description: None, intervals }
}

#[test]
fn total_duration_of_empty_program_is_zero() {
    let p = program("empty", vec![]);
    assert_eq!(p.total_duration(), 0);
    assert_eq!(p.checked_total_duration(), Some(0));
}

#[test]
fn checked_total_duration_reports_overflow() {
    let p = program("long", vec![interval(u32::MAX, 100, None), interval(1, 100, None)]);
    assert_eq!(p.checked_total_duration(), None);
    let q = program("edge", vec![interval(u32::MAX - 1, 100, None), interval(1, 100, None)]);
    assert_eq!(q.checked_total_duration(), Some(u32::MAX));
    assert_eq!(q.total_duration(), u32::MAX);
}

#[test]
fn validity_needs_at_least_one_interval() {
    assert!(!program("empty", vec![]).is_valid());
    assert!(program("one", vec![interval(1, 25, None)]).is_valid());
}

#[test]
fn validity_checks_duration_and_power_bounds() {
    assert!(!program("zero", vec![interval(0, 100, None)]).is_valid());
    assert!(!program("low", vec![interval(10, 24, None)]).is_valid());
    assert!(program("min", vec![interval(10, 25, None)]).is_valid());
    assert!(program("max", vec![interval(10, 400, None)]).is_valid());
    assert!(!program("high", vec![interval(10, 401, None)]).is_valid());
    assert!(!program("second", vec![interval(10, 100, None), interval(10, 0, None)]).is_valid());
}

#[test]
fn clone_keeps_every_field() {
    let mut p = program("p", vec![interval(5, 50, Some("a")), interval(6, 60, None)]);
    p.description = Some("text".to_string());
    let q = p.clone();
    assert_eq!(p, q);
    let s = ProgramExecutionState::new(p);
    assert_eq!(s.clone(), s);
}

#[test]
fn new_state_is_seeded_from_first_interval() {
    let p = program("ride", vec![interval(10, 100, Some("warmup")), interval(10, 200, Some("work"))]);
    let s = ProgramExecutionState::new(p.clone());
    assert_eq!(s.program_id, "ride");
    assert_eq!(s.program_name, "Program");
    assert_eq!(s.current_interval_index, 0);
    assert_eq!(s.elapsed_in_interval, 0);
    assert_eq!(s.total_elapsed, 0);
    assert_eq!(s.total_duration, 20);
    assert_eq!(s.current_power_target, 100);
    assert_eq!(s.current_interval_name, Some("warmup".to_string()));
    assert_eq!(s.program, p);
}

#[test]
fn new_state_of_empty_program_has_no_target() {
    let s = ProgramExecutionState::new(program("empty", vec![]));
    assert_eq!(s.current_power_target, 0);
    assert_eq!(s.current_interval_name, None);
    assert_eq!(s.total_duration, 0);
    assert_eq!(s.progress_percent(), 0);
    assert_eq!(s.remaining_time(), 0);
}

#[test]
fn scenario_two_intervals_of_ten_seconds() {
    let p = program("ride", vec![interval(10, 100, Some("warmup")), interval(10, 200, Some("work"))]);
    let mut s = ProgramExecutionState::new(p);
    assert_eq!(s.current_power_target, 100);

    assert!(!s.advance(5));
    assert_eq!(s.current_interval_index, 0);
    assert_eq!(s.elapsed_in_interval, 5);

    assert!(!s.advance(5));
    assert_eq!(s.current_interval_index, 1);
    assert_eq!(s.current_power_target, 200);
    assert_eq!(s.current_interval_name, Some("work".to_string()));
    assert_eq!(s.elapsed_in_interval, 0);

    assert!(s.advance(10));
    assert_eq!(s.total_elapsed, 20);
    assert_eq!(s.total_duration, 20);
}

#[test]
fn ticking_finishes_exactly_once_at_total_duration() {
    let p = program("p", vec![interval(3, 100, None), interval(2, 150, None), interval(4, 90, None)]);
    let total = p.total_duration();
    let mut s = ProgramExecutionState::new(p);
    let mut finished_at = Vec::new();
    for tick in 1..=(total + 5) {
        if s.advance(1) {
            finished_at.push(tick);
        }
    }
    assert_eq!(finished_at, vec![total]);
}

#[test]
fn boundary_is_taken_on_the_tick_that_reaches_it() {
    let p = program("p", vec![interval(2, 100, Some("a")), interval(2, 200, Some("b"))]);
    let mut s = ProgramExecutionState::new(p);
    assert!(!s.advance(1));
    assert_eq!((s.current_interval_index, s.elapsed_in_interval, s.current_power_target), (0, 1, 100));
    assert_eq!(s.current_interval_name, Some("a".to_string()));
    assert!(!s.advance(1));
    assert_eq!((s.current_interval_index, s.elapsed_in_interval, s.current_power_target), (1, 0, 200));
    assert_eq!(s.current_interval_name, Some("b".to_string()));
    assert!(!s.advance(1));
    assert!(s.advance(1));
    assert_eq!(s.current_interval_index, 2);
    assert_eq!(s.current_power_target, 200);
}

#[test]
fn single_step_over_total_finishes_only_single_interval_programs() {
    let mut one = ProgramExecutionState::new(program("one", vec![interval(7, 100, None)]));
    assert!(one.advance(7));
    let mut two = ProgramExecutionState::new(program("two", vec![interval(3, 100, None), interval(4, 100, None)]));
    assert!(!two.advance(7));
    assert_eq!(two.current_interval_index, 1);
    assert_eq!(two.elapsed_in_interval, 0);
}

#[test]
fn advance_after_finish_reports_nothing() {
    let mut s = ProgramExecutionState::new(program("one", vec![interval(1, 100, None)]));
    assert!(s.advance(1));
    assert!(!s.advance(1));
    assert_eq!(s.total_elapsed, 2);
    assert_eq!(s.remaining_time(), 0);
}

#[test]
fn remaining_time_counts_down() {
    let mut s = ProgramExecutionState::new(program("p", vec![interval(10, 100, None), interval(5, 100, None)]));
    assert_eq!(s.remaining_time(), 15);
    s.advance(4);
    assert_eq!(s.remaining_time(), 11);
    s.advance(6);
    assert_eq!(s.remaining_time(), 5);
}

#[test]
fn progress_percent_runs_from_0_to_100() {
    let mut s = ProgramExecutionState::new(program("p", vec![interval(3, 100, None)]));
    assert_eq!(s.progress_percent(), 0);
    s.advance(1);
    assert_eq!(s.progress_percent(), 33);
    s.advance(1);
    assert_eq!(s.progress_percent(), 66);
    assert!(s.advance(1));
    assert_eq!(s.progress_percent(), 100);
}

#[test]
fn progress_percent_never_decreases() {
    let mut s = ProgramExecutionState::new(program("p", vec![interval(7, 100, None), interval(6, 100, None)]));
    let mut last = s.progress_percent();
    for _ in 0..13 {
        s.advance(1);
        let now = s.progress_percent();
        assert!(now >= last);
        last = now;
    }
    assert_eq!(last, 100);
}
