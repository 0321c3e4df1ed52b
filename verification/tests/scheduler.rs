use bike_trainer::error::ControlError;
use bike_trainer::scheduler::ProgramScheduler;
use bike_trainer::scheduler::TickOutcome;
use bike_trainer::training_program::TrainingInterval;
use bike_trainer::training_program::TrainingProgram;

fn steady(id: &str, secs: u32, watts: u16) -> TrainingProgram {
    TrainingProgram {
        id: id.to_string(),
        name: "Steady".to_string(),
        description: None,
        intervals: vec![TrainingInterval { duration_secs: secs, power_target: watts, name: None }],
    }
}

#[test]
fn scheduler_prepare_does_not_start_anything() {
    let mut scheduler = ProgramScheduler::new();
    assert!(matches!(scheduler.prepare("a"), Err(ControlError::NotFound)));
    assert_eq!(scheduler.create_program(steady("a", 3, 120)), Ok(()));
    let state = scheduler.prepare("a").unwrap();
    assert_eq!(state.current_power_target, 120);
    assert!(!scheduler.is_running());
    scheduler.activate(state);
    assert!(scheduler.is_running());
    assert!(matches!(scheduler.prepare("a"), Err(ControlError::Conflict)));
    assert!(matches!(scheduler.prepare("zz"), Err(ControlError::Conflict)));
}

#[test]
fn scheduler_tick_compares_target_with_cached_power() {
    let mut scheduler = ProgramScheduler::new();
    assert_eq!(scheduler.create_program(steady("a", 3, 120)), Ok(()));
    let state = scheduler.prepare("a").unwrap();
    scheduler.activate(state);
    assert_eq!(scheduler.tick(120), TickOutcome::Running { power_change: None });
    assert_eq!(scheduler.tick(0), TickOutcome::Running { power_change: Some(120) });
    assert_eq!(scheduler.tick(0), TickOutcome::Finished);
    assert!(!scheduler.is_running());
    assert_eq!(scheduler.tick(0), TickOutcome::Idle);
}

#[test]
fn scheduler_keeps_running_state_through_catalog_edits() {
    let mut scheduler = ProgramScheduler::new();
    assert_eq!(scheduler.create_program(steady("a", 5, 120)), Ok(()));
    let state = scheduler.prepare("a").unwrap();
    scheduler.activate(state);
    scheduler.tick(120);
    assert_eq!(scheduler.create_program(steady("b", 5, 130)), Ok(()));
    assert_eq!(scheduler.update_program(steady("b", 6, 140)), Ok(()));
    assert_eq!(scheduler.delete_program("b"), Ok(()));
    assert_eq!(scheduler.update_program(steady("a", 9, 300)), Err(ControlError::Conflict));
    let running = scheduler.get_active_program().unwrap();
    assert_eq!(running.total_elapsed, 1);
    assert_eq!(running.program, steady("a", 5, 120));
    assert_eq!(scheduler.get_program("a"), Some(steady("a", 5, 120)));
    let stopped = scheduler.stop_program().unwrap();
    assert_eq!(stopped.total_elapsed, 1);
    assert_eq!(scheduler.update_program(steady("a", 9, 300)), Ok(()));
    assert_eq!(scheduler.list_programs(), vec![steady("a", 9, 300)]);
}
