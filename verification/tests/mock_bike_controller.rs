use bike_trainer::error::ControlError;
use bike_trainer::mock_bike_controller::BikeController;
use bike_trainer::scheduler::TickOutcome;
use bike_trainer::telemetry::BikeData;
use bike_trainer::training_program::TrainingInterval;
use bike_trainer::training_program::TrainingProgram;

fn sprint(id: &str) -> TrainingProgram {
    TrainingProgram {
        id: id.to_string(),
        name: "Sprint".to_string(),
        description: None,
        intervals: vec![
            TrainingInterval { duration_secs: 2, power_target: 100, name: None },
            TrainingInterval { duration_secs: 1, power_target: 350, name: Some("sprint".to_string()) },
        ],
    }
}

#[test]
fn simulated_controller_starts_reachable_at_100_watts() {
    let controller = BikeController::new();
    assert_eq!(controller.get_data(), BikeData { speed: 0, rpm: 0, power: 100, connected: true });
    assert_eq!(controller.get_power(), 100);
}

#[test]
fn simulated_set_power_has_a_lower_bound() {
    let mut controller = BikeController::new();
    assert_eq!(controller.set_power(24), Err(ControlError::ValidationError));
    assert_eq!(controller.set_power(0), Err(ControlError::ValidationError));
    assert_eq!(controller.set_power(401), Err(ControlError::ValidationError));
    assert_eq!(controller.get_power(), 100);
    assert_eq!(controller.set_power(25), Ok(()));
    assert_eq!(controller.get_power(), 25);
    assert_eq!(controller.set_power(400), Ok(()));
    assert_eq!(controller.get_power(), 400);
}

#[test]
fn simulation_does_nothing_until_switched_on() {
    let mut controller = BikeController::new();
    assert!(!controller.simulation_step(5));
    assert_eq!(controller.get_data(), BikeData { speed: 0, rpm: 0, power: 100, connected: true });
}

#[test]
fn simulation_step_sets_cadence_and_speed() {
    let mut controller = BikeController::new();
    controller.begin_simulation();
    assert!(controller.simulation_step(0));
    assert_eq!(controller.get_data(), BikeData { speed: 1080, rpm: 60, power: 100, connected: true });
    assert!(controller.simulation_step(-10));
    assert_eq!(controller.get_data().rpm, 50);
    assert_eq!(controller.get_data().speed, 900);
    assert!(controller.simulation_step(10));
    assert_eq!(controller.get_data().rpm, 70);
    assert_eq!(controller.get_data().speed, 1260);
}

#[test]
fn simulated_cadence_never_goes_below_zero() {
    let mut controller = BikeController::new();
    controller.begin_simulation();
    assert!(controller.simulation_step(-61));
    assert_eq!(controller.get_data().rpm, 0);
    assert_eq!(controller.get_data().speed, 0);
    assert!(controller.simulation_step(i16::MIN));
    assert_eq!(controller.get_data().rpm, 0);
    assert!(controller.simulation_step(i16::MAX));
    assert_eq!(controller.get_data().rpm, 32827);
    assert_eq!(controller.get_data().speed, 590886);
}

#[test]
fn simulated_program_runs_without_a_device() {
    let mut controller = BikeController::new();
    assert_eq!(controller.create_program(sprint("s")), Ok(()));
    assert_eq!(controller.start_program("s"), Ok(()));
    assert_eq!(controller.get_power(), 100);
    assert_eq!(controller.start_program("s"), Err(ControlError::Conflict));
    assert_eq!(controller.update_program(sprint("s")), Err(ControlError::Conflict));
    assert_eq!(controller.delete_program("s"), Err(ControlError::Conflict));
    assert_eq!(controller.tick(), TickOutcome::Running { power_change: None });
    assert_eq!(controller.tick(), TickOutcome::Running { power_change: Some(350) });
    assert_eq!(controller.set_power(350), Ok(()));
    assert_eq!(controller.tick(), TickOutcome::Finished);
    assert_eq!(controller.get_active_program(), None);
    assert_eq!(controller.tick(), TickOutcome::Idle);
    assert_eq!(controller.get_power(), 350);
}

#[test]
fn simulated_catalog_and_stop() {
    let mut controller = BikeController::new();
    assert!(matches!(controller.stop_program(), Err(ControlError::Conflict)));
    assert_eq!(controller.start_program("s"), Err(ControlError::NotFound));
    assert_eq!(controller.create_program(sprint("s")), Ok(()));
    assert_eq!(controller.create_program(sprint("t")), Ok(()));
    assert_eq!(controller.list_programs().len(), 2);
    assert_eq!(controller.get_program("t"), Some(sprint("t")));
    assert_eq!(controller.start_program("t"), Ok(()));
    controller.tick();
    let reached = controller.stop_program().unwrap();
    assert_eq!(reached.program_id, "t");
    assert_eq!(reached.total_elapsed, 1);
    assert_eq!(reached.remaining_time(), 2);
    assert_eq!(controller.delete_program("t"), Ok(()));
    assert_eq!(controller.get_program("t"), None);
}
