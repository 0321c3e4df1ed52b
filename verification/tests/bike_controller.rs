use bike_trainer::bike_controller::BikeController;
use bike_trainer::connection::ConnectAction;
use bike_trainer::connection::ConnectEvent;
use bike_trainer::connection::ReconnectStep;
use bike_trainer::error::ControlError;
use bike_trainer::scheduler::TickOutcome;
use bike_trainer::telemetry::BikeData;
use bike_trainer::telemetry::PollAction;
use bike_trainer::telemetry::TelemetryReading;
use bike_trainer::training_program::TrainingInterval;
use bike_trainer::training_program::TrainingProgram;

fn two_step_program(id: &str) -> TrainingProgram {
    TrainingProgram {
        id: id.to_string(),
        name: "Two steps".to_string(),
        description: Some("warmup, then work".to_string()),
        intervals: vec![
            TrainingInterval { duration_secs: 10, power_target: 100, name: Some("warmup".to_string()) },
            TrainingInterval { duration_secs: 10, power_target: 200, name: Some("work".to_string()) },
        ],
    }
}

fn connected_controller() -> BikeController {
    let mut controller = BikeController::new();
    let mut attempt = controller.begin_connect();
    attempt.on_event(ConnectEvent::Scanned { devices: 1 });
    assert_eq!(attempt.on_event(ConnectEvent::Connected), ConnectAction::Established);
    controller.link_established();
    controller
}

#[test]
fn controller_starts_disconnected_and_empty() {
    let controller = BikeController::new();
    assert_eq!(controller.get_data(), BikeData { speed: 0, rpm: 0, power: 0, connected: false });
    assert_eq!(controller.get_power(), 0);
    assert!(!controller.is_connected());
    assert_eq!(controller.reconnect_attempts(), 0);
    assert!(controller.list_programs().is_empty());
    assert_eq!(controller.get_active_program(), None);
}

#[test]
fn set_power_rejects_450_and_changes_nothing() {
    let mut controller = connected_controller();
    assert_eq!(controller.set_power(120), Ok(()));
    let before = controller.get_data();
    assert_eq!(controller.set_power(450), Err(ControlError::ValidationError));
    assert_eq!(controller.get_data(), before);
    assert_eq!(controller.get_power(), 120);
}

#[test]
fn set_power_accepts_both_ends_of_the_range() {
    let mut controller = connected_controller();
    assert_eq!(controller.set_power(0), Ok(()));
    assert_eq!(controller.get_power(), 0);
    assert_eq!(controller.set_power(400), Ok(()));
    assert_eq!(controller.get_power(), 400);
    assert_eq!(controller.set_power(401), Err(ControlError::ValidationError));
    assert_eq!(controller.set_power(u16::MAX), Err(ControlError::ValidationError));
    assert_eq!(controller.get_power(), 400);
}

#[test]
fn set_power_needs_a_link() {
    let mut controller = BikeController::new();
    assert_eq!(controller.set_power(100), Err(ControlError::NoActiveLink));
    assert_eq!(controller.get_power(), 0);
    assert_eq!(controller.set_power(500), Err(ControlError::ValidationError));
}

#[test]
fn program_crud_through_the_controller() {
    let mut controller = BikeController::new();
    assert_eq!(controller.create_program(two_step_program("ride")), Ok(()));
    assert_eq!(controller.create_program(two_step_program("ride")), Err(ControlError::Conflict));
    assert_eq!(controller.get_program("ride"), Some(two_step_program("ride")));
    assert_eq!(controller.get_program("climb"), None);
    let mut changed = two_step_program("ride");
    changed.name = "Changed".to_string();
    assert_eq!(controller.update_program(changed.clone()), Ok(()));
    assert_eq!(controller.get_program("ride"), Some(changed));
    assert_eq!(controller.update_program(two_step_program("climb")), Err(ControlError::NotFound));
    assert_eq!(controller.delete_program("climb"), Err(ControlError::NotFound));
    assert_eq!(controller.delete_program("ride"), Ok(()));
    assert!(controller.list_programs().is_empty());
}

#[test]
fn start_needs_known_program_and_link() {
    let mut controller = BikeController::new();
    assert_eq!(controller.start_program("ride"), Err(ControlError::NotFound));
    assert_eq!(controller.create_program(two_step_program("ride")), Ok(()));
    assert_eq!(controller.start_program("ride"), Err(ControlError::NoActiveLink));
    assert_eq!(controller.get_active_program(), None);
    assert_eq!(controller.get_power(), 0);
}

#[test]
fn start_sets_the_first_target() {
    let mut controller = connected_controller();
    assert_eq!(controller.create_program(two_step_program("ride")), Ok(()));
    assert_eq!(controller.start_program("ride"), Ok(()));
    assert_eq!(controller.get_power(), 100);
    let state = controller.get_active_program().unwrap();
    assert_eq!(state.program_id, "ride");
    assert_eq!(state.current_interval_index, 0);
    assert_eq!(state.current_power_target, 100);
    assert_eq!(state.total_duration, 20);
    assert_eq!(state.total_elapsed, 0);
}

#[test]
fn running_program_cannot_be_edited_or_restarted() {
    let mut controller = connected_controller();
    assert_eq!(controller.create_program(two_step_program("ride")), Ok(()));
    assert_eq!(controller.create_program(two_step_program("climb")), Ok(()));
    assert_eq!(controller.start_program("ride"), Ok(()));
    assert_eq!(controller.update_program(two_step_program("ride")), Err(ControlError::Conflict));
    let mut broken = two_step_program("ride");
    broken.intervals.clear();
    assert_eq!(controller.update_program(broken), Err(ControlError::Conflict));
    assert_eq!(controller.delete_program("ride"), Err(ControlError::Conflict));
    assert_eq!(controller.start_program("ride"), Err(ControlError::Conflict));
    assert_eq!(controller.start_program("climb"), Err(ControlError::Conflict));
    assert_eq!(controller.start_program("nope"), Err(ControlError::Conflict));
    assert_eq!(controller.get_program("ride"), Some(two_step_program("ride")));
    assert_eq!(controller.update_program(two_step_program("climb")), Ok(()));
    assert_eq!(controller.delete_program("climb"), Ok(()));
}

#[test]
fn stop_reports_progress_and_frees_the_program() {
    let mut controller = connected_controller();
    assert!(matches!(controller.stop_program(), Err(ControlError::Conflict)));
    assert_eq!(controller.create_program(two_step_program("ride")), Ok(()));
    assert_eq!(controller.start_program("ride"), Ok(()));
    for _ in 0..7 {
        controller.tick();
    }
    let reached = controller.stop_program().unwrap();
    assert_eq!(reached.total_elapsed, 7);
    assert_eq!(reached.total_duration, 20);
    assert_eq!(reached.progress_percent(), 35);
    assert_eq!(controller.get_active_program(), None);
    assert!(matches!(controller.stop_program(), Err(ControlError::Conflict)));
    assert_eq!(controller.delete_program("ride"), Ok(()));
}

#[test]
fn ticking_runs_the_program_to_its_end() {
    let mut controller = connected_controller();
    assert_eq!(controller.tick(), TickOutcome::Idle);
    assert_eq!(controller.create_program(two_step_program("ride")), Ok(()));
    assert_eq!(controller.start_program("ride"), Ok(()));
    for second in 1..=9u32 {
        assert_eq!(controller.tick(), TickOutcome::Running { power_change: None });
        assert_eq!(controller.get_active_program().unwrap().total_elapsed, second);
    }
    assert_eq!(controller.tick(), TickOutcome::Running { power_change: Some(200) });
    let state = controller.get_active_program().unwrap();
    assert_eq!(state.current_interval_index, 1);
    assert_eq!(state.elapsed_in_interval, 0);
    assert_eq!(state.current_interval_name, Some("work".to_string()));
    assert_eq!(controller.get_power(), 100);
    assert_eq!(controller.tick(), TickOutcome::Running { power_change: Some(200) });
    assert_eq!(controller.set_power(200), Ok(()));
    for _ in 12..=19 {
        assert_eq!(controller.tick(), TickOutcome::Running { power_change: None });
    }
    assert_eq!(controller.tick(), TickOutcome::Finished);
    assert_eq!(controller.get_active_program(), None);
    assert_eq!(controller.tick(), TickOutcome::Idle);
    assert_eq!(controller.start_program("ride"), Ok(()));
}

#[test]
fn poll_success_updates_the_snapshot() {
    let mut controller = connected_controller();
    assert_eq!(controller.set_power(180), Ok(()));
    let reading = TelemetryReading { speed: Some(215), rpm: Some(64), power_target: Some(25) };
    assert_eq!(controller.poll_completed(Some(reading)), PollAction::Continue);
    assert_eq!(controller.get_data(), BikeData { speed: 2150, rpm: 64, power: 180, connected: true });
}

#[test]
fn lost_link_calls_for_a_reconnect_after_three_failures() {
    let mut controller = BikeController::new();
    controller.link_established();
    let mut attempt = controller.begin_connect();
    assert_eq!(attempt.pending(), ConnectAction::ReleaseLink { settle_millis: 500 });
    assert!(!controller.is_connected());
    assert!(controller.get_data().connected);
    assert_eq!(controller.poll_completed(None), PollAction::Continue);
    assert_eq!(controller.poll_completed(None), PollAction::Continue);
    assert!(controller.get_data().connected);
    assert_eq!(controller.poll_completed(None), PollAction::Reconnect);
    assert!(!controller.get_data().connected);
    assert_eq!(controller.reconnect(), Ok(ReconnectStep::Attempt(1)));
    assert_eq!(controller.reconnect_completed(false), PollAction::Pause { secs: 5 });
    assert_eq!(controller.poll_completed(None), PollAction::Reconnect);
    assert_eq!(controller.reconnect(), Ok(ReconnectStep::Attempt(2)));
    controller.link_established();
    assert_eq!(controller.reconnect_attempts(), 0);
    assert_eq!(controller.reconnect_completed(true), PollAction::Continue);
    assert!(controller.get_data().connected);
    assert_eq!(controller.poll_completed(None), PollAction::Continue);
}

#[test]
fn noisy_link_is_kept() {
    let mut controller = connected_controller();
    assert_eq!(controller.poll_completed(None), PollAction::Continue);
    assert_eq!(controller.poll_completed(None), PollAction::Continue);
    assert_eq!(controller.poll_completed(None), PollAction::Pause { secs: 2 });
    assert!(controller.is_connected());
    assert!(controller.get_data().connected);
    assert_eq!(controller.reconnect(), Ok(ReconnectStep::AlreadyConnected));
    assert_eq!(controller.reconnect_attempts(), 0);
}

#[test]
fn reading_without_a_link_counts_as_a_failure() {
    let mut controller = BikeController::new();
    let reading = TelemetryReading { speed: Some(100), rpm: Some(50), power_target: None };
    assert_eq!(controller.poll_completed(Some(reading)), PollAction::Continue);
    assert_eq!(controller.poll_completed(Some(reading)), PollAction::Continue);
    assert_eq!(controller.poll_completed(Some(reading)), PollAction::Reconnect);
    assert_eq!(controller.get_data(), BikeData { speed: 0, rpm: 0, power: 0, connected: false });
}

#[test]
fn reconnect_ceiling_through_the_controller() {
    let mut controller = BikeController::new();
    for n in 1..=5u32 {
        assert_eq!(controller.reconnect(), Ok(ReconnectStep::Attempt(n)));
    }
    assert_eq!(controller.reconnect(), Err(ControlError::RetryExhausted));
    assert_eq!(controller.reconnect_attempts(), 0);
}
