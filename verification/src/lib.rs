//! Control logic for an exercise bike reached over an intermittent wireless link:
//! the connection supervisor, the telemetry poller, the power setpoint rules, the
//! catalog of training programs and the scheduler that runs one program at a time.
//!
//! Everything here is a function from state and event to next state and action.
//! The caller owns the clock, the locks and the device handle.

pub mod error;
pub mod training_program;
pub mod training_program_proofs;
pub mod program_store;
pub mod connection;
pub mod telemetry;
pub mod scheduler;
pub mod bike_controller;
pub mod mock_bike_controller;
