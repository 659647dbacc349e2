//! Liveness checks of HTTP(S) endpoints.
//!
//! `status` holds the record that one probe produces and `probe` what
//! a probe makes of the end of its HTTP exchange. `protocol` is the state machine of one batch run, over
//! mathematical values: which task to start, when to wait for a result,
//! when to join, and when the run is complete. `laws` proves what holds
//! of every run, and `batch` is the state machine in executable form,
//! for a driver that starts the tasks and feeds their results back.

pub mod batch;
pub mod laws;
pub mod probe;
pub mod protocol;
pub mod status;
