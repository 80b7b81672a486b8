//! Coarse recovery and round scheduling of a validator clock-sync service.
//!
//! Validators keep their clocks together by exchanging pulses in rounds, the fine loop. This
//! crate holds the decisions around it: when to pulse, when to close a round, and how validators
//! that have lost each other find back together. It does no input or output: the thread that
//! owns a [`driver::ServiceLoop`] reads the clock, talks to the transport and runs the fine loop.
//!
//! - [`driver`]: which outside work comes next, given what came of the last;
//! - [`service`]: the decisions that the loop is made of;
//! - [`recovery`]: counting the stake behind active panics;
//! - [`timing`] and [`clock`]: the timing constants and the arithmetic of the local clock;
//! - [`stake`] and [`peer`]: who holds how much;
//! - [`round`]: what the service exchanges with the fine loop, the wire and its log;
//! - [`timing_laws`], [`round_laws`], [`recovery_laws`], [`service_laws`] and [`driver_laws`]: what
//!   holds of all this together.
pub mod clock;
pub mod driver;
pub mod driver_laws;
pub mod peer;
pub mod recovery;
pub mod recovery_laws;
pub mod round;
pub mod round_laws;
pub mod service;
pub mod service_laws;
pub mod stake;
pub mod timing;
pub mod timing_laws;
