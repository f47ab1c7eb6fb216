//! A minimal single-threaded cooperative scheduler, as verified state
//! machines: a suspension signal, a first-in first-out run queue, the
//! executor that pairs them and that spawning and waking act on, the driver
//! that decides what the drive loop does next, and a delay whose readiness
//! is never early. Futures, wakers, locks and threads stay with the caller,
//! which performs the driver's actions and reports their outcome.
pub mod delay;
pub mod driver;
pub mod executor;
pub mod queue;
pub mod signal;
