//! A stuttering clock: a fixed-period tick automaton that advances a
//! noisy finite-state walk, fires an observable "tick" pulse whenever
//! the walk returns to its origin, and accumulates per-state visit
//! counts that a background reporter formats into status lines.

pub mod automaton;
pub mod counters;
pub mod engine;
pub mod lfsr;
pub mod outputs;
pub mod report;

pub use automaton::Automaton;
pub use counters::VisitCounters;
pub use engine::Mode;
pub use lfsr::RandomSource;
pub use outputs::PinDrive;
