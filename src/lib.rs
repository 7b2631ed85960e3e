//! Bounded single-producer/single-consumer channels whose two endpoints are
//! tagged, at the type level, with the thread role allowed to hold them.
pub mod queue;
pub mod thread;
