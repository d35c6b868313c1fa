//! A minimal shared counter service: four independent unsigned counters that
//! can be incremented one at a time, reset together by an authorized caller,
//! and watched over a single live update channel. Every mutation pushes a
//! fresh snapshot of all four counters to the one registered consumer, if any.

pub mod channel;
pub mod counting;
pub mod msg;
pub mod service;
