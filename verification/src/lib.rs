//! Running statistics of the frames on a CAN bus, one identifier at a
//! time, and the sources that the frames come from.
//!
//! The library computes and decides; it reads no clock, opens no socket and
//! never waits. Arrival times are handed in with the frames
//! ([`multi_stats::MultiStats::push`]), and a frame source says what its
//! caller has to do next ([`reader::CanBusReader::next_action`]).
//!
//! - [`frame`]: the frame, identifier and payload.
//! - [`stats`], [`periods`], [`ratio`]: the statistics of one identifier,
//!   the arithmetic on periods behind them, and exact quotients.
//! - [`multi_stats`]: the statistics of all identifiers, and narrowing them
//!   by a mask.
//! - [`trace`]: what holds of the statistics after every run of arrivals.
//! - [`config`], [`reader`], [`demo`], [`prng`]: choosing a frame source by
//!   name, reading it step by step, and the synthetic source with its
//!   generator.
//! - [`filter`], [`display`]: choosing identifiers by their bits, and values
//!   for showing the statistics as text.

pub mod config;
pub mod demo;
pub mod display;
pub mod filter;
pub mod frame;
pub mod multi_stats;
pub mod periods;
pub mod prng;
pub mod ratio;
pub mod reader;
pub mod stats;
pub mod trace;
