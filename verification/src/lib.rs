//! Stat scheduling and refresh engine for a status-bar indicator.
//!
//! The engine assigns each renderable fragment (a [`stat::Stat`]) an
//! independent refresh cadence, reconciles fixed-interval polling with
//! event-driven refresh requests posted through a single-slot
//! [`signal::Signal`] channel, and concatenates all cached fragments into
//! one line per tick. Probes, helper processes and the renderer sink are
//! external collaborators; the caller runs them and hands their results
//! back as plain strings.

pub mod cadence;
pub mod scheduler;
pub mod signal;
pub mod stat;
pub mod watcher;
