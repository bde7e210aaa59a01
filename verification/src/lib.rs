//! A pull-based metrics exporter for account statistics.
//!
//! A scheduler decides when to poll a remote statistics API for one subject;
//! each successful poll writes five gauge values into a [`registry::MetricRegistry`]
//! as one grouped update, and an HTTP endpoint serves the current registry
//! snapshot in the text exposition format. This crate holds the verified core:
//! the registry and its grouped-update discipline, the collector's folding of a
//! poll outcome into the registry, the scheduler's firing decision, and the
//! exposition encoding. Binding the port, speaking HTTP, and calling the remote
//! API are left to the surrounding binary.

pub mod config;
pub mod registry;
pub mod collector;
pub mod exposition;
pub mod schedule;
pub mod shared;

