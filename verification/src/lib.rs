//! Verified core of a live terminal dashboard over host metrics.
//!
//! The crate owns the data model and state machine of the dashboard: the
//! record built on each sampler tick, the append-only temperature history
//! with its hard bound, the unit toggle, the run state, and the read
//! accessors a renderer consumes.  Host-metric acquisition, terminal input
//! and rendering are collaborators that live outside the library and talk
//! to it through plain values.

pub mod app;
pub mod events;
pub mod temp;
pub mod text;
