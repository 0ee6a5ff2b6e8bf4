//! The fleet's shared memory of itself: what each vessel owns, what it
//! trusts, and how it communicates.
//!
//! Trust weights are fixed-point numbers (see [`TRUST_SCALE`]); each vessel
//! carries a Pythagorean48 direction index derived from its trust, and a
//! fleet is checked for Laman rigidity (E = 2V - 3).

pub mod manifest;
pub mod repo;
pub mod timestamp;
pub mod vessel;

pub use vessel::{Vessel, VesselStatus, MAX_TRUST_VECTOR, TRUST_SCALE};
pub use manifest::Manifest;
pub use repo::{Repo, RepoDomain};
pub use timestamp::{chrono_timestamp, timestamp_from_elapsed, timestamp_string};
