//! Background fetch-and-load pipeline for a flight-planning plugin.
//!
//! The library holds the verified core: the single-occupancy handoff slot
//! that carries a background task's handle back to the polling thread, the
//! decision logic of the two-step download protocol against the planning
//! service, the error taxonomy, and the identity (username) cell. All I/O —
//! HTTP requests, file reads, and the host SDK calls — lives outside the
//! library and hands plain values in and out.

pub mod client;
pub mod errors;
pub mod identity;
pub mod metadata;
pub mod slot;
pub mod text;
