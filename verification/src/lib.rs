//! Typed client core for a remote academic-scheduling service.
//!
//! The service distinguishes a fixed, closed set of entity kinds, each with a
//! numeric wire code and an identifier shape ([`entities`]); event-detail
//! payloads arrive as heterogeneous, order-dependent arrays whose elements
//! inherit the tag of the previous element when their own label is absent
//! ([`event`]); and every request goes through a session-holding protocol
//! client ([`fetch`]).

pub mod calendar;
pub mod encode;
pub mod entities;
pub mod event;
pub mod fetch;
pub mod resources;
