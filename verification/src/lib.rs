//! Cooperative task-polling primitives with an explicit wakeup protocol.
//!
//! Components produce or consume values over time, driven by repeated
//! non-blocking polls. A component that is not yet ready returns a
//! suspension carrying an [`protocol::AgreementToNotify`]: a single-use token
//! asserting that someone has arranged to notify the driving task once
//! progress is possible. Tokens flow upward through composed components;
//! the [`sleeper::Sleeper`] is the one place where a notification is
//! actually produced, from a background timer.
//!
//! The conventional token-free polling convention is derived at the boundary
//! by the adapter functions in [`protocol`].

mod clock;

mod notify;

pub mod protocol;

pub mod sleeper;

pub mod instant;

pub mod delayed;

pub mod instant_series;

pub mod delayed_series;

pub mod buffered;

pub mod adapter;
