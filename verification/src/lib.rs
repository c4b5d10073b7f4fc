//! A second authentication factor for host logins: a short-lived numeric code
//! sent out of band, and temporary lockouts for addresses that fail it.
//!
//! Two parties share this library. The login side runs [`gate`], which decides
//! step by step what to do for one attempt and ends in allow, deny or error.
//! The service side runs [`service`] over a [`ban_store`]: it answers ban
//! queries, prepares the alert that carries the code, and records failures.
//! Neither side does any input or output here: callers hand in what they read,
//! the time included, and carry out what they are told.

pub mod attempt;
pub mod ban_store;
pub mod challenge;
pub mod gate;
pub mod service;
pub mod text;
pub mod verdict;
