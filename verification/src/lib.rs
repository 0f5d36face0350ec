//! A thin, verified client/service layer over a chat server's administrative
//! REST API: account registration with input validation, the admin user
//! resource (create / list / update), and a shared-secret registration
//! helper that computes an HMAC-based authorization code.
//!
//! Network transport is not part of this crate: every operation is split
//! into a verified request-building step and a verified response-handling
//! step, with the HTTP call itself left to the caller.

pub mod encoding;
pub mod error;
pub mod model;
pub mod pagination;
pub mod service;
pub mod shared_secret;
pub mod user;
pub mod user_id;
