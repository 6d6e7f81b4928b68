//! Credential checking and tamper-evident error messages for a login flow.
//!
//! - `authentication`: checks a password against the stored Argon2 hash, hashing once on
//!   every attempt so that unknown usernames cost as much as wrong passwords.
//! - `signing`: HMAC-SHA256 tags over the query string that carries an error message.
//! - `login`: what `POST /login` and `GET /login` answer, given the outcomes of the above.
//! - `domain`: validated subscriber data.
//! - `startup`: configuration values shared by the handlers.

pub mod authentication;
pub mod domain;
pub mod login;
pub mod signing;
pub mod startup;
