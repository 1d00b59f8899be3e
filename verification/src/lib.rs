//! Client core for a drink vending service behind single sign-on.
//!
//! The crate holds every decision the client makes: how a bearer credential is
//! found in a redirect, when a login is attempted and when it is given up, which
//! headers a request carries and how a reply becomes a value or an error. What
//! touches the network, the terminal or another process is left to the caller,
//! which performs the step the library names and reports back what happened.

pub mod api;
pub mod error;
pub mod login;
pub mod model;
pub mod number;
pub mod operations;
pub mod redirect;
pub mod request;
pub mod text;
