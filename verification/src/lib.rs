//! A client for the remote API of a vBulletin forum, as far as the handshake
//! goes: an initialization call that yields a session identity, and a login
//! call with the credentials of a forum account.
//!
//! The library never touches the network. For each call it builds the
//! request as a plain value, and it reads what came back from a plain value
//! in turn; in between, the caller sends the one and receives the other:
//!
//! 1. [`VBulletinApi::init_request`] gives the request that opens the
//!    handshake.
//! 2. [`VBulletinApi::new`] takes the [`http::Exchange`] that came of it and
//!    gives the client, or the failure text.
//! 3. [`VBulletinApi::login_request`] gives the request for a login.
//! 4. [`VBulletinApi::login`] takes the exchange that came of that and says
//!    whether the login worked.
//!
//! What each of these returns is stated in its contract over the definitions
//! in [`client`], [`session`], [`http`] and [`json`]; [`laws`] holds what
//! follows from them in general.

pub mod client;
pub mod http;
pub mod json;
pub mod laws;
pub mod session;
pub mod text;

pub use client::VBulletinApi;
