//! Sign-in through a GitHub-style OAuth2 provider, the session that remembers
//! who signed in, and the guards that decide what a request may do.
//!
//! Everything here is executable Rust whose behaviour is stated in contracts
//! and proved by Verus. Network traffic, the database and template rendering
//! stay with the caller: the library is handed plain values and hands plain
//! values back.
//!
//! - [`identity`] describes the two requests to the provider and judges its
//!   replies.
//! - [`directory`] and [`permissions`] hold the users and what they may do.
//! - [`session`] binds a session to a user; [`web_session`] carries the
//!   binding to and from the session that the web framework keeps.
//! - [`guards`] work out who a request is from and let it through or not.
//! - [`oauth`] leads through a sign-in step by step, and signs out.
//! - [`homepage`] and [`jams`] decide what two pages of the site are made of.
//! - [`errors`] names what can go wrong and how it is answered.

pub mod directory;
pub mod errors;
pub mod guards;
pub mod homepage;
pub mod identity;
pub mod jams;
pub mod oauth;
pub mod permissions;
pub mod session;
pub mod web_session;
