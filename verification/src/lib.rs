//! Presence control for a chat service, driven by credentials that an
//! installed client has already cached on this machine.
//!
//! The crate decides; its caller reads and sends. Given the records of a
//! store it says which hold a credential ([`store`], [`cookie`]), reads
//! the expiration out of a credential ([`jwt`]) and chooses the freshest
//! credential that is still valid ([`token`]). Given what the user asked
//! for ([`presence`], [`schedule`], [`time`]) it builds the two requests
//! of a presence update and judges their answers ([`publish`]), and it
//! sequences the passes of one invocation ([`sync`]). Where the stores lie
//! is told by [`paths`], and what can go wrong by [`failure`].
//!
//! Every function is verified against its contract, with one exception:
//! the calls into other crates, which are gathered in [`outside`] and
//! whose contracts are taken on trust.

pub mod cookie;
pub mod failure;
pub mod jwt;
pub mod outside;
pub mod paths;
pub mod presence;
pub mod publish;
pub mod schedule;
pub mod store;
pub mod sync;
pub mod text;
pub mod time;
pub mod token;
