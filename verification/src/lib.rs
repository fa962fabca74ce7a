//! Building blocks for small command-line programs that talk to a cloud
//! control plane.
//!
//! The centre is a poll-until-ready waiter with exponential backoff
//! ([`waiter`], [`backoff`]): how a wait unfolds as a whole ([`script`]),
//! what holds of every wait ([`laws`]), and the wait for a new table
//! ([`crud`]). Around it stand the retry classification used while a table
//! is being created ([`retry`]), the shapes of tables, items and queries
//! ([`tables`], [`values`], [`movies`], [`crud`], [`photos`]), a listing of
//! keys ([`keys`]), a cache of temporary credentials ([`credentials`]) and
//! two small exercises ([`guessing`], [`numbers`]).
//!
//! Everything here is decision logic over plain values. The caller
//! performs the remote calls, reads the clock and sleeps.

pub mod backoff;
pub mod credentials;
pub mod crud;
pub mod guessing;
pub mod keys;
pub mod laws;
pub mod movies;
pub mod numbers;
pub mod photos;
pub mod retry;
pub mod script;
pub mod strings;
pub mod tables;
pub mod values;
pub mod waiter;
