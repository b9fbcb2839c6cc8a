//! The public address of the caller, and where that address is.
//!
//! Both facts come from public web services. For each fact there is a fixed
//! chain of providers: the first is attempted several times, the others are
//! asked once each, in order, and the first usable answer is the result. A
//! chain that is exhausted is reported in the record itself, never as a
//! fault.
//!
//! The library decides; it sends nothing and never waits. It says which
//! request is due and after how long a wait, takes the reply, and says what
//! follows, until the record is there:
//!
//! - [`retry`] is the primitive under both chains;
//! - [`provider`] holds the providers, their requests and how their answers
//!   are read;
//! - [`address`] and [`location`] are the two chains;
//! - [`lookup`] is the whole run, first the address and then its location;
//! - [`record`] holds the result, and [`render`] writes it as one line of
//!   JSON.
//!
//! Beside every type stands its mathematical content, and beside every
//! chain what it comes to for any replies whatever, with the laws that hold
//! of that.

pub mod address;
pub mod location;
pub mod lookup;
pub mod provider;
pub mod record;
pub mod render;
pub mod retry;
