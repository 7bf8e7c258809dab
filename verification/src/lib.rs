//! Clients for two Google REST services, Cloud Document AI and YouTube
//! Reporting, with proofs of what they decide.
//!
//! A call is built with a builder that a hub hands out. `doit` turns the
//! builder into an [`exchange::Exchange`]: it checks the additional
//! parameters against the names that the call sets itself, fills the path,
//! and has address and query made one URL, unless the two are longer than
//! `web::URL_LIMIT` allows. The exchange then says, step by
//! step, what is to be done: fetch a token, send the request, ask the
//! delegate, rest, decode, finish. Doing it is left to the caller, who
//! reports back what happened; the exchange itself touches neither the
//! network nor the clock.
//!
//! * [`text`], [`params`] and [`scopes`] hold the texts, parameter lists and
//!   scope sets that requests are made of.
//! * [`web`] holds what the `url`, `mime` and `hyper` crates compute, under
//!   contracts that are taken from their sources and not proved.
//! * [`request`] drafts address and query, [`exchange`] runs the call.
//! * [`client`] holds the vocabulary that the services share.
//! * [`documentai1_beta2`] and [`youtubereporting1`] hold the services: their
//!   scopes, hubs, records and call builders.

pub mod client;
pub mod documentai1_beta2;
pub mod exchange;
pub mod params;
pub mod request;
pub mod scopes;
pub mod text;
pub mod web;
pub mod youtubereporting1;
