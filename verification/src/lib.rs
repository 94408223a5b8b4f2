//! Stateless authentication core of a personal-finance bookkeeping service:
//! password hashing, signed time-bounded tokens, the registration, login and
//! current-user flows, and the filter that guards protected routes.
//!
//! The service keeps no session. A token is proof of identity from the
//! instant it is issued until it expires, and nothing on the server can
//! revoke it. The user store, the clock and the network stay outside: the
//! flows in [`auth_service`] are steps from a state and a store reply to the
//! next state, and whoever runs them performs the one store request that
//! each state waits for.
//!
//! - [`auth_service`]: the hasher, the token codec and the three flows.
//! - [`token`], [`bearer`]: what a decoded token must hold, and reading a
//!   credential out of a header.
//! - [`flows`], [`store`], [`models`], [`errors`]: the states, the store
//!   protocol, the records and the failure codes.
//! - [`middleware`], [`controllers`]: the decision of the route filter and
//!   the response of each endpoint.
//! - [`guarantees`]: what is proved of the service as a whole.
//! - [`config`], [`pool`], [`health`], [`api_error`], [`expense`], [`text`]:
//!   startup checks, pool startup, health reports, and the failures and
//!   records of the bookkeeping endpoints.
//! - [`trusted`]: every contract that is believed rather than proved.

pub mod api_error;
pub mod auth_service;
pub mod bearer;
pub mod config;
pub mod controllers;
pub mod errors;
pub mod expense;
pub mod flows;
pub mod guarantees;
pub mod health;
pub mod middleware;
pub mod models;
pub mod pool;
pub mod store;
pub mod text;
pub mod token;
pub mod trusted;
