//! Strawberry ID: the logic of a single-sign-on service. Users log in with a
//! password and, optionally, a one-time password; the service hands out
//! short-lived login codes for websites, OAuth clients and services, and
//! checks them when the client comes back.
//!
//! - `system_core`: the code store (issue, check, bind) and password checks
//! - `object`, `params`, `config`, `db`, `locale`, `state`: the data
//! - `login`, `oauth`, `api`, `account`, `routes`: what each page decides
//! - `totp`: one-time-password setup and checks
//! - `utilities`, `uuid`, `text`: hashing, identifiers and text helpers
//! - `primitives`: the calls into other crates and into std

pub mod text;
pub mod primitives;
pub mod consts;
pub mod locale;
pub mod object;
pub mod params;
pub mod config;
pub mod db;
pub mod state;
pub mod utilities;
pub mod uuid;
pub mod system_core;
pub mod totp;
pub mod routes;
pub mod login;
pub mod oauth;
pub mod api;
pub mod account;
