//! Verified core of an authentication back end: account registration, login,
//! e-mail verification, refresh-token rotation and password reset, written as
//! state machines whose outside work (database, mail, hashing, randomness,
//! signing) is carried out by the caller, together with the request
//! validation rules and the mapping of outcomes to HTTP answers.

pub mod fault;
pub mod http;
pub mod identity;
pub mod models;
pub mod service;
pub mod time;
pub mod validation;
