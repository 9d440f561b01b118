//! Domain rules and request logic of a newsletter service: validation of
//! subscriber names and e-mail addresses, the environment and connection
//! settings, the e-mail delivery request and the subscription decisions.

pub mod configuration;
pub mod domain;
pub mod email_client;
pub mod routes;
pub mod secret;
pub mod text;
