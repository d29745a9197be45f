//! A credential broker for several game servers ("tenants") that share one
//! player database: request routing, tenant resolution, the five credential
//! commands and the rule that picks between a player's global password and a
//! tenant's override.

pub mod handler;
pub mod laws;
pub mod model;
pub mod resolve;
pub mod route;
pub mod schema;
pub mod store;
