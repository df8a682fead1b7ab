//! A verified point-of-sale backend core: the request-validation,
//! persistence and response-shaping pipeline behind the HTTP handlers.

pub mod auth;
pub mod config;
pub mod customer;
pub mod errors;
mod ids;
pub mod jwt;
pub mod password;
pub mod product;
pub mod product_store;
pub mod products;
pub mod sale;
pub mod sql;
pub mod stock_movement;
pub mod user;
pub mod user_store;
pub mod validation;
