//! The verified core of a terminal client that manages /plu/ral userproxies:
//! the application state machine, query filtering, key handling, accent
//! colour cycling and the decisions around the gateway and the API.

pub mod app;
pub mod config;
pub mod event;
pub mod gateway;
pub mod json;
pub mod keys;
pub mod layout;
pub mod text;
pub mod titles;
pub mod userproxy;
