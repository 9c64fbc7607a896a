//! Control plane of a virtual network: rooms, groups, devices and the configuration pushed to
//! them.
pub mod api;
pub mod auth;
pub mod client_api;
pub mod config;
pub mod crypto;
pub mod db;
pub mod flow;
pub mod http_server;
pub mod json;
pub mod laws;
pub mod models;
pub mod outside;
pub mod sql;
pub mod state;
pub mod status;
pub mod text;
