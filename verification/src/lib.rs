//! The logic of a small URL-shortening service: the records it stores, how a
//! short identifier is searched for, how a short link is resolved, and how
//! its HTTP answers are framed.

pub mod db;
pub mod trusted;
pub mod service;
pub mod utils;
pub mod routes;
