pub mod common_utils;
pub mod config;
pub mod response;
