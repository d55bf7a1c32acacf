pub mod models;
pub mod service;
