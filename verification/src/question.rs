pub mod dto;
pub mod models;
pub mod service;
