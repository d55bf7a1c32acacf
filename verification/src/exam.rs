pub mod dto;
pub mod laws;
pub mod models;
pub mod repository;
pub mod service;
