pub mod dto;
pub mod model;
pub mod repository;
pub mod service;
