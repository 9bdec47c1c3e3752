pub mod facades;
pub mod handlers;
pub mod models;
pub mod registration;
