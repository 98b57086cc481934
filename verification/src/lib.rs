pub mod database;
pub mod domain_types;
pub mod http;
pub mod ids;
pub mod passwords;
pub mod service;
pub mod web_api;
