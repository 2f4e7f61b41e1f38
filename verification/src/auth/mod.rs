pub mod error;
pub mod fetcher;
pub mod jwt;
pub mod token;
pub mod user_account;
pub mod hyper_fetcher;
pub mod auth_interceptor;
