pub mod api;
pub mod gdpr;
