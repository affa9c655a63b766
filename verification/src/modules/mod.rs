pub mod error_handler;
pub mod request;
