pub mod blocker;
pub mod coded;
pub mod dispatch;
pub mod envelope;
pub mod error;
pub mod json;
pub mod laws;
pub mod provider;
pub mod request;
pub mod session;
pub mod source;
pub mod table;
pub mod text;
pub mod transport;
pub mod value;
