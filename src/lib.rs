pub mod error;
pub mod token;
pub mod interceptor;
pub mod builder;
pub mod client;
pub mod subscribe;
pub mod laws;
pub mod response;
