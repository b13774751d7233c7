pub mod client;
pub mod credential;
pub mod token;
