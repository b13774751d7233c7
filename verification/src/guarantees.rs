pub mod alignment;
pub mod credentials;
pub mod isolation;
pub mod lifecycle;
pub mod sparse_update;
