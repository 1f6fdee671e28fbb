pub mod handlers;
pub mod laws;
pub mod quote;
pub mod store;
mod sys;
