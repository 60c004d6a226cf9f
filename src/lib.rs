//! Request dispatching for the channel service: routing a buffered request
//! to one of the domain operations and turning the outcome into a response.
pub mod dispatch;
pub mod json;
pub mod laws;
pub mod route;
pub mod text;
