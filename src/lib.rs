pub mod api;
pub mod auth;
pub mod client;

pub use client::ItadApiBuilder;
