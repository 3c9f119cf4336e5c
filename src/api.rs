pub mod values;
pub mod params;
pub mod error;
pub mod endpoint;
pub mod search;
pub mod stats;
pub mod user;
pub mod game;
pub mod collection;
pub mod waitlist;
pub mod web;
pub mod deals;
pub mod query;
