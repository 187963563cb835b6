//! Turns the HTML page of a real-estate listing into a structured record, by
//! independent line-scanning passes whose findings are merged under per-field
//! rules, and holds the configuration and plain values around that service.
pub mod text;
pub mod scan;
pub mod numeric;
pub mod record;
pub mod island;
pub mod passes;
pub mod service;
pub mod laws;
pub mod config;
pub mod dto;
pub mod house;
