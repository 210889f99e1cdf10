//! Watches a battery's charge and decides when and how to alert the user.
//!
//! The crate holds the decisions only: every function here maps plain values to
//! plain values, and the caller performs what the returned requests ask for.

pub mod application;
pub mod cli;
pub mod common;
pub mod device;
pub mod error;
pub mod event;
pub mod notification;
pub mod notify;
pub mod parser;
pub mod platform;
pub mod text;
