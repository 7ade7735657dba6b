//! Resolution, caching and bisection of Electron releases.
//!
//! The library decides; the program around it performs the network and
//! filesystem work that each decision asks for and hands the outcome back.

pub mod acquire;
pub mod bisect;
pub mod cache;
pub mod catalog;
pub mod commands;
pub mod config;
pub mod electron;
pub mod error;
pub mod resolver;
pub mod target;
pub mod text;
pub mod version;
