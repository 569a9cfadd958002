//! An adaptation layer between a relational wire-protocol client and an
//! embedded analytical engine: dialect rewriting, statement dispatch, type
//! mapping, parameter binding, column description and row encoding.

pub mod auth;
pub mod config;
pub mod describe;
pub mod dispatch;
pub mod encode;
pub mod error;
pub mod params;
pub mod parser;
pub mod pattern;
pub mod text;
pub mod types;
