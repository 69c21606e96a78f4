//! A verified core for a command-line weather report tool.
//!
//! The library resolves the effective configuration from its three sources
//! (command line, settings file, environment), computes the hour window for
//! the hourly forecast, and renders a fetched forecast into ordered lines of
//! text.  All I/O (argument parsing, reading the settings file, the HTTP
//! fetch, printing) lives outside the library and hands plain values in.

pub mod config;
pub mod models;
pub mod numfmt;
pub mod report;
pub mod timeparse;
pub mod api;
