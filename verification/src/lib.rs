//! The session controller of a terminal client for a captive portal: the
//! screens and what keys do on them, the state of the connection, the
//! keepalive schedule, and the line protocol spoken with the backend program
//! that does the network's work. The library decides; its caller draws, reads
//! keys, runs the backend and keeps the credentials file.

pub mod app;
pub mod backend;
pub mod clock;
pub mod components;
pub mod config;
pub mod keys;
pub mod laws;
pub mod model;
pub mod text;
