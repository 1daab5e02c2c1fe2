//! A small weather-widget library: it models a weather observation for a
//! place, renders it as a deterministic HTML fragment, and decides the HTTP
//! reply for a request from the outcome of a fetch. The network fetch, the
//! HTTP server runtime, static-file serving and YAML configuration parsing
//! are external collaborators and live outside this library.

pub mod config;
pub mod handler;
pub mod numfmt;
pub mod render;
pub mod weather;
