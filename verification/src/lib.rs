//! Verified core of a Tauri front-end binding: the request, response and body
//! model of the HTTP module, its error taxonomy, and the actor that lets a
//! freely cloneable client handle drive a remote client pinned to one
//! execution context.
pub mod cli;
pub mod dialog;
pub mod error;
pub mod event;
pub mod fs;
pub mod http;
pub mod notification;
pub mod os;
pub mod outside;
pub mod path;
pub mod tauri;

pub use error::Error;
