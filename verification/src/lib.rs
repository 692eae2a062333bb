//! The decisions of a WKWebView-backed web view: what the platform is asked, what it is told, in
//! which order, and what the web view remembers in between.

pub mod attributes;
pub mod command;
pub mod cookie;
pub mod creation;
pub mod dialogue;
pub mod error;
pub mod geometry;
pub mod headers;
pub mod laws;
pub mod print;
pub mod registry;
pub mod url;
pub mod webview;
pub mod window;
