//! The notification subsystem of a desktop shell around a web app, with the
//! small pieces of shell state around it.
//!
//! - `manager`: the registered click callback and the identifier-to-URL
//!   metadata, with the one-time slot that holds the process's manager.
//! - `click`: what a backend reports when a notification is used.
//! - `links`: which URLs may become deep links, and where a click or an
//!   incoming deep link leads.
//! - `commands`: the front end's operations: scheme checks and "show a
//!   notification".
//! - `backends`: the decisions of the platform backends: native action
//!   identifiers and the permission prompt.
//! - `download`, `updater`, `theme`: the decisions around saving files,
//!   offering updates and reading the system appearance.
//! - `text`: text predicates and the checks proved against them.

pub mod backends;
pub mod click;
pub mod commands;
pub mod download;
pub mod links;
pub mod manager;
pub mod text;
pub mod theme;
pub mod updater;
