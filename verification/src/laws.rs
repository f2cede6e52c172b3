//! What the operations of the library are for.
//!
//! Each law takes what calls were given and what they returned, and says how the two are related:
//! `call_ensures(f, arguments, result)` stands for a call of `f`.

pub mod agent;
pub mod dashboard;
pub mod discovery;
pub mod domain;
pub mod edid;
pub mod hosts;
pub mod locale;
pub mod macos;
pub mod network;
pub mod preparation;
pub mod selection;
pub mod service;
pub mod settings;
pub mod startup;
pub mod switching;
pub mod text;
pub mod update;
pub mod windows;
