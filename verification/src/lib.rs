//! Verified core of a Wayland clipboard persistence daemon: the settings it
//! accepts, the text it logs, the reconnect decisions it takes, the exit codes
//! it answers signals with, and the zeroizing buffer its clipboard data lives in.

pub mod decimal;
pub mod text;
pub mod settings;
pub mod reconnect;
pub mod logger;
pub mod mime_type_regex;
pub mod signal;
pub mod zeroize;
