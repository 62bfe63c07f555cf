//! Command protocol of a small daemon that exposes a laptop's battery charge
//! limit and platform profile to local callers.

pub mod attribute;
pub mod command;
pub mod connector;
pub mod dispatcher;
pub mod number;
pub mod profile;
pub mod text;

pub use attribute::Attribute;
pub use command::{Command, ParseError, Verb};
pub use connector::ValidationError;
pub use dispatcher::{dispatch, handle_command, read_response, write_response, Action};
pub use profile::PlatformProfile;
