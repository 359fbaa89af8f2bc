//! Daily lunch menu relay.
//!
//! Once a day the relay asks a food service for the menu of the day, turns
//! the answer into a chat message and posts it to a webhook. This library
//! holds the rules of that work, each with its contract; reading the
//! environment, the network traffic and the timer are left to the program
//! around it.
//!
//! - [`config`] settles the settings from what the environment and the
//!   environment file hold.
//! - [`schedule`] reads the configured time of day and plans the first tick.
//! - [`tick`] leads one round from the tick to the body that is posted.
//! - [`lunch`] builds the request and reads the response.
//! - [`message`] formats the menu; [`allergens`] finds the peanuts.
//! - [`text`] searches texts.
//!
//! Three things are taken on trust, each behind contracts that say what is
//! assumed: `serde_json` in [`json`], `chrono` in [`clock`], and the lower
//! case of the standard library in [`text`].

pub mod allergens;
pub mod clock;
pub mod config;
pub mod json;
pub mod lunch;
pub mod message;
pub mod schedule;
pub mod text;
pub mod tick;

pub use allergens::peanut_check;
pub use config::parse_env;
pub use message::build_message;
pub use message::format_message;
pub use schedule::parse_post_time;
