//! Support-ticket routing for a chat bot.
//!
//! Every participant who writes to the bot is walked through a short
//! onboarding dialogue and then placed in a first-in, first-out wait list.
//! Staff advance that list with a handful of reserved command tokens.
//!
//! The crate holds no transport: each handler takes one inbound event and
//! returns the outbound requests that the caller is to perform.

pub mod model;
pub mod text;
pub mod queue;
pub mod bot;
pub mod laws;
