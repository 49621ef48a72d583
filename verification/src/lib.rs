//! A verified model of a desktop-shell message bridge.
//!
//! A non-GUI process gains a presence in the desktop shell: a
//! notification-area icon with a context menu, balloon notifications and
//! clipboard observation.  The shell delivers its callbacks synchronously on
//! one dedicated pump context; the application wants an asynchronous event
//! stream and a thread-safe command channel.  This crate holds the logic of
//! that bridge: token allocation, the menu and icon models, the notification
//! queue with its at-most-once disposition guarantee, the pump's dispatch
//! rules, and the event/command channel discipline, all stated as contracts
//! and proved.
//!
//! The native shell calls themselves (window creation, the message pump's
//! blocking wait, the notification API) live outside this crate; a platform
//! layer drives [`bridge::Bridge`] with the messages it receives and performs
//! the calls the drained commands ask for.

pub mod bridge;
pub mod context_builder;
pub mod error;
pub mod event;
pub mod icons;
pub mod laws;
pub mod menu;
pub mod notification;
pub mod token;

pub use bridge::Bridge;
pub use context_builder::ContextBuilder;
pub use error::Error;
pub use event::ClipboardEvent;
pub use event::Event;
pub use icons::IconBuffer;
pub use icons::Icons;
pub use menu::MenuItem;
pub use notification::Notification;
pub use token::Token;
pub use token::TokenKind;
