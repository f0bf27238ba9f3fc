//! Client library for the iTerm2 scripting protocol.
//!
//! Requests are built by the functions of [`request`]; the replies that
//! iTerm2 sends back are read by [`reply`] and by the handles [`App`],
//! [`Window`], [`Tab`] and [`Session`], which carry the connection they were
//! reached through.
pub mod app;
pub mod auth;
pub mod connection;
pub mod error;
pub mod notification;
pub mod proto;
pub mod reply;
pub mod request;
pub mod session;
pub mod tab;
pub mod text;
pub mod transport;
pub mod window;

pub use app::App;
pub use error::{Error, Result};
pub use session::Session;
pub use tab::Tab;
pub use window::Window;
