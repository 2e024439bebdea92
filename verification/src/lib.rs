//! A system tray icon with a menu of clickable entries.
//!
//! The crate holds the engine behind the tray: the allocation of menu
//! indices, the registry of callbacks, and the handling of the activation
//! events that the platform's own thread sends. The native window is reached
//! through the [`Window`] trait, and a callback through [`Callback`].

pub mod application;
pub mod channel;
pub mod error;
pub mod event;
pub mod laws;
pub mod registry;
pub mod window;

pub use application::{message_of, sets_up, Application, ApplicationView, Callback};
pub use error::SystrayError;
pub use event::SystrayEvent;
pub use registry::{Registry, RegistryView};

pub use window::{Request, Window};
