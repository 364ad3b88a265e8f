//! A terminal dashboard shell for browsing database connections: tab
//! focus management, a modal popup stack that intercepts input, and an
//! ordered event bus folded into the controller's state once per frame.

pub mod connection_popup;
pub mod controller;
pub mod event;
pub mod focus;
pub mod keys;
pub mod popup;
pub mod quit_popup;
pub mod strings;
pub mod style;
pub mod tabs;
