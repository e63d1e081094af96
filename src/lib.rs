//! Update and lifecycle coordination for a desktop media-tracking application.
//!
//! The library holds the decisions: the runtime settings flag, what an update
//! check reports, how a download-and-install run advances, when the background
//! scheduler checks, what a window-close request does, and what each menu,
//! tray or shortcut activation asks of the window. The surrounding
//! application performs the network calls, the sleeping and the window calls.
pub mod settings;
pub mod updater;
pub mod install;
pub mod scheduler;
pub mod lifecycle;
pub mod export;
pub mod launch;
pub mod dispatch;
