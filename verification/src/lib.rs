//! A verified model of a small desktop application: one main window
//! carrying a menu bar (a File menu with an inert "Open" item, a
//! separator, and "Quit"), a primary-modifier+Q accelerator bound to
//! quit, and a tabbed notebook pre-populated with three labelled
//! sheets, each closable from its tab header.
//!
//! The widget layer itself (rendering, the event loop, accelerator
//! dispatch) is the GUI toolkit's own work and stands outside this
//! crate; here live the decisions: what the window, menus and tabs
//! hold, and how the application state answers each user event.

pub mod controller;
pub mod menu;
pub mod notebook;
pub mod shell;
