//! Desktop shell logic for a calendar application: the decisions behind
//! window-geometry persistence, sign-in, calendar events, shortcuts, menus and
//! navigation, kept free of any windowing or I/O so that each one carries a
//! proved contract.

pub mod auth;
pub mod calendar;
pub mod database;
pub mod debounce;
pub mod laws;
pub mod menu;
pub mod navigation;
pub mod notifications;
pub mod shortcuts;
pub mod text;
pub mod timeline;
pub mod window_state;
