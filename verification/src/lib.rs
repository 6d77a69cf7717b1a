//! Native backend logic for a desktop markdown editor.
//!
//! The library holds the parts of the backend that are plain computation:
//! building and ordering a directory listing (directories first, then
//! case-insensitive name order, with markdown files tagged by extension),
//! the static definition of the application menu, and the lookup that turns
//! a menu identifier into the event name published to the front end.
//! The host shell around it performs the actual file-system calls and menu
//! registration and hands plain values in and out.

pub mod listing;
pub mod menu;
pub mod order;
