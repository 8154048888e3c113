//! Presentation logic of a terminal client for a Roon music server: theme
//! colours, text formatting for the list and status panes, style selection
//! and pane geometry.

pub mod text;
pub mod theme;
pub mod style;
pub mod playback;
pub mod zones;
pub mod help;
pub mod layout;
