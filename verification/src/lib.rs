//! Tab/process supervisor for a host window that embeds independent GUI
//! child processes as tabs: spawning, asynchronous window discovery,
//! geometry synchronization, ordered graceful shutdown, exit detection,
//! and the ordered/selectable/draggable tab collection.

pub mod geometry;
pub mod hotkeys;
pub mod layout;
pub mod config;
pub mod process;
pub mod strutil;
pub mod tabs;
pub mod watcher;

pub use geometry::Rect;
