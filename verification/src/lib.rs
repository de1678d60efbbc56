//! Core of a text-mode application shell: widget registry with focus and
//! visibility, a FIFO command queue, a tab collection, a bookmark tree, and
//! the keyboard dispatch loop that ties them together.

pub mod app;
pub mod bookmarks;
pub mod command;
pub mod content;
pub mod helptext;
pub mod keys;
pub mod logger;
pub mod menu;
pub mod numfmt;
pub mod status;
pub mod strutil;
pub mod tabs;
pub mod widget;
pub mod widget_manager;
