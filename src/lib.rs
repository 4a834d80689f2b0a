//! The core of a tiling window manager: layouts and the messages that reconfigure
//! them, keybinding modes and commands, and the reading of the command channel.

pub mod input;
pub mod kbd;
pub mod layout;
pub mod layouts;
pub mod msg;
