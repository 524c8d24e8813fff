//! Command-dispatch and state-mutation core of a tiling window manager.
//!
//! The [`manager::Manager`] aggregate owns the managed windows, the ordered
//! tag list, the workspaces and the focus histories.  A user command is a
//! [`command_handler::Command`] with an optional textual argument; the
//! dispatcher [`command_handler::process`] validates it, mutates the manager
//! and queues [`display_action::DisplayAction`] values for an external
//! display adapter to drain.  Everything the dispatcher decides is stated in
//! contracts and verified; actually spawning processes, reloading and talking
//! to a display server are left to the surrounding program.

pub mod bbox;
pub mod command_handler;
pub mod digits;
pub mod display_action;
pub mod focus_handler;
pub mod goto_tag_handler;
pub mod helpers;
pub mod manager;
pub mod screen;
pub mod screen_create_handler;
pub mod window;
pub mod window_handler;
pub mod workspace;

pub use bbox::BBox;
pub use command_handler::Command;
pub use command_handler::process;
pub use display_action::DisplayAction;
pub use manager::Manager;
pub use manager::Reload;
pub use screen::Screen;
pub use window::Window;
pub use window::WindowHandle;
pub use window::WindowType;
pub use workspace::Workspace;
