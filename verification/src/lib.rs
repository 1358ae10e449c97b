//! Window-lifecycle core of a tiling window manager.
//!
//! The library keeps an in-memory model of windows and workspaces, reacts to
//! window creation, destruction and property-change notifications, and emits
//! an ordered queue of display commands for an integration layer to execute.

pub mod display_action;
pub mod handlers;
pub mod laws;
pub mod manager;
pub mod theme;
pub mod window;
pub mod workspace;
pub mod xyhw;

pub use display_action::DisplayAction;
pub use handlers::{changed, created, destroyed, update_workspace_avoid_list};
pub use manager::Manager;
pub use theme::ThemeSetting;
pub use window::{Window, WindowChange, WindowHandle, WindowType};
pub use workspace::Workspace;
pub use xyhw::XYHW;
