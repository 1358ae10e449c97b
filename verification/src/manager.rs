//! The aggregate root: the window and workspace collections, the configured
//! tags, the theme, the focused-workspace pointer, and the outbound queue.

use std::collections::VecDeque;
use vstd::prelude::*;
use crate::display_action::DisplayAction;
use crate::theme::ThemeSetting;
use crate::window::{Window, WindowView};
use crate::workspace::{Workspace, WorkspaceView};

verus! {

/// The window manager's whole in-memory model. Windows are owned by the
/// collection (value semantics); `transient` and focus pointers are
/// non-owning relations resolved by handle lookup.
#[derive(Debug)]
pub struct Manager {
    /// The managed windows, in creation order; new windows are appended.
    pub windows: Vec<Window>,
    /// The workspaces.
    pub workspaces: Vec<Workspace>,
    /// The configured tag identifiers; the first one is the fallback tag for
    /// windows created while no workspace is focused.
    pub tags: Vec<String>,
    /// The theme applied to newly created windows.
    pub theme_setting: ThemeSetting,
    /// The outbound command queue: the core appends at the back, the
    /// display-server integration drains from the front, in order.
    pub actions: VecDeque<DisplayAction>,
    /// Index into `workspaces` of the focused workspace, if any; an index
    /// out of range counts as no focus.
    pub focused_workspace_index: Option<usize>,
}

impl Manager {
    /// The windows as a sequence of mathematical values.
    pub open spec fn windows_view(self) -> Seq<WindowView> {
        self.windows.deep_view()
    }

    /// The workspaces as a sequence of mathematical values.
    pub open spec fn workspaces_view(self) -> Seq<WorkspaceView> {
        self.workspaces.deep_view()
    }

    /// The focused workspace's value, if a workspace is focused.
    pub open spec fn focused_workspace_spec(self) -> Option<WorkspaceView> {
        match self.focused_workspace_index {
            Some(i) => if (i as int) < self.workspaces.len() {
                Some(self.workspaces.deep_view()[i as int])
            } else {
                None
            },
            None => None,
        }
    }

    /// The focused workspace, if any.
    pub fn focused_workspace(&self) -> (r: Option<&Workspace>)
        ensures
            match r {
                Some(ws) => self.focused_workspace_spec() == Some(ws@),
                None => self.focused_workspace_spec() is None,
            },
    {
        match self.focused_workspace_index {
            Some(i) => if i < self.workspaces.len() {
                Some(&self.workspaces[i])
            } else {
                None
            },
            None => None,
        }
    }
}

} // verus!
