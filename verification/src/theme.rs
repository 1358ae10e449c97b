//! Theme settings the manager applies to newly created windows.

use vstd::prelude::*;

verus! {

/// The decoration settings a window picks up when it is created, plus the
/// optional shell command the integration layer launches for each new window.
///
/// The command is configuration carried by the manager; the library never
/// runs it.
#[derive(Debug)]
pub struct ThemeSetting {
    pub border_width: i32,
    pub margin: i32,
    pub on_new_window_cmd: Option<String>,
}

} // verus!
