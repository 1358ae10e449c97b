//! Windows: identity, classification, geometry, tag membership, and the
//! diff messages that mutate them.

use vstd::prelude::*;
use crate::theme::ThemeSetting;
use crate::xyhw::XYHW;

verus! {

/// The display server's opaque identifier for a window, stable for the
/// window's lifetime and used as the sole equality key across all lookups.
#[derive(Clone, Copy, PartialEq, Eq, Structural, Debug, Hash)]
pub struct WindowHandle(pub u64);

/// A window's classification, set once at creation; it drives placement
/// policy (dialog centering, dock avoidance).
#[derive(Clone, Copy, PartialEq, Eq, Structural, Debug)]
pub enum WindowType {
    Normal,
    Dialog,
    Dock,
}

/// A managed window.
#[derive(Debug)]
pub struct Window {
    /// Identity, assigned by the display server.
    pub handle: WindowHandle,
    /// Classification, set once at creation.
    pub type_: WindowType,
    /// Ordered tag identifiers; non-empty after creation whenever at least
    /// one tag is configured.
    pub tags: Vec<String>,
    /// Geometry override used while the window floats; may lag behind
    /// `floating_mode` until the creation policy backfills it.
    pub floating: Option<XYHW>,
    /// The tiling-computed geometry, always present.
    pub normal: XYHW,
    /// Optional parent relation, by handle; resolved by lookup, never owned.
    pub transient: Option<WindowHandle>,
    /// Whether the window is positioned by `floating` rather than by the
    /// tiling layout; independent of whether `floating` is populated.
    pub floating_mode: bool,
    /// Border width applied from the theme.
    pub border: i32,
    /// Margin applied from the theme.
    pub margin: i32,
}

/// The mathematical value of a [`Window`]: the same fields with the tag
/// vector abstracted to a sequence.
#[verifier::ext_equal]
pub struct WindowView {
    pub handle: WindowHandle,
    pub type_: WindowType,
    pub tags: Seq<String>,
    pub floating: Option<XYHW>,
    pub normal: XYHW,
    pub transient: Option<WindowHandle>,
    pub floating_mode: bool,
    pub border: i32,
    pub margin: i32,
}

impl View for Window {
    type V = WindowView;

    open spec fn view(&self) -> WindowView {
        WindowView {
            handle: self.handle,
            type_: self.type_,
            tags: self.tags@,
            floating: self.floating,
            normal: self.normal,
            transient: self.transient,
            floating_mode: self.floating_mode,
            border: self.border,
            margin: self.margin,
        }
    }
}

impl DeepView for Window {
    type V = WindowView;

    open spec fn deep_view(&self) -> WindowView {
        self@
    }
}

impl WindowView {
    /// The geometry the window is effectively shown with: the floating
    /// override while the window floats and the override is known, the
    /// tiling geometry otherwise.
    pub open spec fn eff(self) -> XYHW {
        match self.floating {
            Some(f) => if self.floating_mode {
                f
            } else {
                self.normal
            },
            None => self.normal,
        }
    }
}

impl Window {
    /// The effective x position (see [`WindowView::eff`]).
    pub fn x(&self) -> (r: i32)
        ensures
            r == self@.eff().x,
    {
        match self.floating {
            Some(f) => if self.floating_mode {
                f.x
            } else {
                self.normal.x
            },
            None => self.normal.x,
        }
    }

    /// The effective y position (see [`WindowView::eff`]).
    pub fn y(&self) -> (r: i32)
        ensures
            r == self@.eff().y,
    {
        match self.floating {
            Some(f) => if self.floating_mode {
                f.y
            } else {
                self.normal.y
            },
            None => self.normal.y,
        }
    }

    /// The effective width (see [`WindowView::eff`]).
    pub fn width(&self) -> (r: i32)
        ensures
            r == self@.eff().w,
    {
        match self.floating {
            Some(f) => if self.floating_mode {
                f.w
            } else {
                self.normal.w
            },
            None => self.normal.w,
        }
    }

    /// The effective height (see [`WindowView::eff`]).
    pub fn height(&self) -> (r: i32)
        ensures
            r == self@.eff().h,
    {
        match self.floating {
            Some(f) => if self.floating_mode {
                f.h
            } else {
                self.normal.h
            },
            None => self.normal.h,
        }
    }

    /// Applies the manager's theme to the window: a pure mutation of its
    /// decoration fields.
    pub fn update_for_theme(&mut self, theme: &ThemeSetting)
        ensures
            final(self)@ == (WindowView {
                border: theme.border_width,
                margin: theme.margin,
                ..old(self)@
            }),
    {
        self.border = theme.border_width;
        self.margin = theme.margin;
    }
}

/// A diff message: a target handle plus optional field updates. Fields that
/// are `None` are left untouched by [`WindowChange::update`].
#[derive(Clone, Copy, PartialEq, Eq, Structural, Debug)]
pub struct WindowChange {
    /// The window the change is addressed to.
    pub handle: WindowHandle,
    /// New parent relation, when present.
    pub transient: Option<Option<WindowHandle>>,
    /// New floating geometry, when present.
    pub floating: Option<Option<XYHW>>,
    /// New classification, when present.
    pub type_: Option<WindowType>,
}

/// The window value after a change is applied: each field carried by the
/// change overwrites the window's, the rest keep their values.
pub open spec fn apply_change(w: WindowView, c: WindowChange) -> WindowView {
    let w1 = match c.transient {
        Some(t) => WindowView { transient: t, ..w },
        None => w,
    };
    let w2 = match c.floating {
        Some(f) => WindowView { floating: f, ..w1 },
        None => w1,
    };
    match c.type_ {
        Some(t) => WindowView { type_: t, ..w2 },
        None => w2,
    }
}

/// Whether applying `c` to `w` mutates anything: some field is present in
/// the change and differs from the window's current value.
pub open spec fn change_changes(w: WindowView, c: WindowChange) -> bool {
    ||| (c.transient matches Some(t) && t != w.transient)
    ||| (c.floating matches Some(f) && f != w.floating)
    ||| (c.type_ matches Some(t) && t != w.type_)
}

impl WindowChange {
    /// Applies the diff to `w`, mutating only the fields the change carries,
    /// and reports whether any mutation occurred.
    pub fn update(&self, w: &mut Window) -> (r: bool)
        ensures
            final(w)@ == apply_change(old(w)@, *self),
            r == change_changes(old(w)@, *self),
    {
        let mut changed = false;
        if let Some(t) = self.transient {
            if !opt_handle_eq(&t, &w.transient) {
                changed = true;
            }
            w.transient = t;
        }
        if let Some(f) = self.floating {
            if !opt_xyhw_eq(&f, &w.floating) {
                changed = true;
            }
            w.floating = f;
        }
        if let Some(t) = self.type_ {
            if t != w.type_ {
                changed = true;
            }
            w.type_ = t;
        }
        changed
    }
}

/// Equality of optional handles, stated against spec equality.
fn opt_handle_eq(a: &Option<WindowHandle>, b: &Option<WindowHandle>) -> (r: bool)
    ensures
        r == (a == b),
{
    match (a, b) {
        (Some(x), Some(y)) => x == y,
        (None, None) => true,
        _ => false,
    }
}

/// Equality of optional rectangles, stated against spec equality.
fn opt_xyhw_eq(a: &Option<XYHW>, b: &Option<XYHW>) -> (r: bool)
    ensures
        r == (a == b),
{
    match (a, b) {
        (Some(x), Some(y)) => x == y,
        (None, None) => true,
        _ => false,
    }
}

} // verus!
