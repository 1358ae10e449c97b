//! Workspaces: tag assignment, geometry, and the dock-avoid list derived
//! from dock windows.

use vstd::prelude::*;
use crate::xyhw::{half, half_spec, wadd, without_spec, XYHW};

verus! {

/// A workspace: the tags it serves, its geometry, and the screen regions it
/// must keep clear of dock windows.
#[derive(Debug)]
pub struct Workspace {
    /// Tag identifiers this workspace serves.
    pub tags: Vec<String>,
    /// Geometries that must not be covered, derived from dock windows; fully
    /// recomputed, never incrementally patched.
    pub avoid: Vec<XYHW>,
    /// The workspace's own geometry.
    pub xyhw: XYHW,
    /// The geometry left for tiling once every avoided bar is trimmed away;
    /// recomputed by [`Workspace::update_avoided_areas`].
    pub xyhw_avoided: XYHW,
}

/// The mathematical value of a [`Workspace`].
#[verifier::ext_equal]
pub struct WorkspaceView {
    pub tags: Seq<String>,
    pub avoid: Seq<XYHW>,
    pub xyhw: XYHW,
    pub xyhw_avoided: XYHW,
}

impl View for Workspace {
    type V = WorkspaceView;

    open spec fn view(&self) -> WorkspaceView {
        WorkspaceView {
            tags: self.tags@,
            avoid: self.avoid@,
            xyhw: self.xyhw,
            xyhw_avoided: self.xyhw_avoided,
        }
    }
}

impl DeepView for Workspace {
    type V = WorkspaceView;

    open spec fn deep_view(&self) -> WorkspaceView {
        self@
    }
}

/// The halved-and-centered region of `r`: half the size, offset by a quarter
/// of it, where dialogs created on a focused workspace are placed.
pub open spec fn center_halfed_spec(r: XYHW) -> XYHW {
    XYHW {
        x: wadd(r.x, half_spec(half_spec(r.w))),
        y: wadd(r.y, half_spec(half_spec(r.h))),
        h: half_spec(r.h),
        w: half_spec(r.w),
    }
}

/// The geometry left of `base` after every bar in `avoid` is trimmed away,
/// front to back.
pub open spec fn avoided_spec(base: XYHW, avoid: Seq<XYHW>) -> XYHW
    decreases avoid.len(),
{
    if avoid.len() == 0 {
        base
    } else {
        without_spec(avoided_spec(base, avoid.drop_last()), avoid.last())
    }
}

impl Workspace {
    /// The halved-and-centered region of this workspace (see
    /// [`center_halfed_spec`]).
    pub fn center_halfed(&self) -> (r: XYHW)
        ensures
            r == center_halfed_spec(self.xyhw),
    {
        XYHW {
            x: self.xyhw.x.wrapping_add(half(half(self.xyhw.w))),
            y: self.xyhw.y.wrapping_add(half(half(self.xyhw.h))),
            h: half(self.xyhw.h),
            w: half(self.xyhw.w),
        }
    }

    /// Recomputes the avoided-area index: trims every avoided bar out of the
    /// workspace geometry, front to back, into `xyhw_avoided`.
    pub fn update_avoided_areas(&mut self)
        ensures
            final(self)@ == (WorkspaceView {
                xyhw_avoided: avoided_spec(old(self)@.xyhw, old(self)@.avoid),
                ..old(self)@
            }),
    {
        let mut a = self.xyhw;
        let mut i: usize = 0;
        while i < self.avoid.len()
            invariant
                i <= self.avoid.len(),
                *self == *old(self),
                a == avoided_spec(self@.xyhw, self@.avoid.take(i as int)),
            decreases self.avoid.len() - i,
        {
            proof {
                let s = self@.avoid;
                assert(s.take(i + 1).drop_last() =~= s.take(i as int));
                assert(s.take(i + 1).last() == s[i as int]);
            }
            a = a.without(&self.avoid[i]);
            i += 1;
        }
        proof {
            assert(self@.avoid.take(self.avoid.len() as int) =~= self@.avoid);
        }
        self.xyhw_avoided = a;
        proof {
            assert(self@ =~= (WorkspaceView {
                xyhw_avoided: avoided_spec(old(self)@.xyhw, old(self)@.avoid),
                ..old(self)@
            }));
        }
    }
}

} // verus!
