//! Laws of the event-handling policies, stated over the same spec functions
//! the handlers' contracts use and proved once and for all.

use vstd::prelude::*;
use crate::handlers::{
    changed_post, created_post, created_window, dock_avoid, find_index_spec, first_with_handle,
    knows_handle, without_handle,
};
use crate::manager::Manager;
use crate::window::{apply_change, WindowChange, WindowHandle, WindowType, WindowView};
use crate::workspace::center_halfed_spec;
use crate::xyhw::{half_spec, wadd, wsub, XYHW};

verus! {

/// Handles are pairwise distinct in `s`.
pub open spec fn unique_handles(s: Seq<WindowView>) -> bool {
    forall|i: int, j: int| 0 <= i < j < s.len() ==> s[i].handle != s[j].handle
}

/// Creation is idempotent against duplicate handles: once one `created` call
/// has inserted a window, a second call for the same handle takes the no-op
/// branch of `created_post` — it returns `false` and leaves the manager, and
/// with it the collection size and the action queue, unchanged.
pub proof fn lemma_created_twice_dedupes(
    m0: Manager,
    m1: Manager,
    m2: Manager,
    a: WindowView,
    b: WindowView,
    r2: bool,
)
    requires
        !knows_handle(m0.windows_view(), a.handle),
        created_post(m0, m1, a, true),
        b.handle == a.handle,
        created_post(m1, m2, b, r2),
    ensures
        r2 == false,
        m2 == m1,
{
    let nw = created_window(m0, a);
    assert(nw.handle == a.handle);
    assert(m1.windows_view()[m1.windows_view().len() - 1].handle == b.handle);
    assert(knows_handle(m1.windows_view(), b.handle));
}

/// A window created while a workspace is focused inherits that workspace's
/// tags (a copy: the created window holds its own vector, equal by value);
/// with no focused workspace its tags are exactly the manager's first
/// configured tag.
pub proof fn lemma_created_tags(m: Manager, a: WindowView)
    ensures
        match m.focused_workspace_spec() {
            Some(ws) => created_window(m, a).tags == ws.tags,
            None => created_window(m, a).tags == seq![m.tags@[0]],
        },
{
}

/// A dialog created while a workspace is focused ends up floating, with its
/// floating geometry the workspace's halved-and-centered region, provided it
/// declares no transient parent.
pub proof fn lemma_dialog_centered(m: Manager, a: WindowView)
    requires
        a.type_ == WindowType::Dialog,
        a.transient is None,
        m.focused_workspace_spec() is Some,
    ensures
        created_window(m, a).floating_mode,
        match m.focused_workspace_spec() {
            Some(ws) => created_window(m, a).floating == Some(center_halfed_spec(ws.xyhw)),
            None => false,
        },
{
}

/// A window created with a transient parent that the manager knows ends up
/// centered within the parent's effective bounds, and when its own geometry
/// had zero width or height it takes half the parent's size.
pub proof fn lemma_transient_centered(m: Manager, a: WindowView, t: WindowHandle, p: WindowView)
    requires
        a.transient == Some(t),
        first_with_handle(m.windows_view(), t) == Some(p),
    ensures
        created_window(m, a).floating_mode,
        created_window(m, a).floating is Some,
        ({
            let pe = p.eff();
            let tagged = crate::handlers::assign_tags(a, m.focused_workspace_spec(), m.tags@[0]);
            let base = match tagged.floating {
                Some(f) => f,
                None => XYHW::zero_spec(),
            };
            match created_window(m, a).floating {
                Some(f) => {
                    &&& f.x == wsub(wadd(pe.x, half_spec(pe.w)), half_spec(f.w))
                    &&& f.y == wsub(wadd(pe.y, half_spec(pe.h)), half_spec(f.h))
                    &&& if base.h == 0 || base.w == 0 {
                        f.w == half_spec(pe.w) && f.h == half_spec(pe.h)
                    } else {
                        f.w == base.w && f.h == base.h
                    }
                },
                None => false,
            }
        }),
{
}

/// Removal keeps every window whose handle differs.
pub proof fn lemma_without_handle_absent(s: Seq<WindowView>, h: WindowHandle)
    requires
        forall|i: int| 0 <= i < s.len() ==> s[i].handle != h,
    ensures
        without_handle(s, h) == s,
    decreases s.len(),
{
    reveal(Seq::filter);
    if s.len() > 0 {
        lemma_without_handle_absent(s.drop_last(), h);
        assert(without_handle(s, h) =~= s);
    }
}

/// Destroying a present handle removes exactly one window when handles are
/// unique, as they are for any manager grown through `created`.
pub proof fn lemma_destroyed_removes_exactly_one(s: Seq<WindowView>, h: WindowHandle)
    requires
        unique_handles(s),
        knows_handle(s, h),
    ensures
        without_handle(s, h).len() == s.len() - 1,
    decreases s.len(),
{
    reveal(Seq::filter);
    let dl = s.drop_last();
    if s.last().handle == h {
        assert forall|i: int| 0 <= i < dl.len() implies dl[i].handle != h by {
            assert(s[i].handle != s[s.len() - 1].handle);
        }
        lemma_without_handle_absent(dl, h);
    } else {
        let i = choose|i: int| 0 <= i < s.len() && s[i].handle == h;
        assert(dl[i] == s[i]);
        assert(knows_handle(dl, h));
        lemma_destroyed_removes_exactly_one(dl, h);
    }
}

/// `created` preserves handle uniqueness: the dedupe scan refuses a known
/// handle, so a manager grown only through the handlers keeps its handles
/// pairwise distinct.
pub proof fn lemma_created_preserves_unique(m0: Manager, m1: Manager, a: WindowView, r: bool)
    requires
        unique_handles(m0.windows_view()),
        created_post(m0, m1, a, r),
    ensures
        unique_handles(m1.windows_view()),
{
    if !knows_handle(m0.windows_view(), a.handle) {
        let s0 = m0.windows_view();
        let s1 = m1.windows_view();
        assert(created_window(m0, a).handle == a.handle);
        assert forall|i: int, j: int| 0 <= i < j < s1.len() implies s1[i].handle
            != s1[j].handle by {
            if j == s1.len() - 1 {
                if s1[i].handle == a.handle {
                    assert(s0[i].handle == a.handle);
                    assert(knows_handle(s0, a.handle));
                }
            }
        }
    }
}

/// `changed` preserves handle uniqueness: a change never touches the
/// window's handle.
pub proof fn lemma_changed_preserves_unique(m0: Manager, m1: Manager, c: WindowChange, r: bool)
    requires
        unique_handles(m0.windows_view()),
        changed_post(m0, m1, c, r),
    ensures
        unique_handles(m1.windows_view()),
{
    let s0 = m0.windows_view();
    let idx = find_index_spec(s0, c.handle);
    crate::handlers::lemma_find_index_range(s0, c.handle);
    if idx != -1 {
        let s1 = m1.windows_view();
        assert forall|k: int| 0 <= k < s1.len() implies s1[k].handle == s0[k].handle by {
            assert(apply_change(s0[idx], c).handle == s0[idx].handle);
        }
    }
}

/// Every window kept by a removal stands somewhere in the collection it
/// was taken from.
pub proof fn lemma_without_handle_is_subset(s: Seq<WindowView>, h: WindowHandle)
    ensures
        forall|k: int| 0 <= k < without_handle(s, h).len() ==> exists|i: int|
            0 <= i < s.len() && s[i] == #[trigger] without_handle(s, h)[k],
    decreases s.len(),
{
    reveal(Seq::filter);
    if s.len() > 0 {
        let dl = s.drop_last();
        lemma_without_handle_is_subset(dl, h);
        let f = without_handle(s, h);
        let fd = without_handle(dl, h);
        assert forall|k: int| 0 <= k < f.len() implies exists|i: int|
            0 <= i < s.len() && s[i] == #[trigger] f[k] by {
            if k < fd.len() {
                let i = choose|i: int| 0 <= i < dl.len() && dl[i] == fd[k];
                assert(s[i] == f[k]);
            } else {
                assert(s[s.len() - 1] == f[k]);
            }
        }
    }
}

/// `destroyed` preserves handle uniqueness: removal keeps a subset of the
/// windows, in order.
pub proof fn lemma_destroyed_preserves_unique(s: Seq<WindowView>, h: WindowHandle)
    requires
        unique_handles(s),
    ensures
        unique_handles(without_handle(s, h)),
    decreases s.len(),
{
    reveal(Seq::filter);
    if s.len() > 0 {
        let dl = s.drop_last();
        assert forall|i: int, j: int| 0 <= i < j < dl.len() implies dl[i].handle
            != dl[j].handle by {
            assert(s[i].handle != s[j].handle);
        }
        lemma_destroyed_preserves_unique(dl, h);
        let f = without_handle(s, h);
        let fd = without_handle(dl, h);
        if s.last().handle != h {
            lemma_without_handle_is_subset(dl, h);
            assert forall|i: int, j: int| 0 <= i < j < f.len() implies f[i].handle
                != f[j].handle by {
                if j == f.len() - 1 {
                    let k = choose|k: int| 0 <= k < dl.len() && dl[k] == fd[i];
                    assert(s[k].handle != s[s.len() - 1].handle);
                }
            }
        }
    }
}

/// The avoid list holds exactly the floating geometries of the
/// dock-classified windows that have one.
pub proof fn lemma_dock_avoid_members(s: Seq<WindowView>, g: XYHW)
    ensures
        dock_avoid(s).contains(g) <==> exists|i: int|
            0 <= i < s.len() && s[i].type_ == WindowType::Dock && s[i].floating == Some(g),
    decreases s.len(),
{
    if s.len() > 0 {
        let dl = s.drop_last();
        lemma_dock_avoid_members(dl, g);
        let da = dock_avoid(s);
        let dd = dock_avoid(dl);
        if s.last().type_ == WindowType::Dock && s.last().floating is Some {
            let lf = match s.last().floating {
                Some(f) => f,
                None => XYHW::zero_spec(),
            };
            assert(da == dd.push(lf));
            if da.contains(g) {
                let k = choose|k: int| 0 <= k < da.len() && da[k] == g;
                if k < dd.len() {
                    assert(dd[k] == g);
                    assert(dd.contains(g));
                    let i = choose|i: int|
                        0 <= i < dl.len() && dl[i].type_ == WindowType::Dock && dl[i].floating
                            == Some(g);
                    assert(s[i] == dl[i]);
                } else {
                    assert(g == lf);
                    assert(s[s.len() - 1].floating == Some(g));
                }
            }
            if exists|i: int|
                0 <= i < s.len() && s[i].type_ == WindowType::Dock && s[i].floating == Some(g) {
                let i = choose|i: int|
                    0 <= i < s.len() && s[i].type_ == WindowType::Dock && s[i].floating == Some(
                        g,
                    );
                if i == s.len() - 1 {
                    assert(da[dd.len() as int] == lf);
                    assert(da.contains(g));
                } else {
                    assert(dl[i] == s[i]);
                    assert(dd.contains(g));
                    let k = choose|k: int| 0 <= k < dd.len() && dd[k] == g;
                    assert(da[k] == g);
                    assert(da.contains(g));
                }
            }
        } else {
            assert(da == dd);
            if da.contains(g) {
                let i = choose|i: int|
                    0 <= i < dl.len() && dl[i].type_ == WindowType::Dock && dl[i].floating
                        == Some(g);
                assert(s[i] == dl[i]);
            }
            if exists|i: int|
                0 <= i < s.len() && s[i].type_ == WindowType::Dock && s[i].floating == Some(g) {
                let i = choose|i: int|
                    0 <= i < s.len() && s[i].type_ == WindowType::Dock && s[i].floating == Some(
                        g,
                    );
                assert(i != s.len() - 1);
                assert(dl[i] == s[i]);
                assert(dd.contains(g));
            }
        }
    }
}

} // verus!
