//! The event handlers: the reactive core that processes window creation,
//! destruction and change notifications, updates the manager's model, and
//! queues display actions.

use vstd::prelude::*;
use crate::display_action::DisplayAction;
use crate::manager::Manager;
use crate::theme::ThemeSetting;
use crate::window::{apply_change, change_changes, Window, WindowChange, WindowHandle, WindowType, WindowView};
use crate::workspace::{avoided_spec, center_halfed_spec, WorkspaceView};
use crate::xyhw::{half, half_spec, wadd, wsub, XYHW};

verus! {

broadcast use vstd::seq_lib::group_filter_ensures;

/// Whether some window in `s` carries the handle `h`.
pub open spec fn knows_handle(s: Seq<WindowView>, h: WindowHandle) -> bool {
    exists|i: int| 0 <= i < s.len() && s[i].handle == h
}

/// The index of the first window in `s` with handle `h`, or `-1` when there
/// is none. Handles are expected unique, but lookups settle ties by taking
/// the first match.
pub open spec fn find_index_spec(s: Seq<WindowView>, h: WindowHandle) -> int
    decreases s.len(),
{
    if s.len() == 0 {
        -1
    } else if s[0].handle == h {
        0
    } else {
        let r = find_index_spec(s.drop_first(), h);
        if r == -1 {
            -1
        } else {
            r + 1
        }
    }
}

/// The first window in `s` with handle `h`, if any.
pub open spec fn first_with_handle(s: Seq<WindowView>, h: WindowHandle) -> Option<WindowView> {
    if find_index_spec(s, h) >= 0 {
        Some(s[find_index_spec(s, h)])
    } else {
        None
    }
}

/// `find_index_spec` reports `-1` or an index whose window matches.
pub proof fn lemma_find_index_range(s: Seq<WindowView>, h: WindowHandle)
    ensures
        find_index_spec(s, h) == -1 || (0 <= find_index_spec(s, h) < s.len() && s[
            find_index_spec(s, h)
        ].handle == h),
    decreases s.len(),
{
    if s.len() > 0 && s[0].handle != h {
        lemma_find_index_range(s.drop_first(), h);
    }
}

/// `find_index_spec` finds `i` exactly when `s[i]` is the first match.
pub proof fn lemma_find_index_at(s: Seq<WindowView>, h: WindowHandle, i: int)
    requires
        0 <= i < s.len(),
        s[i].handle == h,
        forall|j: int| 0 <= j < i ==> s[j].handle != h,
    ensures
        find_index_spec(s, h) == i,
    decreases i,
{
    if i > 0 {
        lemma_find_index_at(s.drop_first(), h, i - 1);
    }
}

/// `find_index_spec` reports `-1` exactly when no window matches.
pub proof fn lemma_find_index_none(s: Seq<WindowView>, h: WindowHandle)
    requires
        forall|j: int| 0 <= j < s.len() ==> s[j].handle != h,
    ensures
        find_index_spec(s, h) == -1,
    decreases s.len(),
{
    if s.len() > 0 {
        lemma_find_index_none(s.drop_first(), h);
    }
}

/// Linear scan for the first window with the given handle; read-only, used
/// to resolve transient-parent relations without establishing ownership.
pub fn find_window<'w>(manager: &'w Manager, handle: &WindowHandle) -> (r: Option<&'w Window>)
    ensures
        match r {
            Some(w) => first_with_handle(manager.windows_view(), *handle) == Some(w@),
            None => first_with_handle(manager.windows_view(), *handle) is None,
        },
{
    let mut i: usize = 0;
    while i < manager.windows.len()
        invariant
            i <= manager.windows.len(),
            forall|j: int| 0 <= j < i ==> manager.windows_view()[j].handle != *handle,
        decreases manager.windows.len() - i,
    {
        if manager.windows[i].handle == *handle {
            proof {
                lemma_find_index_at(manager.windows_view(), *handle, i as int);
            }
            return Some(&manager.windows[i]);
        }
        i += 1;
    }
    proof {
        lemma_find_index_none(manager.windows_view(), *handle);
    }
    None
}

/// The geometry a transient window takes: its own floating geometry (or the
/// zero default), given half the parent's size when it had none, and always
/// recentered within the parent's effective bounds.
pub open spec fn calc_center_spec(w: WindowView, p: WindowView) -> XYHW {
    let f = match w.floating {
        Some(f) => f,
        None => XYHW::zero_spec(),
    };
    let pe = p.eff();
    let sized = if f.h == 0 || f.w == 0 {
        XYHW { h: half_spec(pe.h), w: half_spec(pe.w), ..f }
    } else {
        f
    };
    XYHW {
        x: wsub(wadd(pe.x, half_spec(pe.w)), half_spec(sized.w)),
        y: wsub(wadd(pe.y, half_spec(pe.h)), half_spec(sized.h)),
        ..sized
    }
}

/// Pure helper: centers `window`'s floating geometry within `parent`'s
/// effective bounds, synthesizing half the parent's size when the geometry
/// had zero width or height (see [`calc_center_spec`]).
pub fn calc_center_of_parent(window: &Window, parent: &Window) -> (r: XYHW)
    ensures
        r == calc_center_spec(window@, parent@),
{
    let mut xyhw = match window.floating {
        Some(f) => f,
        None => XYHW::zero(),
    };
    if xyhw.h == 0 || xyhw.w == 0 {
        xyhw.h = half(parent.height());
        xyhw.w = half(parent.width());
    }
    xyhw.x = parent.x().wrapping_add(half(parent.width())).wrapping_sub(half(xyhw.w));
    xyhw.y = parent.y().wrapping_add(half(parent.height())).wrapping_sub(half(xyhw.h));
    xyhw
}

/// The avoid list derived from `s`: the floating geometries of the
/// dock-classified windows that have one, in window order.
pub open spec fn dock_avoid(s: Seq<WindowView>) -> Seq<XYHW>
    decreases s.len(),
{
    if s.len() == 0 {
        Seq::empty()
    } else {
        let rest = dock_avoid(s.drop_last());
        if s.last().type_ == WindowType::Dock && s.last().floating is Some {
            rest.push(match s.last().floating {
                Some(f) => f,
                None => XYHW::zero_spec(),
            })
        } else {
            rest
        }
    }
}

/// The workspace value once the avoid list `avoid` is assigned and the
/// avoided-area index recomputed.
pub open spec fn with_avoid(w: WorkspaceView, avoid: Seq<XYHW>) -> WorkspaceView {
    WorkspaceView { avoid: avoid, xyhw_avoided: avoided_spec(w.xyhw, avoid), ..w }
}

/// Every workspace given the same avoid list `avoid`.
pub open spec fn updated_workspaces(ws: Seq<WorkspaceView>, avoid: Seq<XYHW>) -> Seq<WorkspaceView> {
    ws.map_values(|w: WorkspaceView| with_avoid(w, avoid))
}

/// Tag assignment and dialog centering at creation: the window inherits the
/// focused workspace's tags, or the manager's first configured tag when no
/// workspace is focused; a dialog created on a focused workspace is marked
/// floating and centered in the workspace's halved region.
pub open spec fn assign_tags(a: WindowView, fws: Option<WorkspaceView>, first_tag: String) -> WindowView {
    match fws {
        Some(ws) => {
            let tagged = WindowView { tags: ws.tags, ..a };
            if a.type_ == WindowType::Dialog {
                WindowView {
                    floating: Some(center_halfed_spec(ws.xyhw)),
                    floating_mode: true,
                    ..tagged
                }
            } else {
                tagged
            }
        },
        None => WindowView { tags: seq![first_tag], ..a },
    }
}

/// Transient placement at creation: a window that declares a transient
/// parent is forced into floating mode, given the zero default geometry when
/// it had none, and recentered in its parent when the parent is known.
pub open spec fn place_transient(w: WindowView, parent: Option<WindowView>) -> WindowView {
    if w.transient is Some {
        let mode = WindowView { floating_mode: true, ..w };
        let base = if mode.floating is None {
            WindowView { floating: Some(XYHW::zero_spec()), ..mode }
        } else {
            mode
        };
        match parent {
            Some(p) => WindowView { floating: Some(calc_center_spec(base, p)), ..base },
            None => base,
        }
    } else {
        w
    }
}

/// Theme application at creation: the decoration fields take the theme's
/// values.
pub open spec fn themed(w: WindowView, t: ThemeSetting) -> WindowView {
    WindowView { border: t.border_width, margin: t.margin, ..w }
}

/// Floating-geometry backfill at creation: a window in floating mode that
/// still has no floating geometry defaults it to its tiling geometry.
pub open spec fn backfilled(w: WindowView) -> WindowView {
    if w.floating_mode && w.floating is None {
        WindowView { floating: Some(w.normal), ..w }
    } else {
        w
    }
}

/// The window value that `created` inserts for the incoming window `a`:
/// tags assigned, dialogs centered, transients placed, the theme applied,
/// and missing floating geometry backfilled, in that order.
pub open spec fn created_window(m: Manager, a: WindowView) -> WindowView {
    let tagged = assign_tags(a, m.focused_workspace_spec(), m.tags@[0]);
    let parent = match a.transient {
        Some(t) => first_with_handle(m.windows_view(), t),
        None => None,
    };
    let placed = place_transient(tagged, parent);
    backfilled(themed(placed, m.theme_setting))
}

/// The actions `created` queues for the new window `w`, in order: the window
/// was added; its first tag, when it has one; raise it to the top.
pub open spec fn created_actions(w: WindowView) -> Seq<DisplayAction> {
    let base = seq![DisplayAction::AddedWindow(w.handle)];
    let tagged = if w.tags.len() > 0 {
        base.push(DisplayAction::SetWindowTags(w.handle, w.tags[0]))
    } else {
        base
    };
    tagged.push(DisplayAction::MoveToTop(w.handle))
}

/// What `created` guarantees: a duplicate handle is a no-op returning
/// `false`; otherwise the prepared window is appended, the three actions are
/// queued, nothing else moves, and the call returns `true`.
pub open spec fn created_post(m0: Manager, m1: Manager, a: WindowView, r: bool) -> bool {
    if knows_handle(m0.windows_view(), a.handle) {
        r == false && m1 == m0
    } else {
        let nw = created_window(m0, a);
        &&& r == true
        &&& m1.windows_view() == m0.windows_view().push(nw)
        &&& m1.actions@ == m0.actions@ + created_actions(nw)
        &&& m1.workspaces == m0.workspaces
        &&& m1.tags == m0.tags
        &&& m1.theme_setting == m0.theme_setting
        &&& m1.focused_workspace_index == m0.focused_workspace_index
    }
}

/// Clones a tag vector; tags are compared by value throughout, so the clone
/// carries the same sequence.
fn cloned_tags(v: &Vec<String>) -> (r: Vec<String>)
    ensures
        r@ == v@,
{
    let mut r: Vec<String> = Vec::new();
    let mut i: usize = 0;
    while i < v.len()
        invariant
            i <= v.len(),
            r@ == v@.take(i as int),
        decreases v.len() - i,
    {
        r.push(v[i].clone());
        proof {
            assert(r@ =~= v@.take(i + 1));
        }
        i += 1;
    }
    proof {
        assert(v@.take(v@.len() as int) =~= v@);
    }
    r
}

/// The display-server focus point for a window: one pixel inset from its
/// top-left corner, so the point lands inside the window's interior rather
/// than exactly on a border pixel.
pub fn focus_point(window: &Window) -> (r: (i32, i32))
    ensures
        r.0 == wadd(window@.eff().x, 1),
        r.1 == wadd(window@.eff().y, 1),
{
    (window.x().wrapping_add(1), window.y().wrapping_add(1))
}

/// Handles a window-creation notification. A duplicate handle is a no-op
/// returning `false`; otherwise the window is prepared (tags, dialog
/// centering, transient placement, theme, floating backfill), appended to
/// the collection, announced on the action queue, and the call returns
/// `true`: a render pass is always warranted after a successful creation.
///
/// The caller is expected to follow a successful creation with a focus
/// request for the new window at [`focus_point`], and to launch the
/// configured new-window command, if any; both are display-server side
/// effects outside this model.
pub fn created(manager: &mut Manager, a_window: Window) -> (r: bool)
    requires
        old(manager).focused_workspace_spec() is None
            && !knows_handle(old(manager).windows_view(), a_window@.handle)
            ==> old(manager).tags@.len() > 0,
    ensures
        created_post(*old(manager), *final(manager), a_window@, r),
{
    let ghost m0 = *old(manager);
    let ghost av = a_window@;
    let mut i: usize = 0;
    while i < manager.windows.len()
        invariant
            i <= manager.windows.len(),
            *manager == m0,
            forall|j: int| 0 <= j < i ==> manager.windows_view()[j].handle != av.handle,
            av == a_window@,
        decreases manager.windows.len() - i,
    {
        if manager.windows[i].handle == a_window.handle {
            proof {
                assert(m0.windows_view()[i as int].handle == av.handle);
                assert(knows_handle(m0.windows_view(), av.handle));
            }
            return false;
        }
        i += 1;
    }
    proof {
        assert(!knows_handle(m0.windows_view(), av.handle));
    }
    let mut window = a_window;
    match manager.focused_workspace() {
        Some(ws) => {
            window.tags = cloned_tags(&ws.tags);
            if window.type_ == WindowType::Dialog {
                window.floating = Some(ws.center_halfed());
                window.floating_mode = true;
            }
        },
        None => {
            window.tags = vec![manager.tags[0].clone()];
        },
    }
    proof {
        assert(window@ =~= assign_tags(av, m0.focused_workspace_spec(), m0.tags@[0]));
    }
    let ghost tagged = window@;
    if let Some(trans) = window.transient {
        window.floating_mode = true;
        if window.floating.is_none() {
            window.floating = Some(XYHW::zero());
        }
        let centered = match find_window(manager, &trans) {
            Some(parent) => Some(calc_center_of_parent(&window, parent)),
            None => None,
        };
        if let Some(c) = centered {
            window.floating = Some(c);
        }
    }
    proof {
        let parent = match av.transient {
            Some(t) => first_with_handle(m0.windows_view(), t),
            None => None,
        };
        assert(window@ =~= place_transient(tagged, parent));
    }
    window.update_for_theme(&manager.theme_setting);
    if window.floating_mode && window.floating.is_none() {
        window.floating = Some(window.normal);
    }
    proof {
        assert(window@ =~= created_window(m0, av));
    }
    let handle = window.handle;
    let tag0 = if window.tags.len() > 0 {
        Some(window.tags[0].clone())
    } else {
        None
    };
    manager.windows.push(window);
    manager.actions.push_back(DisplayAction::AddedWindow(handle));
    if let Some(t) = tag0 {
        manager.actions.push_back(DisplayAction::SetWindowTags(handle, t));
    }
    manager.actions.push_back(DisplayAction::MoveToTop(handle));
    proof {
        assert(manager.windows_view() =~= m0.windows_view().push(created_window(m0, av)));
        assert(manager.actions@ =~= m0.actions@ + created_actions(created_window(m0, av)));
    }
    true
}

/// Copies a vector of rectangles.
fn copy_rects(v: &Vec<XYHW>) -> (r: Vec<XYHW>)
    ensures
        r@ == v@,
{
    let mut r: Vec<XYHW> = Vec::new();
    let mut i: usize = 0;
    while i < v.len()
        invariant
            i <= v.len(),
            r@ == v@.take(i as int),
        decreases v.len() - i,
    {
        r.push(v[i]);
        proof {
            assert(r@ =~= v@.take(i + 1));
        }
        i += 1;
    }
    proof {
        assert(v@.take(v@.len() as int) =~= v@);
    }
    r
}

/// The windows left once every window with handle `h` is removed.
pub open spec fn without_handle(s: Seq<WindowView>, h: WindowHandle) -> Seq<WindowView> {
    s.filter(|w: WindowView| w.handle != h)
}

/// Removal shrinks the collection exactly when some window matches.
pub proof fn lemma_without_handle_len(s: Seq<WindowView>, h: WindowHandle)
    ensures
        without_handle(s, h).len() <= s.len(),
        knows_handle(s, h) <==> without_handle(s, h).len() < s.len(),
    decreases s.len(),
{
    reveal(Seq::filter);
    if s.len() > 0 {
        let dl = s.drop_last();
        lemma_without_handle_len(dl, h);
        if s.last().handle == h {
            assert(s[s.len() - 1].handle == h);
            assert(knows_handle(s, h));
        } else {
            if knows_handle(s, h) {
                let i = choose|i: int| 0 <= i < s.len() && s[i].handle == h;
                assert(dl[i] == s[i]);
                assert(knows_handle(dl, h));
            }
            if knows_handle(dl, h) {
                let i = choose|i: int| 0 <= i < dl.len() && dl[i].handle == h;
                assert(s[i] == dl[i]);
                assert(knows_handle(s, h));
            }
        }
    }
}

/// Handles a window-destroyed notification: removes every window with the
/// handle (expected to match at most one), unconditionally recomputes every
/// workspace's avoid list, and reports whether the collection shrank —
/// callers must not assume a render is needed when no matching handle
/// existed.
///
/// The caller is expected to follow the removal with a focus reassignment to
/// the most recently valid remaining window; the focus stack is an external
/// collaborator outside this model.
pub fn destroyed(manager: &mut Manager, handle: &WindowHandle) -> (r: bool)
    ensures
        final(manager).windows_view() == without_handle(old(manager).windows_view(), *handle),
        r == knows_handle(old(manager).windows_view(), *handle),
        forall|i: int| 0 <= i < final(manager).windows_view().len()
            ==> #[trigger] final(manager).windows_view()[i].handle != *handle,
        final(manager).actions == old(manager).actions,
        final(manager).tags == old(manager).tags,
        final(manager).theme_setting == old(manager).theme_setting,
        final(manager).focused_workspace_index == old(manager).focused_workspace_index,
        final(manager).workspaces_view() == updated_workspaces(
            old(manager).workspaces_view(),
            dock_avoid(final(manager).windows_view()),
        ),
{
    let ghost orig = manager.windows.deep_view();
    let start_size = manager.windows.len();
    let mut i: usize = 0;
    let ghost mut j: int = 0;
    while i < manager.windows.len()
        invariant
            0 <= j <= orig.len(),
            manager.windows.deep_view() == without_handle(orig.take(j), *handle) + orig.skip(j),
            i as int == without_handle(orig.take(j), *handle).len(),
            i <= manager.windows.len(),
            manager.workspaces == old(manager).workspaces,
            manager.tags == old(manager).tags,
            manager.theme_setting == old(manager).theme_setting,
            manager.actions == old(manager).actions,
            manager.focused_workspace_index == old(manager).focused_workspace_index,
        decreases orig.len() - j,
    {
        proof {
            reveal(Seq::filter);
            assert(manager.windows.deep_view()[i as int] == orig.skip(j)[0]);
            assert(orig.skip(j)[0] == orig[j]);
            assert(orig.take(j + 1).drop_last() =~= orig.take(j));
            assert(orig.take(j + 1).last() == orig[j]);
        }
        if manager.windows[i].handle == *handle {
            let ghost before = manager.windows@;
            let ghost dv_old = manager.windows.deep_view();
            let _removed = manager.windows.remove(i);
            proof {
                j = j + 1;
                assert forall|k: int| 0 <= k < manager.windows@.len()
                    implies #[trigger] manager.windows_view()[k] == dv_old.remove(i as int)[k] by {
                    assert(manager.windows@[k] == before.remove(i as int)[k]);
                    if k < i as int {
                        assert(manager.windows@[k] == before[k]);
                    } else {
                        assert(manager.windows@[k] == before[k + 1]);
                    }
                }
                assert(manager.windows.deep_view() =~= dv_old.remove(i as int));
                assert(dv_old.remove(i as int) =~= without_handle(orig.take(j), *handle)
                    + orig.skip(j));
            }
        } else {
            proof {
                j = j + 1;
                assert(manager.windows.deep_view() =~= without_handle(orig.take(j), *handle)
                    + orig.skip(j));
            }
            i += 1;
        }
    }
    proof {
        assert(orig.skip(j).len() == 0);
        assert(j == orig.len());
        assert(orig.take(j) =~= orig);
        assert(manager.windows.deep_view() =~= without_handle(orig, *handle));
        lemma_without_handle_len(orig, *handle);
        assert forall|k: int| 0 <= k < manager.windows_view().len()
            implies #[trigger] manager.windows_view()[k].handle != *handle by {
            assert(manager.windows_view()[k] == without_handle(orig, *handle)[k]);
        }
    }
    let r = start_size != manager.windows.len();
    update_workspace_avoid_list(manager);
    r
}

/// What `changed` guarantees: an unknown handle is a no-op returning
/// `false`; otherwise the diff is applied to the first matching window, and
/// either the window now classifies as a dock — every workspace's avoid list
/// is recomputed and the call returns `false` regardless of what changed, an
/// anti-feedback-loop rule — or the call reports whether any field moved.
pub open spec fn changed_post(m0: Manager, m1: Manager, c: WindowChange, r: bool) -> bool {
    let s0 = m0.windows_view();
    let idx = find_index_spec(s0, c.handle);
    if idx == -1 {
        r == false && m1 == m0
    } else {
        let wv = s0[idx];
        let nv = apply_change(wv, c);
        &&& m1.windows_view() == s0.update(idx, nv)
        &&& m1.actions == m0.actions
        &&& m1.tags == m0.tags
        &&& m1.theme_setting == m0.theme_setting
        &&& m1.focused_workspace_index == m0.focused_workspace_index
        &&& if nv.type_ == WindowType::Dock {
            r == false && m1.workspaces_view() == updated_workspaces(
                m0.workspaces_view(),
                dock_avoid(s0.update(idx, nv)),
            )
        } else {
            r == change_changes(wv, c) && m1.workspaces == m0.workspaces
        }
    }
}

/// Handles a window-change notification: applies the diff to the first
/// window matching the change's handle (see [`changed_post`]).
pub fn changed(manager: &mut Manager, change: WindowChange) -> (r: bool)
    ensures
        changed_post(*old(manager), *final(manager), change, r),
{
    let ghost m0 = *old(manager);
    let mut i: usize = 0;
    while i < manager.windows.len()
        invariant
            i <= manager.windows.len(),
            m0 == *old(manager),
            *manager == m0,
            forall|j: int| 0 <= j < i ==> manager.windows_view()[j].handle != change.handle,
        decreases manager.windows.len() - i,
    {
        if manager.windows[i].handle == change.handle {
            proof {
                lemma_find_index_at(m0.windows_view(), change.handle, i as int);
            }
            let ghost before = manager.windows@;
            let mut w = manager.windows.remove(i);
            let ch = change.update(&mut w);
            let is_dock = w.type_ == WindowType::Dock;
            let ghost nv = w@;
            manager.windows.insert(i, w);
            proof {
                assert(before[i as int]@ == m0.windows_view()[i as int]);
                assert(nv == apply_change(m0.windows_view()[i as int], change));
                let now = manager.windows@;
                assert(now =~= before.remove(i as int).insert(i as int, now[i as int]));
                assert(now =~= before.update(i as int, now[i as int]));
                assert(now[i as int]@ == nv);
                assert forall|j: int| 0 <= j < now.len()
                    implies #[trigger] manager.windows_view()[j]
                        == m0.windows_view().update(i as int, nv)[j] by {
                    if j != i {
                        assert(now[j] == before[j]);
                    }
                }
                assert(manager.windows_view() =~= m0.windows_view().update(i as int, nv));
            }
            if is_dock {
                update_workspace_avoid_list(manager);
                return false;
            }
            return ch;
        }
        i += 1;
    }
    proof {
        lemma_find_index_none(m0.windows_view(), change.handle);
    }
    false
}

/// Collects the floating geometry of every dock window into one list, then
/// assigns a fresh copy of it to every workspace and recomputes each
/// workspace's avoided-area index. Always a full recomputation.
pub fn update_workspace_avoid_list(manager: &mut Manager)
    ensures
        final(manager).windows == old(manager).windows,
        final(manager).tags == old(manager).tags,
        final(manager).theme_setting == old(manager).theme_setting,
        final(manager).actions == old(manager).actions,
        final(manager).focused_workspace_index == old(manager).focused_workspace_index,
        final(manager).workspaces_view() == updated_workspaces(
            old(manager).workspaces_view(),
            dock_avoid(old(manager).windows_view()),
        ),
        forall|i: int| 0 <= i < final(manager).workspaces_view().len()
            ==> #[trigger] final(manager).workspaces_view()[i].avoid
                == dock_avoid(old(manager).windows_view()),
{
    let mut avoid: Vec<XYHW> = Vec::new();
    let mut i: usize = 0;
    while i < manager.windows.len()
        invariant
            i <= manager.windows.len(),
            *manager == *old(manager),
            avoid@ == dock_avoid(manager.windows_view().take(i as int)),
        decreases manager.windows.len() - i,
    {
        proof {
            let s = manager.windows_view();
            assert(s.take(i + 1).drop_last() =~= s.take(i as int));
            assert(s.take(i + 1).last() == s[i as int]);
        }
        let w = &manager.windows[i];
        if w.type_ == WindowType::Dock {
            if let Some(f) = w.floating {
                avoid.push(f);
            }
        }
        i += 1;
    }
    proof {
        assert(manager.windows_view().take(manager.windows_view().len() as int)
            =~= manager.windows_view());
    }
    let ghost target = updated_workspaces(old(manager).workspaces_view(), avoid@);
    let mut k: usize = 0;
    while k < manager.workspaces.len()
        invariant
            k <= manager.workspaces.len(),
            manager.windows == old(manager).windows,
            manager.tags == old(manager).tags,
            manager.theme_setting == old(manager).theme_setting,
            manager.actions == old(manager).actions,
            manager.focused_workspace_index == old(manager).focused_workspace_index,
            manager.workspaces.len() == old(manager).workspaces.len(),
            avoid@ == dock_avoid(old(manager).windows_view()),
            target == updated_workspaces(old(manager).workspaces_view(), avoid@),
            forall|j: int| 0 <= j < k
                ==> (#[trigger] manager.workspaces@[j])@ == target[j],
            forall|j: int| k <= j < manager.workspaces.len()
                ==> #[trigger] manager.workspaces@[j] == old(manager).workspaces@[j],
        decreases manager.workspaces.len() - k,
    {
        let ghost before = manager.workspaces@;
        let mut w = manager.workspaces.remove(k);
        w.avoid = copy_rects(&avoid);
        w.update_avoided_areas();
        let ghost wv = w@;
        manager.workspaces.insert(k, w);
        proof {
            let now = manager.workspaces@;
            assert(now =~= before.update(k as int, now[k as int]));
            assert(now[k as int]@ == wv);
            assert(wv =~= target[k as int]);
            assert forall|j: int| 0 <= j < k + 1
                implies (#[trigger] now[j])@ == target[j] by {
                if j < k {
                    assert(now[j] == before[j]);
                }
            }
        }
        k += 1;
    }
    proof {
        assert forall|j: int| 0 <= j < manager.workspaces@.len()
            implies #[trigger] manager.workspaces_view()[j] == target[j] by {
            assert(manager.workspaces@[j]@ == target[j]);
        }
        assert(manager.workspaces_view() =~= target);
    }
}

} // verus!
