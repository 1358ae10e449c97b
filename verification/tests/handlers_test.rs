use std::collections::VecDeque;
use window_handler::display_action::DisplayAction;
use window_handler::handlers::{
    calc_center_of_parent, changed, created, destroyed, find_window, focus_point,
    update_workspace_avoid_list,
};
use window_handler::manager::Manager;
use window_handler::theme::ThemeSetting;
use window_handler::window::{Window, WindowChange, WindowHandle, WindowType};
use window_handler::workspace::Workspace;
use window_handler::xyhw::XYHW;

fn rect(x: i32, y: i32, h: i32, w: i32) -> XYHW {
    XYHW { x, y, h, w }
}

fn window(h: u64) -> Window {
    Window {
        handle: WindowHandle(h),
        type_: WindowType::Normal,
        tags: vec![],
        floating: None,
        normal: rect(0, 0, 0, 0),
        transient: None,
        floating_mode: false,
        border: 0,
        margin: 0,
    }
}

fn manager() -> Manager {
    Manager {
        windows: vec![],
        workspaces: vec![],
        tags: vec!["1".to_string()],
        theme_setting: ThemeSetting { border_width: 0, margin: 0, on_new_window_cmd: None },
        actions: VecDeque::new(),
        focused_workspace_index: None,
    }
}

fn workspace(tags: Vec<String>, xyhw: XYHW) -> Workspace {
    Workspace { tags, avoid: vec![], xyhw, xyhw_avoided: xyhw }
}

fn no_change(h: u64) -> WindowChange {
    WindowChange { handle: WindowHandle(h), transient: None, floating: None, type_: None }
}

#[test]
fn creating_twice_leaves_collection_and_queue_unchanged() {
    let mut m = manager();
    assert!(created(&mut m, window(1)));
    assert_eq!(m.windows.len(), 1);
    assert_eq!(m.actions.len(), 3);
    assert!(!created(&mut m, window(1)));
    assert_eq!(m.windows.len(), 1);
    assert_eq!(m.actions.len(), 3);
    let added = m
        .actions
        .iter()
        .filter(|a| matches!(a, DisplayAction::AddedWindow(_)))
        .count();
    assert_eq!(added, 1);
}

#[test]
fn created_scenario_without_focus_queues_three_actions() {
    let mut m = manager();
    let r = created(&mut m, window(1));
    assert!(r);
    assert_eq!(m.windows[0].tags, vec!["1".to_string()]);
    let expected: VecDeque<DisplayAction> = VecDeque::from(vec![
        DisplayAction::AddedWindow(WindowHandle(1)),
        DisplayAction::SetWindowTags(WindowHandle(1), "1".to_string()),
        DisplayAction::MoveToTop(WindowHandle(1)),
    ]);
    assert_eq!(m.actions, expected);
}

#[test]
fn created_inherits_focused_workspace_tags_by_value() {
    let mut m = manager();
    m.workspaces.push(workspace(
        vec!["2".to_string(), "3".to_string()],
        rect(0, 0, 600, 800),
    ));
    m.focused_workspace_index = Some(0);
    assert!(created(&mut m, window(1)));
    assert_eq!(m.windows[0].tags, vec!["2".to_string(), "3".to_string()]);
    m.workspaces[0].tags.push("9".to_string());
    assert_eq!(m.windows[0].tags, vec!["2".to_string(), "3".to_string()]);
}

#[test]
fn created_takes_first_configured_tag_without_focus() {
    let mut m = manager();
    m.tags = vec!["a".to_string(), "b".to_string()];
    assert!(created(&mut m, window(1)));
    assert_eq!(m.windows[0].tags, vec!["a".to_string()]);
}

#[test]
fn created_applies_theme_to_window() {
    let mut m = manager();
    m.theme_setting.border_width = 3;
    m.theme_setting.margin = 7;
    assert!(created(&mut m, window(1)));
    assert_eq!(m.windows[0].border, 3);
    assert_eq!(m.windows[0].margin, 7);
}

#[test]
fn dialog_on_focused_workspace_is_centered_and_halved() {
    let mut m = manager();
    m.workspaces.push(workspace(vec!["2".to_string()], rect(0, 0, 600, 800)));
    m.focused_workspace_index = Some(0);
    let mut d = window(7);
    d.type_ = WindowType::Dialog;
    assert!(created(&mut m, d));
    let w = &m.windows[0];
    assert!(w.floating_mode);
    assert_eq!(w.floating, Some(rect(200, 150, 300, 400)));
    assert_eq!(w.tags, vec!["2".to_string()]);
}

#[test]
fn transient_with_zero_size_takes_half_of_parent() {
    let mut m = manager();
    let mut parent = window(1);
    parent.normal = rect(100, 100, 400, 600);
    assert!(created(&mut m, parent));
    let mut child = window(2);
    child.transient = Some(WindowHandle(1));
    assert!(created(&mut m, child));
    let w = &m.windows[1];
    assert!(w.floating_mode);
    assert_eq!(w.floating, Some(rect(250, 200, 200, 300)));
}

#[test]
fn transient_with_own_size_keeps_it_and_is_centered() {
    let mut m = manager();
    let mut parent = window(1);
    parent.normal = rect(100, 100, 400, 600);
    assert!(created(&mut m, parent));
    let mut child = window(2);
    child.transient = Some(WindowHandle(1));
    child.floating = Some(rect(0, 0, 100, 100));
    assert!(created(&mut m, child));
    let w = &m.windows[1];
    assert!(w.floating_mode);
    assert_eq!(w.floating, Some(rect(350, 250, 100, 100)));
}

#[test]
fn transient_without_known_parent_keeps_synthesized_geometry() {
    let mut m = manager();
    let mut child = window(2);
    child.transient = Some(WindowHandle(99));
    assert!(created(&mut m, child));
    let w = &m.windows[0];
    assert!(w.floating_mode);
    assert_eq!(w.floating, Some(rect(0, 0, 0, 0)));
}

#[test]
fn floating_window_without_geometry_backfills_from_normal() {
    let mut m = manager();
    let mut w = window(3);
    w.floating_mode = true;
    w.normal = rect(10, 20, 30, 40);
    assert!(created(&mut m, w));
    assert_eq!(m.windows[0].floating, Some(rect(10, 20, 30, 40)));
}

#[test]
fn destroyed_absent_handle_returns_false_and_keeps_collection() {
    let mut m = manager();
    assert!(created(&mut m, window(1)));
    assert!(!destroyed(&mut m, &WindowHandle(2)));
    assert_eq!(m.windows.len(), 1);
}

#[test]
fn destroyed_present_handle_shrinks_by_exactly_one() {
    let mut m = manager();
    assert!(created(&mut m, window(1)));
    assert!(created(&mut m, window(2)));
    assert!(destroyed(&mut m, &WindowHandle(1)));
    assert_eq!(m.windows.len(), 1);
    assert!(m.windows.iter().all(|w| w.handle != WindowHandle(1)));
}

#[test]
fn destroyed_dock_clears_every_avoid_list() {
    let mut m = manager();
    m.workspaces.push(workspace(vec!["1".to_string()], rect(0, 0, 600, 800)));
    let mut dock = window(5);
    dock.type_ = WindowType::Dock;
    dock.floating = Some(rect(0, 0, 20, 800));
    assert!(created(&mut m, dock));
    update_workspace_avoid_list(&mut m);
    assert_eq!(m.workspaces[0].avoid, vec![rect(0, 0, 20, 800)]);
    assert!(destroyed(&mut m, &WindowHandle(5)));
    assert!(m.workspaces[0].avoid.is_empty());
    assert_eq!(m.workspaces[0].xyhw_avoided, rect(0, 0, 600, 800));
}

#[test]
fn changed_on_dock_returns_false_even_when_fields_move() {
    let mut m = manager();
    m.workspaces.push(workspace(vec!["1".to_string()], rect(0, 0, 600, 800)));
    let mut dock = window(5);
    dock.type_ = WindowType::Dock;
    dock.floating = Some(rect(0, 0, 20, 800));
    assert!(created(&mut m, dock));
    let mut c = no_change(5);
    c.floating = Some(Some(rect(0, 0, 30, 800)));
    assert!(!changed(&mut m, c));
    assert_eq!(m.windows[0].floating, Some(rect(0, 0, 30, 800)));
    assert_eq!(m.workspaces[0].avoid, vec![rect(0, 0, 30, 800)]);
    assert_eq!(m.workspaces[0].xyhw_avoided, rect(0, 30, 570, 800));
}

#[test]
fn changed_on_normal_window_reports_whether_anything_moved() {
    let mut m = manager();
    assert!(created(&mut m, window(1)));
    let mut same = no_change(1);
    same.transient = Some(None);
    assert!(!changed(&mut m, same));
    let mut diff = no_change(1);
    diff.transient = Some(Some(WindowHandle(9)));
    assert!(changed(&mut m, diff));
    assert_eq!(m.windows[0].transient, Some(WindowHandle(9)));
}

#[test]
fn changed_into_dock_takes_the_dock_rule() {
    let mut m = manager();
    m.workspaces.push(workspace(vec!["1".to_string()], rect(0, 0, 600, 800)));
    let mut w = window(4);
    w.floating = Some(rect(0, 0, 20, 800));
    assert!(created(&mut m, w));
    let mut c = no_change(4);
    c.type_ = Some(WindowType::Dock);
    assert!(!changed(&mut m, c));
    assert_eq!(m.windows[0].type_, WindowType::Dock);
    assert_eq!(m.workspaces[0].avoid, vec![rect(0, 0, 20, 800)]);
}

#[test]
fn changed_unknown_handle_returns_false() {
    let mut m = manager();
    assert!(created(&mut m, window(1)));
    let mut c = no_change(2);
    c.type_ = Some(WindowType::Dialog);
    assert!(!changed(&mut m, c));
    assert_eq!(m.windows[0].type_, WindowType::Normal);
}

#[test]
fn avoid_list_is_the_same_for_every_workspace() {
    let mut m = manager();
    m.workspaces.push(workspace(vec!["1".to_string()], rect(0, 0, 600, 800)));
    m.workspaces.push(workspace(vec!["2".to_string()], rect(800, 0, 600, 800)));
    let mut dock = window(5);
    dock.type_ = WindowType::Dock;
    dock.floating = Some(rect(0, 0, 20, 800));
    assert!(created(&mut m, dock));
    let mut bare_dock = window(6);
    bare_dock.type_ = WindowType::Dock;
    assert!(created(&mut m, bare_dock));
    let mut floaty = window(7);
    floaty.floating = Some(rect(1, 1, 1, 1));
    assert!(created(&mut m, floaty));
    update_workspace_avoid_list(&mut m);
    assert_eq!(m.workspaces[0].avoid, vec![rect(0, 0, 20, 800)]);
    assert_eq!(m.workspaces[1].avoid, vec![rect(0, 0, 20, 800)]);
}

#[test]
fn avoided_area_trims_each_edge_bar() {
    let mut ws = workspace(vec!["1".to_string()], rect(0, 0, 600, 800));
    ws.avoid = vec![rect(0, 0, 20, 800)];
    ws.update_avoided_areas();
    assert_eq!(ws.xyhw_avoided, rect(0, 20, 580, 800));
    ws.avoid = vec![rect(0, 580, 20, 800)];
    ws.update_avoided_areas();
    assert_eq!(ws.xyhw_avoided, rect(0, 0, 580, 800));
    ws.avoid = vec![rect(0, 0, 600, 20)];
    ws.update_avoided_areas();
    assert_eq!(ws.xyhw_avoided, rect(20, 0, 600, 780));
    ws.avoid = vec![rect(780, 0, 600, 20)];
    ws.update_avoided_areas();
    assert_eq!(ws.xyhw_avoided, rect(0, 0, 600, 780));
}

#[test]
fn calc_center_of_parent_is_deterministic_and_exact() {
    let mut parent = window(1);
    parent.normal = rect(100, 100, 400, 600);
    let mut child = window(2);
    child.floating = Some(rect(0, 0, 100, 100));
    let c = calc_center_of_parent(&child, &parent);
    assert_eq!(c, rect(350, 250, 100, 100));
    assert_eq!(calc_center_of_parent(&child, &parent), c);
}

#[test]
fn find_window_returns_first_match() {
    let mut m = manager();
    assert!(created(&mut m, window(1)));
    assert!(created(&mut m, window(2)));
    let found = find_window(&m, &WindowHandle(2)).expect("window 2 is known");
    assert_eq!(found.handle, WindowHandle(2));
    assert!(find_window(&m, &WindowHandle(3)).is_none());
}

#[test]
fn focus_point_is_one_pixel_inside_the_corner() {
    let mut w = window(1);
    w.normal = rect(5, 6, 30, 40);
    assert_eq!(focus_point(&w), (6, 7));
    w.floating_mode = true;
    w.floating = Some(rect(50, 60, 30, 40));
    assert_eq!(focus_point(&w), (51, 61));
}
