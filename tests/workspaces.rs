use oxidbar::desktop::DesktopFile;
use oxidbar::workspaces::{client_icon_key, HyprWorkspaces, HyprlandClient, WorkspaceInfo, WorkspaceRow};

fn info(id: i32, monitor: &str) -> WorkspaceInfo {
    WorkspaceInfo { id, monitor: monitor.to_string(), monitor_id: Some(0) }
}

fn client(class: &str, ws: i32) -> HyprlandClient {
    HyprlandClient {
        class: class.to_string(),
        title: format!("{class} window"),
        initial_title: class.to_string(),
        workspace_id: ws,
        icons: vec![],
        desktop_file: Some(DesktopFile { name: class.to_string(), command: class.to_string(), icon: None }),
    }
}

#[test]
fn snapshot_groups_windows_by_workspace() {
    let ws = HyprWorkspaces::init(
        vec![info(3, "DP-1"), info(1, "DP-1"), info(-98, "DP-2"), info(2, "HDMI")],
        vec![client("kitty", 1), client("firefox", 3), client("ghost", 9), client("mpv", 1)],
        Some(3),
    );
    let ids: Vec<i32> = ws.map.iter().map(|w| w.id).collect();
    assert_eq!(ids, vec![-98, 1, 2, 3]);
    let classes: Vec<&str> = ws.map[1].clients.iter().map(|c| c.class.as_str()).collect();
    assert_eq!(classes, vec!["kitty", "mpv"]);
    assert!(ws.map[2].clients.is_empty());
    assert_eq!(ws.map[3].clients[0].class, "firefox");
    assert_eq!(ws.map[0].monitor, "DP-2");
    assert_eq!(ws.active_id, Some(3));
}

#[test]
fn later_listing_of_an_id_wins() {
    let ws = HyprWorkspaces::init(vec![info(1, "A"), info(1, "B")], vec![client("x", 1)], None);
    assert_eq!(ws.map.len(), 1);
    assert_eq!(ws.map[0].monitor, "B");
    assert_eq!(ws.map[0].clients.len(), 1);
}

#[test]
fn exactly_one_row_is_active() {
    let ws = HyprWorkspaces::init(vec![info(5, "A"), info(2, "A"), info(9, "A")], vec![], Some(5));
    assert_eq!(
        ws.rows(),
        vec![
            WorkspaceRow { id: 2, active: false },
            WorkspaceRow { id: 5, active: true },
            WorkspaceRow { id: 9, active: false },
        ]
    );
    let none = HyprWorkspaces::init(vec![info(5, "A")], vec![], Some(7));
    assert!(none.rows().iter().all(|r| !r.active));
    let empty = HyprWorkspaces::init(vec![], vec![client("x", 1)], None);
    assert!(empty.rows().is_empty());
}

#[test]
fn workspace_description() {
    let ws = HyprWorkspaces::init(
        vec![WorkspaceInfo { id: -98, monitor: "DP-1".to_string(), monitor_id: None }, info(2, "HDMI")],
        vec![client("a", 2), client("b", 2)],
        None,
    );
    assert_eq!(ws.map[0].describe(), "Workspace {id: -98, monitor(DP-1): None, clients: 0}");
    assert_eq!(ws.map[1].describe(), "Workspace {id: 2, monitor(HDMI): 0, clients: 2}");
}

#[test]
fn window_icon_key_prefers_desktop_icon() {
    let with_icon = Some(DesktopFile { name: "Code".to_string(), command: "code".to_string(), icon: Some("vscode".to_string()) });
    assert_eq!(client_icon_key("Code", &with_icon), "vscode");
    let without = Some(DesktopFile { name: "Code".to_string(), command: "code".to_string(), icon: None });
    assert_eq!(client_icon_key("Code", &without), "Code");
    assert_eq!(client_icon_key("kitty", &None), "kitty");
}
