use oxidbar::menu::{menu_entries, parse_layout, MenuEntry, Variant, MAX_MENU_DEPTH};
use oxidbar::tray::{split_address, ItemProperties, TrayItem};

fn node(id: i64, props: Vec<(&str, Variant)>, children: Vec<Variant>) -> Variant {
    Variant::Struct(vec![
        Variant::Int(id),
        Variant::Dict(props.into_iter().map(|(k, v)| (k.to_string(), v)).collect()),
        Variant::Array(children),
    ])
}

fn label(s: &str) -> (&'static str, Variant) {
    ("label", Variant::Str(s.to_string()))
}

fn item_with_menu(menu: Option<&str>) -> TrayItem {
    let props = ItemProperties {
        id: Some("foo".to_string()),
        title: None,
        status: None,
        category: None,
        icon_name: None,
        attention_icon_name: None,
        overlay_icon_name: None,
        icon_pixmap: None,
        attention_icon_pixmap: None,
        overlay_icon_pixmap: None,
        menu: menu.map(|m| m.to_string()),
        item_is_menu: None,
        window_id: None,
        tool_tip: None,
    };
    let (bus, path) = split_address("org.foo.App/StatusNotifierItem");
    TrayItem::from_properties(props, bus, path, vec![])
}

#[test]
fn trailing_separator_is_omitted() {
    let layout = node(
        0,
        vec![],
        vec![
            node(1, vec![label("Open")], vec![]),
            node(2, vec![label("Quit")], vec![]),
            node(3, vec![("type", Variant::Str("separator".to_string()))], vec![]),
        ],
    );
    let menu = parse_layout(layout, MAX_MENU_DEPTH).expect("layout reads");
    assert_eq!(menu.children.len(), 3);
    let entries = menu_entries(&menu);
    assert_eq!(entries.len(), 2);
    match (&entries[0], &entries[1]) {
        (
            MenuEntry::Action { id: 1, label: a, enabled: true },
            MenuEntry::Action { id: 2, label: b, enabled: true },
        ) => {
            assert_eq!(a, "Open");
            assert_eq!(b, "Quit");
        }
        _ => panic!("expected two actions"),
    }
}

#[test]
fn inner_separator_submenu_and_disabled_item() {
    let layout = node(
        0,
        vec![],
        vec![
            node(1, vec![label("A"), ("enabled", Variant::Bool(false))], vec![]),
            node(2, vec![("type", Variant::Str("separator".to_string()))], vec![]),
            node(3, vec![label("More")], vec![node(4, vec![label("B")], vec![])]),
        ],
    );
    let menu = parse_layout(layout, MAX_MENU_DEPTH).unwrap();
    let entries = menu_entries(&menu);
    assert_eq!(entries.len(), 3);
    assert!(matches!(entries[0], MenuEntry::Action { id: 1, enabled: false, .. }));
    assert!(matches!(entries[1], MenuEntry::Separator { id: 2 }));
    match &entries[2] {
        MenuEntry::Submenu { label, entries } => {
            assert_eq!(label, "More");
            assert_eq!(entries.len(), 1);
            assert!(matches!(entries[0], MenuEntry::Action { id: 4, .. }));
        }
        _ => panic!("expected a submenu"),
    }
}

#[test]
fn malformed_children_are_dropped() {
    let layout = node(
        7,
        vec![label("root")],
        vec![
            Variant::Str("junk".to_string()),
            node(1, vec![], vec![]),
            Variant::Struct(vec![Variant::Int(2), Variant::Other, Variant::Array(vec![])]),
            node(1 << 40, vec![], vec![]),
            node(5, vec![], vec![]),
        ],
    );
    let menu = parse_layout(layout, MAX_MENU_DEPTH).unwrap();
    assert_eq!(menu.id, 7);
    assert_eq!(menu.props.len(), 1);
    let ids: Vec<i32> = menu.children.iter().map(|c| c.id).collect();
    assert_eq!(ids, vec![1, 5]);
}

#[test]
fn malformed_root_and_depth_limit() {
    assert!(parse_layout(Variant::Int(3), MAX_MENU_DEPTH).is_none());
    assert!(parse_layout(node(0, vec![], vec![]), 0).is_none());
    let nested = node(0, vec![], vec![node(1, vec![], vec![node(2, vec![], vec![])])]);
    let menu = parse_layout(nested, 2).unwrap();
    assert_eq!(menu.children.len(), 1);
    assert_eq!(menu.children[0].children.len(), 0);
}

#[test]
fn degenerate_menu_paths_ask_nothing() {
    assert_eq!(item_with_menu(None).menu_request_path(), None);
    assert_eq!(item_with_menu(Some("")).menu_request_path(), None);
    assert_eq!(item_with_menu(Some("/")).menu_request_path(), None);
    assert_eq!(item_with_menu(Some("/MenuBar")).menu_request_path(), Some("/MenuBar".to_string()));
}

#[test]
fn activation_event() {
    assert!(item_with_menu(Some("/")).activation(3, 10).is_none());
    let a = item_with_menu(Some("/MenuBar")).activation(3, 1_700_000_000).unwrap();
    assert_eq!(a.bus_name, "org.foo.App");
    assert_eq!(a.menu_path, "/MenuBar");
    assert_eq!(a.id, 3);
    assert_eq!(a.event_id, "clicked");
    assert_eq!(a.timestamp, 1_700_000_000);
}
