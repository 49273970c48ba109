use oxidbar::pixmap::argb_to_rgba;
use oxidbar::tray::{
    should_report_property_error, split_address, IconSource, ItemProperties, ToolTip, TrayItem,
    TrayItemStatus,
};

fn no_properties() -> ItemProperties {
    ItemProperties {
        id: None,
        title: None,
        status: None,
        category: None,
        icon_name: None,
        attention_icon_name: None,
        overlay_icon_name: None,
        icon_pixmap: None,
        attention_icon_pixmap: None,
        overlay_icon_pixmap: None,
        menu: None,
        item_is_menu: None,
        window_id: None,
        tool_tip: None,
    }
}

#[test]
fn address_with_path_is_split_at_first_slash() {
    let (bus, path) = split_address("org.foo.App/org/ayatana/NotificationItem1");
    assert_eq!(bus, "org.foo.App");
    assert_eq!(path, "/org/ayatana/NotificationItem1");
}

#[test]
fn bare_bus_name_gets_default_path() {
    let (bus, path) = split_address(":1.42");
    assert_eq!(bus, ":1.42");
    assert_eq!(path, "/StatusNotifierItem");
    assert!(!path.is_empty());
}

#[test]
fn icon_key_prefers_id_over_title() {
    let mut p = no_properties();
    p.id = Some("foo".to_string());
    p.title = Some("Foo App".to_string());
    assert_eq!(p.icon_lookup_key(), Some("foo".to_string()));
    let (bus, path) = split_address("org.foo.App/org/ayatana/NotificationItem1");
    let item = TrayItem::from_properties(p, bus, path, vec!["/usr/share/icons/foo.png".to_string()]);
    assert_eq!(item.icon.icon_paths, vec!["/usr/share/icons/foo.png".to_string()]);
    assert_eq!(item.icon.name, None);
    assert!(item.icon.pixmap.is_none());
    assert_eq!(item.bus_name, "org.foo.App");
    assert_eq!(item.object_path, "/org/ayatana/NotificationItem1");
}

#[test]
fn icon_key_order() {
    let mut p = no_properties();
    assert_eq!(p.icon_lookup_key(), None);
    p.title = Some("Foo App".to_string());
    assert_eq!(p.icon_lookup_key(), Some("Foo App".to_string()));
    p.id = Some(String::new());
    assert_eq!(p.icon_lookup_key(), Some("Foo App".to_string()));
    p.icon_name = Some("foo-icon".to_string());
    assert_eq!(p.icon_lookup_key(), Some("foo-icon".to_string()));
}

#[test]
fn failed_reads_get_defaults() {
    let item = TrayItem::from_properties(no_properties(), "b".to_string(), "/p".to_string(), vec![]);
    assert_eq!(item.id, "");
    assert_eq!(item.title, "");
    assert_eq!(item.category, "");
    assert_eq!(item.status, TrayItemStatus::Passive);
    assert!(!item.is_menu);
    assert_eq!(item.window_id, 0);
    assert_eq!(item.menu_path, None);
    assert_eq!(item.tooltip.title(), "");
    assert!(item.tooltip.icon_pixmap().is_empty());
}

#[test]
fn status_text() {
    assert_eq!(TrayItemStatus::from_text("Active"), TrayItemStatus::Active);
    assert_eq!(TrayItemStatus::from_text("NeedsAttention"), TrayItemStatus::NeedsAttention);
    assert_eq!(TrayItemStatus::from_text("Passive"), TrayItemStatus::Passive);
    assert_eq!(TrayItemStatus::from_text("active"), TrayItemStatus::Passive);
}

#[test]
fn pixmap_priority() {
    let mut p = no_properties();
    p.tool_tip = Some(ToolTip::new(String::new(), vec![(1, 1, vec![9, 9, 9, 9])], String::new(), String::new()));
    p.icon_pixmap = Some(vec![]);
    let item = TrayItem::from_properties(p, String::new(), String::new(), vec![]);
    assert_eq!(item.icon.pixmap, Some((1, 1, vec![9, 9, 9, 9])));

    let mut p = no_properties();
    p.icon_pixmap = Some(vec![(2, 1, vec![1; 8]), (1, 1, vec![2; 4])]);
    p.attention_icon_pixmap = Some(vec![(1, 1, vec![3; 4])]);
    p.status = Some("Active".to_string());
    let item = TrayItem::from_properties(p, String::new(), String::new(), vec![]);
    assert_eq!(item.icon.pixmap, Some((2, 1, vec![1; 8])));

    let mut p = no_properties();
    p.icon_pixmap = Some(vec![(2, 1, vec![1; 8])]);
    p.attention_icon_pixmap = Some(vec![(1, 1, vec![3; 4])]);
    p.status = Some("NeedsAttention".to_string());
    let item = TrayItem::from_properties(p, String::new(), String::new(), vec![]);
    assert_eq!(item.status, TrayItemStatus::NeedsAttention);
    assert_eq!(item.icon.pixmap, Some((1, 1, vec![3; 4])));

    let mut p = no_properties();
    p.icon_pixmap = Some(vec![(2, 1, vec![1; 8])]);
    p.attention_icon_pixmap = Some(vec![]);
    p.status = Some("NeedsAttention".to_string());
    let item = TrayItem::from_properties(p, String::new(), String::new(), vec![]);
    assert_eq!(item.icon.pixmap, Some((2, 1, vec![1; 8])));
}

#[test]
fn argb_becomes_rgba() {
    let data = vec![1, 2, 3, 4, 5, 6, 7, 8, 9];
    assert_eq!(argb_to_rgba(2, 1, &data), Some(vec![2, 3, 4, 1, 6, 7, 8, 5]));
    assert_eq!(argb_to_rgba(3, 1, &data), None);
    assert_eq!(argb_to_rgba(0, 1, &data), None);
    assert_eq!(argb_to_rgba(-1, -1, &data), None);
}

#[test]
fn fallback_letter_and_tooltip() {
    let mut p = no_properties();
    p.id = Some("nm-applet".to_string());
    let item = TrayItem::from_properties(p, String::new(), String::new(), vec![]);
    assert_eq!(item.tooltip_text(), "nm-applet");
    assert_eq!(item.fallback_letter(), "N");

    let mut p = no_properties();
    p.id = Some("x".to_string());
    p.tool_tip = Some(ToolTip::new(String::new(), vec![], "ß tip".to_string(), String::new()));
    let item = TrayItem::from_properties(p, String::new(), String::new(), vec![]);
    assert_eq!(item.tooltip_text(), "ß tip");
    assert_eq!(item.fallback_letter(), "SS");

    let item = TrayItem::from_properties(no_properties(), String::new(), String::new(), vec![]);
    assert_eq!(item.fallback_letter(), "");
}

#[test]
fn icon_source_priority() {
    let mut p = no_properties();
    p.title = Some("vol".to_string());
    p.icon_pixmap = Some(vec![(1, 1, vec![10, 20, 30, 40])]);
    let item = TrayItem::from_properties(p, String::new(), String::new(), vec!["/a.png".to_string()]);
    assert!(matches!(item.icon_source(true), IconSource::File(ref f) if f == "/a.png"));
    match item.icon_source(false) {
        IconSource::Pixels { width, height, rgba } => {
            assert_eq!((width, height), (1, 1));
            assert_eq!(rgba, vec![20, 30, 40, 10]);
        }
        _ => panic!("expected pixels"),
    }
    let mut p = no_properties();
    p.title = Some("vol".to_string());
    p.icon_pixmap = Some(vec![(4, 4, vec![0; 3])]);
    let item = TrayItem::from_properties(p, String::new(), String::new(), vec![]);
    assert!(matches!(item.icon_source(true), IconSource::Letter(ref l) if l == "V"));
}

#[test]
fn property_errors_worth_reporting() {
    assert!(!should_report_property_error("org.freedesktop.DBus.Error.UnknownProperty: x", false));
    assert!(!should_report_property_error("No such property 'ItemIsMenu'", false));
    assert!(!should_report_property_error("Property 'WindowId' was not found", false));
    assert!(!should_report_property_error("InvalidArgs", false));
    assert!(should_report_property_error("incorrect type", false));
    assert!(!should_report_property_error("incorrect type", true));
    assert!(should_report_property_error("connection reset", true));
}

#[test]
fn tooltip_accessors() {
    let t = ToolTip::new("icon".to_string(), vec![(1, 2, vec![3])], "t".to_string(), "d".to_string());
    assert_eq!(t.icon_name(), "icon");
    assert_eq!(t.icon_pixmap(), &vec![(1, 2, vec![3])]);
    assert_eq!(t.title(), "t");
    assert_eq!(t.description(), "d");
}

#[test]
fn status_from_str() {
    assert_eq!(TrayItemStatus::from("NeedsAttention"), TrayItemStatus::NeedsAttention);
    assert_eq!(TrayItemStatus::from(""), TrayItemStatus::Passive);
}
