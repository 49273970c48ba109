use oxidbar::cache::MemoCache;
use oxidbar::desktop::{DesktopCache, DesktopFile};
use oxidbar::icons::{file_stem, finish_icon_search, icon_fetcher, icon_matches, is_icon_file, IconCache};

fn files(list: &[(&str, &str)]) -> Vec<(String, String)> {
    list.iter().map(|(d, n)| (d.to_string(), n.to_string())).collect()
}

#[test]
fn stems() {
    assert_eq!(file_stem("firefox.png"), "firefox");
    assert_eq!(file_stem("archive.tar.gz"), "archive.tar");
    assert_eq!(file_stem(".hidden"), ".hidden");
    assert_eq!(file_stem("noext"), "noext");
    assert_eq!(file_stem(".."), "..");
    assert_eq!(file_stem("a."), "a");
}

#[test]
fn matches_are_exact_and_ordered() {
    let found = icon_matches(
        "firefox",
        &files(&[
            ("/usr/share/icons/hicolor/48x48/apps", "firefox.png"),
            ("/usr/share/icons/hicolor/48x48/apps", "Firefox.png"),
            ("/usr/share/icons/hicolor/48x48/apps", "firefox-esr.png"),
            ("/usr/share/pixmaps", "firefox.svg"),
        ]),
    );
    assert_eq!(
        found,
        vec![
            "/usr/share/icons/hicolor/48x48/apps/firefox.png".to_string(),
            "/usr/share/pixmaps/firefox.svg".to_string(),
        ]
    );
    assert!(is_icon_file("foo.xpm", "foo"));
    assert!(!is_icon_file("a/foo.xpm", "foo"));
    assert!(!is_icon_file("foo.xpm", "Foo"));
}

#[test]
fn second_lookup_is_served_from_cache() {
    let mut cache = IconCache::new();
    assert_eq!(icon_fetcher(&cache, "foo"), None);
    let first = finish_icon_search(&mut cache, "foo", &files(&[("/p", "foo.png"), ("/p", "bar.png")]));
    assert_eq!(first, vec!["/p/foo.png".to_string()]);
    assert_eq!(icon_fetcher(&cache, "foo"), Some(first.clone()));
    assert_eq!(icon_fetcher(&cache, "bar"), None);
    let empty = finish_icon_search(&mut cache, "bar", &files(&[]));
    assert!(empty.is_empty());
    assert_eq!(icon_fetcher(&cache, "bar"), Some(vec![]));
    assert_eq!(cache.len(), 2);
}

#[test]
fn desktop_entries_are_parsed_and_cached() {
    let text = "[Desktop Entry]\nName=Firefox\nExec=firefox %u\nIcon=firefox\n";
    let d = DesktopFile::parse(text).unwrap();
    assert_eq!(d.name, "Firefox");
    assert_eq!(d.command, "firefox %u");
    assert_eq!(d.icon, Some("firefox".to_string()));
    let bare = DesktopFile::parse("[Desktop Entry]\nType=Application\n").unwrap();
    assert_eq!(bare.name, "");
    assert_eq!(bare.command, "");
    assert_eq!(bare.icon, None);
    assert!(DesktopFile::parse("[Desktop Entry\nName=x\n").is_none());

    let mut cache: DesktopCache = MemoCache::new();
    assert!(DesktopFile::load(&cache, "Firefox").is_none());
    let found = DesktopFile::finish_load(&mut cache, "Firefox", Some(text.to_string())).unwrap();
    assert_eq!(found.name, "Firefox");
    let again = DesktopFile::load(&cache, "Firefox").unwrap().unwrap();
    assert_eq!(again.icon, Some("firefox".to_string()));
    assert!(DesktopFile::finish_load(&mut cache, "nothing", None).is_none());
    assert!(matches!(DesktopFile::load(&cache, "nothing"), Some(None)));
}

#[test]
fn desktop_candidates_try_given_class_first() {
    let paths = DesktopFile::candidate_paths("Code");
    assert_eq!(
        paths,
        vec![
            "/usr/share/applications/Code.desktop".to_string(),
            "/usr/share/applications/code.desktop".to_string(),
            "/usr/local/share/applications/Code.desktop".to_string(),
            "/usr/local/share/applications/code.desktop".to_string(),
            "~/.local/share/applications/Code.desktop".to_string(),
            "~/.local/share/applications/code.desktop".to_string(),
        ]
    );
}
