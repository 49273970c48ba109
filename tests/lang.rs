use oxidbar::lang::{get_current_layout, get_layout_flag, layout_flag, Keyboard, LayoutError};

fn kb(main: bool, keymap: &str) -> Keyboard {
    Keyboard { main, active_keymap: keymap.to_string() }
}

#[test]
fn main_keyboard_layout() {
    let ks = vec![kb(false, "German"), kb(true, "Russian"), kb(true, "English (US)")];
    assert_eq!(get_current_layout(&ks), Ok("Russian".to_string()));
    assert_eq!(get_current_layout(&vec![kb(false, "x")]), Err(LayoutError::NoMainKeyboard));
    assert_eq!(get_layout_flag(&vec![]), Err(LayoutError::NoMainKeyboard));
    assert_eq!(get_layout_flag(&ks), Ok("🇷🇺".to_string()));
}

#[test]
fn layout_flags() {
    assert_eq!(layout_flag("Russian"), "🇷🇺");
    assert_eq!(layout_flag("РУССКАЯ"), "🇷🇺");
    assert_eq!(layout_flag("English (US)"), "🇺🇸");
    assert_eq!(layout_flag("us"), "🇺🇸");
    assert_eq!(layout_flag("German"), "German");
}
