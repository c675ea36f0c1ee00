use mousespot::config::Config;
use mousespot::effects::{
    spot_action, Effects, Redraw, SpotAction, WM_LBUTTONDOWN, WM_LBUTTONUP, WM_MBUTTONDOWN,
    WM_MOUSEMOVE, WM_MOUSEWHEEL, WM_RBUTTONDOWN, WM_RBUTTONUP,
};
use mousespot::keys::{
    combo, drop_oldest, is_modifier, key_name, on_key_down, push_key, KeyEntry, Modifiers,
    WM_KEYDOWN, WM_SYSKEYDOWN,
};

const MS: u64 = 1_000_000;

fn entry(t: &str) -> KeyEntry {
    KeyEntry { text: t.to_string(), shown_at: 0, mask: None }
}

fn texts(keys: &Vec<KeyEntry>) -> Vec<String> {
    keys.iter().map(|k| k.text.clone()).collect()
}

const NO_MODS: Modifiers = Modifiers { ctrl: false, win: false, alt: false, shift: false };

#[test]
fn modifiers() {
    for vk in [0x10u32, 0x11, 0x12, 0xa0, 0xa1, 0xa2, 0xa3, 0xa4, 0xa5, 0x5b, 0x5c] {
        assert!(is_modifier(vk));
    }
    assert!(is_modifier(0x1_0011));
    assert!(!is_modifier(0x41));
    assert!(!is_modifier(0x5d));
}

#[test]
fn key_labels() {
    assert_eq!(key_name(0x41, 0).as_deref(), Some("A"));
    assert_eq!(key_name(0x5a, 0).as_deref(), Some("Z"));
    assert_eq!(key_name(0x30, 0).as_deref(), Some("0"));
    assert_eq!(key_name(0x60, 0).as_deref(), Some("Num0"));
    assert_eq!(key_name(0x69, 0).as_deref(), Some("Num9"));
    assert_eq!(key_name(0x70, 0).as_deref(), Some("F1"));
    assert_eq!(key_name(0x7b, 0).as_deref(), Some("F12"));
    assert_eq!(key_name(0x87, 0).as_deref(), Some("F24"));
    assert_eq!(key_name(0x20, 0).as_deref(), Some("Space"));
    assert_eq!(key_name(0x0d, 0).as_deref(), Some("Enter"));
    assert_eq!(key_name(0x1b, 0).as_deref(), Some("Esc"));
    assert_eq!(key_name(0x08, 0).as_deref(), Some("Backspace"));
    assert_eq!(key_name(0x22, 0).as_deref(), Some("PageDown"));
    assert_eq!(key_name(0x25, 0).as_deref(), Some("\u{2190}"));
    assert_eq!(key_name(0x28, 0).as_deref(), Some("\u{2193}"));
    assert_eq!(key_name(0x2c, 0).as_deref(), Some("PrtSc"));
    assert_eq!(key_name(0x1_0020, 0).as_deref(), Some("Space"));
}

#[test]
fn key_labels_from_the_layout() {
    assert_eq!(key_name(0xba, 0x3b).as_deref(), Some(";"));
    assert_eq!(key_name(0xba, 0x8000 | 0x3b).as_deref(), Some(";"));
    assert_eq!(key_name(0xde, 0x3042).as_deref(), Some("\u{3042}"));
    assert_eq!(key_name(0xba, 0x1f), None);
    assert_eq!(key_name(0xff, 0), None);
}

#[test]
fn combos() {
    let m = Modifiers { ctrl: true, win: false, alt: false, shift: true };
    assert_eq!(combo(m, "A", false).as_deref(), Some("Ctrl + Shift + A"));
    let all = Modifiers { ctrl: true, win: true, alt: true, shift: true };
    assert_eq!(combo(all, "F4", false).as_deref(), Some("Ctrl + Win + Alt + Shift + F4"));
    assert_eq!(combo(NO_MODS, "A", false), None);
    assert_eq!(combo(NO_MODS, "A", true).as_deref(), Some("A"));
}

#[test]
fn row_keeps_the_most_recent() {
    let mut keys = Vec::new();
    for t in ["a", "b", "c", "d"] {
        push_key(&mut keys, entry(t), true, 3);
    }
    assert_eq!(texts(&keys), vec!["b", "c", "d"]);
    push_key(&mut keys, entry("e"), false, 3);
    assert_eq!(texts(&keys), vec!["e"]);
    push_key(&mut keys, entry("f"), true, 0);
    assert_eq!(texts(&keys), vec!["f"]);
}

#[test]
fn dropping_oldest() {
    let mut keys = vec![entry("a"), entry("b"), entry("c")];
    drop_oldest(&mut keys, 2);
    assert_eq!(texts(&keys), vec!["c"]);
    drop_oldest(&mut keys, 5);
    assert!(keys.is_empty());
}

#[test]
fn key_strokes_join_the_row() {
    let cfg = Config::default();
    let mut keys = Vec::new();
    assert!(on_key_down(&mut keys, &cfg, true, WM_KEYDOWN, 0x41, 0, NO_MODS, 5));
    assert_eq!(keys[0].text, "A");
    assert_eq!(keys[0].shown_at, 5);
    let alt = Modifiers { ctrl: false, win: false, alt: true, shift: false };
    assert!(on_key_down(&mut keys, &cfg, true, WM_SYSKEYDOWN, 0x73, 0, alt, 6));
    assert_eq!(texts(&keys), vec!["A", "Alt + F4"]);
    assert!(!on_key_down(&mut keys, &cfg, true, WM_KEYDOWN, 0x10, 0, NO_MODS, 7));
    assert!(!on_key_down(&mut keys, &cfg, false, WM_KEYDOWN, 0x41, 0, NO_MODS, 7));
    assert!(!on_key_down(&mut keys, &cfg, true, 0x101, 0x41, 0, NO_MODS, 7));
    assert!(!on_key_down(&mut keys, &cfg, true, WM_KEYDOWN, 0xff, 0, NO_MODS, 7));
    let mut only_shortcuts = cfg;
    only_shortcuts.show_all_keys = false;
    assert!(!on_key_down(&mut keys, &only_shortcuts, true, WM_KEYDOWN, 0x41, 0, NO_MODS, 8));
    assert_eq!(keys.len(), 2);
}

#[test]
fn double_click_makes_a_double_ripple() {
    let cfg = Config::default();
    let mut e = Effects::new((0, 0), 0);
    assert_eq!(e.on_mouse(&cfg, WM_LBUTTONDOWN, 10, 10, 0, 100 * MS, 500), Redraw::Highlight);
    assert!(!e.ripples[0].double);
    assert_eq!(e.ripples[0].color, cfg.left_color);
    e.on_mouse(&cfg, WM_LBUTTONUP, 10, 10, 0, 150 * MS, 500);
    e.on_mouse(&cfg, WM_LBUTTONDOWN, 16, 4, 0, 600 * MS, 500);
    assert!(e.ripples[1].double);
    assert_eq!(e.ripples[1].color, cfg.double_color);
    assert!(e.last_left.is_none());
    e.on_mouse(&cfg, WM_LBUTTONDOWN, 16, 4, 0, 610 * MS, 500);
    assert!(!e.ripples[2].double);
}

#[test]
fn slow_or_far_clicks_are_single() {
    let cfg = Config::default();
    let mut e = Effects::new((0, 0), 0);
    e.on_mouse(&cfg, WM_LBUTTONDOWN, 10, 10, 0, 0, 500);
    e.on_mouse(&cfg, WM_LBUTTONDOWN, 10, 10, 0, 501 * MS, 500);
    assert!(!e.ripples[1].double);
    e.on_mouse(&cfg, WM_LBUTTONDOWN, 17, 10, 0, 502 * MS, 500);
    assert!(!e.ripples[2].double);
    e.on_mouse(&cfg, WM_LBUTTONDOWN, i32::MIN, 10, 0, 503 * MS, 500);
    assert!(!e.ripples[3].double);
}

#[test]
fn buttons_held_and_the_drag_trail() {
    let cfg = Config::default();
    let mut e = Effects::new((0, 0), 0);
    e.on_mouse(&cfg, WM_MOUSEMOVE, 1, 1, 0, MS, 500);
    assert!(e.trail.is_empty());
    e.on_mouse(&cfg, WM_RBUTTONDOWN, 1, 1, 0, MS, 500);
    assert_eq!(e.ripples[0].color, cfg.right_color);
    e.on_mouse(&cfg, WM_MBUTTONDOWN, 1, 1, 0, MS, 500);
    assert_eq!(e.ripples[1].color, cfg.middle_color);
    assert_eq!(e.buttons_down, 2);
    e.on_mouse(&cfg, WM_MOUSEMOVE, 3, 4, 0, 2 * MS, 500);
    assert_eq!(e.trail.len(), 1);
    assert_eq!(e.cursor, (3, 4));
    e.on_mouse(&cfg, WM_RBUTTONUP, 3, 4, 0, 2 * MS, 500);
    e.on_mouse(&cfg, WM_RBUTTONUP, 3, 4, 0, 2 * MS, 500);
    e.on_mouse(&cfg, WM_RBUTTONUP, 3, 4, 0, 2 * MS, 500);
    assert_eq!(e.buttons_down, 0);
}

#[test]
fn moves_redraw_at_most_every_7ms() {
    let cfg = Config::default();
    let mut e = Effects::new((0, 0), 100 * MS);
    assert_eq!(e.on_mouse(&cfg, WM_MOUSEMOVE, 1, 1, 0, 106 * MS, 500), Redraw::Nothing);
    assert_eq!(e.on_mouse(&cfg, WM_MOUSEMOVE, 1, 1, 0, 107 * MS, 500), Redraw::HighlightAndSpot);
    assert_eq!(e.on_mouse(&cfg, WM_MOUSEMOVE, 1, 1, 0, 0, 500), Redraw::Nothing);
}

#[test]
fn wheel_direction() {
    let mut cfg = Config::default();
    let mut e = Effects::new((0, 0), 0);
    e.on_mouse(&cfg, WM_MOUSEWHEEL, 5, 5, 120 << 16, 0, 500);
    e.on_mouse(&cfg, WM_MOUSEWHEEL, 5, 5, (-120i16 as u16 as u32) << 16, 0, 500);
    assert!(e.scrolls[0].up);
    assert!(!e.scrolls[1].up);
    cfg.show_scroll = false;
    assert_eq!(e.on_mouse(&cfg, WM_MOUSEWHEEL, 5, 5, 120 << 16, 0, 500), Redraw::Nothing);
    assert_eq!(e.scrolls.len(), 2);
}

#[test]
fn off_and_on_again() {
    let cfg = Config::default();
    let mut e = Effects::new((0, 0), 0);
    e.on_mouse(&cfg, WM_LBUTTONDOWN, 1, 1, 0, 0, 500);
    e.keys.push(entry("x"));
    assert!(!e.toggle_enabled((9, 9)));
    assert!(e.ripples.is_empty() && e.keys.is_empty());
    assert_eq!(e.buttons_down, 0);
    assert_eq!(e.on_mouse(&cfg, WM_LBUTTONDOWN, 1, 1, 0, 0, 500), Redraw::Nothing);
    assert!(e.ripples.is_empty());
    assert!(e.toggle_enabled((7, 8)));
    assert_eq!(e.cursor, (7, 8));
}

#[test]
fn spotlight_actions() {
    assert_eq!(spot_action(true, false, true, (0, 0), (0, 0), false), SpotAction::Hide);
    assert_eq!(spot_action(false, true, false, (0, 0), (0, 0), false), SpotAction::Nothing);
    assert_eq!(spot_action(true, true, true, (1, 1), (1, 1), false), SpotAction::Nothing);
    assert_eq!(spot_action(true, true, true, (1, 1), (1, 1), true), SpotAction::Draw);
    assert_eq!(spot_action(true, true, true, (1, 2), (1, 1), false), SpotAction::Draw);
    assert_eq!(spot_action(true, true, false, (1, 1), (1, 1), false), SpotAction::Draw);
}
