use mousespot::config::{parse_2i, parse_rgba, Config, FloatTexts, Key};

fn floats(text: &str) -> FloatTexts {
    FloatTexts {
        highlight_radius: text.to_string(),
        ring_thickness: text.to_string(),
        ripple_lifetime_ms: text.to_string(),
        ripple_start_r: text.to_string(),
        ripple_end_r: text.to_string(),
        ripple_thickness: text.to_string(),
        drag_dot_radius: text.to_string(),
        drag_lifetime_ms: text.to_string(),
        scroll_lifetime_ms: text.to_string(),
        spotlight_radius: text.to_string(),
        spotlight_feather: text.to_string(),
        key_lifetime_ms: text.to_string(),
        key_fade_ms: text.to_string(),
        key_radius: text.to_string(),
    }
}

fn same(a: &Config, b: &Config) -> bool {
    format!("{:?}", a) == format!("{:?}", b)
}

#[test]
fn default_settings() {
    let c = Config::default();
    assert_eq!(c.highlight_fill, (255, 220, 40, 55));
    assert_eq!(c.highlight_ring, (255, 210, 0, 150));
    assert_eq!(c.left_color, (255, 235, 80, 210));
    assert_eq!(c.right_color, (90, 200, 255, 210));
    assert_eq!(c.middle_color, (180, 120, 255, 210));
    assert_eq!(c.double_color, (120, 255, 140, 220));
    assert_eq!(c.scroll_color, (255, 255, 255, 220));
    assert_eq!(c.drag_color, (255, 200, 60, 160));
    assert!(c.show_scroll && c.show_drag && !c.spotlight_enabled);
    assert_eq!(c.spotlight_dim, 160);
    assert_eq!(c.key_font_px, 30);
    assert_eq!(c.key_bg, (20, 20, 24, 225));
    assert_eq!(c.key_text_color, (255, 255, 255, 255));
    assert_eq!(c.key_margin_bottom, 90);
    assert_eq!(c.key_padding, (22, 12));
    assert_eq!((c.key_pos, c.key_x, c.key_y), (0, 200, 200));
    assert!(c.show_all_keys && c.key_stack);
    assert_eq!(c.key_gap, 8);
    assert_eq!(c.key_max, 24);
}

#[test]
fn rgba_four_numbers() {
    assert_eq!(parse_rgba("255,220,40,55"), Some((255, 220, 40, 55)));
    assert_eq!(parse_rgba(" 1 , 2 ,3, 4 "), Some((1, 2, 3, 4)));
    assert_eq!(parse_rgba("+5,1,2,3"), Some((5, 1, 2, 3)));
}

#[test]
fn rgba_pieces_that_are_not_numbers_are_passed_over() {
    assert_eq!(parse_rgba("1,x,2,3,4"), Some((1, 2, 3, 4)));
    assert_eq!(parse_rgba("1,,2,3,4"), Some((1, 2, 3, 4)));
    assert_eq!(parse_rgba("256,1,2,3"), None);
    assert_eq!(parse_rgba("-1,1,2,3"), None);
}

#[test]
fn rgba_wrong_count() {
    assert_eq!(parse_rgba("1,2,3"), None);
    assert_eq!(parse_rgba("1,2,3,4,5"), None);
    assert_eq!(parse_rgba(""), None);
}

#[test]
fn pair_of_integers() {
    assert_eq!(parse_2i("22,12"), Some((22, 12)));
    assert_eq!(parse_2i("-3, 4"), Some((-3, 4)));
    assert_eq!(parse_2i("-2147483648,2147483647"), Some((i32::MIN, i32::MAX)));
    assert_eq!(parse_2i("2147483648,1"), None);
    assert_eq!(parse_2i("1"), None);
    assert_eq!(parse_2i("+,1,2"), Some((1, 2)));
}

#[test]
fn reading_a_settings_text() {
    let mut c = Config::default();
    let text = "# comment\n\
                \n\
                highlight_fill = 1,2,3,4\n\
                unknown = 5\n\
                no equals sign\n\
                key_x = -40\r\n\
                key_y = oops\n\
                spotlight_enabled = true\n\
                show_drag = yes\n\
                key_max = 3\n\
                spotlight_dim = 300\n\
                key_padding = 5, 6\n\
                  highlight_radius =  12.5  \n\
                key_fade_ms=9";
    let fl = c.apply_toml(text);
    assert_eq!(c.highlight_fill, (1, 2, 3, 4));
    assert_eq!(c.key_x, -40);
    assert_eq!(c.key_y, 200);
    assert!(c.spotlight_enabled);
    assert!(!c.show_drag);
    assert_eq!(c.key_max, 3);
    assert_eq!(c.spotlight_dim, 160);
    assert_eq!(c.key_padding, (5, 6));
    assert_eq!(fl.len(), 2);
    assert_eq!(fl[0].key, Key::HighlightRadius);
    assert_eq!(fl[0].value, "12.5");
    assert_eq!(fl[1].key, Key::KeyFadeMs);
    assert_eq!(fl[1].value, "9");
}

#[test]
fn later_lines_win() {
    let mut c = Config::default();
    let fl = c.apply_toml("key_gap = 1\nkey_gap = 2\nkey_gap = x\n");
    assert_eq!(c.key_gap, 2);
    assert!(fl.is_empty());
}

#[test]
fn saved_text() {
    let c = Config::default();
    let t = c.to_toml(&floats("1"));
    assert!(t.starts_with("# MouseSpot config\nhighlight_radius = 1\nhighlight_fill = 255,220,40,55\n"));
    assert!(t.contains("\nshow_scroll = true\n"));
    assert!(t.contains("\nspotlight_enabled = false\n"));
    assert!(t.contains("\nkey_padding = 22,12\n"));
    assert!(t.ends_with("key_gap = 8\nkey_max = 24\n"));
    assert_eq!(t.lines().count(), 39);
}

#[test]
fn load_after_save_gives_back_the_settings() {
    let mut c = Config::default();
    c.highlight_fill = (0, 1, 2, 3);
    c.key_x = i32::MIN;
    c.key_y = -7;
    c.key_max = usize::MAX;
    c.key_stack = false;
    c.spotlight_dim = 0;
    c.key_padding = (-1, i32::MAX);
    let text = c.to_toml(&floats("2.5"));
    let mut d = Config::default();
    d.key_gap = 99;
    let fl = d.apply_toml(&text);
    assert!(same(&c, &d));
    assert_eq!(fl.len(), 14);
    assert!(fl.iter().all(|f| f.value == "2.5"));
    assert_eq!(fl[0].key, Key::HighlightRadius);
    assert_eq!(fl[13].key, Key::KeyRadius);
}

#[test]
fn later_lines_override_earlier_ones() {
    let s1 = "key_pos = 3\nkey_gap = 4\nspotlight_dim = 10\nhighlight_radius = 9";
    let s2 = "key_gap = 12\nkey_x = 77\nspotlight_dim = oops\nkey_radius = 2";
    let mut joined = Config::default();
    let fj = joined.apply_toml(&format!("{}\n{}", s1, s2));
    let mut stepwise = Config::default();
    let f1 = stepwise.apply_toml(s1);
    let f2 = stepwise.apply_toml(s2);
    assert!(same(&joined, &stepwise));
    assert_eq!((joined.key_pos, joined.key_gap, joined.key_x, joined.spotlight_dim), (3, 12, 77, 10));
    let keys: Vec<Key> = fj.iter().map(|f| f.key).collect();
    let steps: Vec<Key> = f1.iter().chain(f2.iter()).map(|f| f.key).collect();
    assert_eq!(keys, steps);
    assert_eq!(keys, vec![Key::HighlightRadius, Key::KeyRadius]);
}

#[test]
fn applying_a_text_twice_is_applying_it_once() {
    let s = "key_pos = 5\nkey_pos = 2\nshow_drag = false\nkey_padding = 3, 4\nkey_bg = 1,2,3";
    let mut once = Config::default();
    once.apply_toml(s);
    let mut twice = once;
    twice.apply_toml(s);
    assert!(same(&once, &twice));
    assert_eq!(once.key_pos, 2);
    assert_eq!(once.key_padding, (3, 4));
}
