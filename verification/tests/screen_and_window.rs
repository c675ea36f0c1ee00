use mousespot::layout::{
    clamp_pos, format_win_pos, key_window_pos, near_corner, parse_win_pos, pill_offsets, pill_size,
    pills_to_drop, row_height, row_total, Screen,
};
use mousespot::panel::{buttons_row, page_layout};
use mousespot::pixel::{blend, from_colorref, shade, to_colorref};
use mousespot::settings::{
    get_color, get_slider, is_check, is_check_id, is_color_id, key_pos_row, makelong, on_key_pos,
    on_slider, ID_KEY_FONT, ID_KEY_Y, ID_RING_A,
    set_check, set_color, set_slider, settings_command, toggle_spot, SettingsCommand,
    ID_COL_FILL, ID_COL_KEYTX, ID_HL_FILL_A, ID_HL_RADIUS, ID_KEY_GAP, ID_KEY_STACK, ID_KEY_X,
    ID_SPOT_DIM, ID_SPOT_ON, TB_THUMBTRACK,
};
use mousespot::window::{window_action, WindowAction};
use mousespot::config::Config;

const VS: Screen = Screen { left: -1920, top: 0, width: 3840, height: 1080 };

#[test]
fn blending() {
    let mut p = 0x1234_5678u32;
    blend(&mut p, 1, 2, 3, 0);
    assert_eq!(p, 0x1234_5678);
    blend(&mut p, 0xaa, 0xbb, 0xcc, 255);
    assert_eq!(p, 0xffaa_bbcc);
    let mut q = 0;
    blend(&mut q, 0xaa, 0xbb, 0xcc, 1000);
    assert_eq!(q, 0xffaa_bbcc);
    let mut h = 0;
    blend(&mut h, 255, 0, 0, 128);
    assert_eq!(h, 0x8080_0000);
    let mut w = 0xffff_ffff;
    blend(&mut w, 0, 0, 0, 128);
    assert_eq!(w, 0xff7f_7f7f);
}

#[test]
fn veil_and_dialog_colours() {
    assert_eq!(shade(160), 0xa000_0000);
    assert_eq!(to_colorref((1, 2, 3)), 0x0003_0201);
    assert_eq!(from_colorref(0x1203_0201), (1, 2, 3));
    assert_eq!(from_colorref(to_colorref((250, 0, 7))), (250, 0, 7));
}

#[test]
fn keeping_windows_on_screen() {
    assert_eq!(clamp_pos(100, 100, 200, 50, VS), (100, 100));
    assert_eq!(clamp_pos(-5000, -10, 200, 50, VS), (-1920, 0));
    assert_eq!(clamp_pos(5000, 5000, 200, 50, VS), (1720, 1030));
    assert_eq!(clamp_pos(5000, 5000, 9000, 9000, VS), (-1920, 0));
    assert_eq!(VS.bounds(), (-1920, 0, 1920, 1080));
}

#[test]
fn window_position_text() {
    assert_eq!(format_win_pos(-12, 340), "-12,340");
    assert_eq!(parse_win_pos(" 10 , -20 \n"), Some((10, -20)));
    assert_eq!(parse_win_pos(&format_win_pos(i32::MIN, i32::MAX)), Some((i32::MIN, i32::MAX)));
    assert_eq!(parse_win_pos("10;20"), None);
    assert_eq!(parse_win_pos("10,20,30"), None);
    assert_eq!(parse_win_pos("x,20"), None);
}

#[test]
fn key_row() {
    let ws = vec![100, 200, 300];
    assert_eq!(row_total(&ws, 8), 616);
    assert_eq!(pills_to_drop(&ws, 8, 1000), 0);
    assert_eq!(pills_to_drop(&ws, 8, 600), 1);
    assert_eq!(pills_to_drop(&ws, 8, 300), 2);
    assert_eq!(pills_to_drop(&ws, 8, 0), 2);
    assert_eq!(pill_offsets(&ws, 8), vec![0, 108, 316]);
    assert_eq!(row_height(&vec![10, 30, 20]), 30);
    assert_eq!(row_height(&vec![]), 0);
    assert_eq!(pill_size(50, 20, (22, 12)), (94, 44));
}

#[test]
fn key_window_places() {
    let (sw, sh, tw, th, m) = (1920, 1080, 200, 50, 90);
    assert_eq!(key_window_pos(0, sw, sh, tw, th, m, 0, 0, VS), (860, 940));
    assert_eq!(key_window_pos(1, sw, sh, tw, th, m, 0, 0, VS), (24, 940));
    assert_eq!(key_window_pos(2, sw, sh, tw, th, m, 0, 0, VS), (1696, 940));
    assert_eq!(key_window_pos(3, sw, sh, tw, th, m, 0, 0, VS), (860, 90));
    assert_eq!(key_window_pos(4, sw, sh, tw, th, m, 0, 0, VS), (24, 90));
    assert_eq!(key_window_pos(5, sw, sh, tw, th, m, 0, 0, VS), (1696, 90));
    assert_eq!(key_window_pos(6, sw, sh, tw, th, m, 0, 0, VS), (860, 515));
    assert_eq!(key_window_pos(7, sw, sh, tw, th, m, 5000, 10, VS), (1720, 10));
    assert_eq!(key_window_pos(99, sw, sh, tw, th, m, 0, 0, VS), (860, 940));
    assert_eq!(key_window_pos(0, 101, sh, 200, th, m, 0, 0, VS), (-49, 940));
}

#[test]
fn sliders() {
    let mut c = Config::default();
    assert_eq!(get_slider(&c, ID_HL_FILL_A), Some(55));
    assert_eq!(get_slider(&c, ID_HL_RADIUS), None);
    set_slider(&mut c, ID_KEY_GAP, -3);
    assert_eq!(get_slider(&c, ID_KEY_GAP), Some(-3));
    set_slider(&mut c, ID_SPOT_DIM, 300);
    assert_eq!(c.spotlight_dim, 44);
    set_slider(&mut c, ID_HL_FILL_A, -1);
    assert_eq!(c.highlight_fill, (255, 220, 40, 255));
    let before = format!("{:?}", c);
    set_slider(&mut c, 9999, 1);
    assert_eq!(format!("{:?}", c), before);
}

#[test]
fn colours_and_checks() {
    let mut c = Config::default();
    assert!(is_color_id(ID_COL_KEYTX) && !is_color_id(ID_KEY_X));
    set_color(&mut c, ID_COL_FILL, (1, 2, 3));
    assert_eq!(get_color(&c, ID_COL_FILL), (1, 2, 3, 55));
    assert_eq!(get_color(&c, 1), (0, 0, 0, 255));
    assert!(is_check_id(ID_SPOT_ON) && !is_check_id(ID_COL_FILL));
    set_check(&mut c, ID_KEY_STACK, false);
    assert!(!is_check(&c, ID_KEY_STACK));
    assert!(!is_check(&c, 1));
    toggle_spot(&mut c);
    assert!(c.spotlight_enabled);
}

#[test]
fn packing_slider_ranges() {
    assert_eq!(makelong(10, 120), 10 | (120 << 16));
    assert_eq!(makelong(-1, 0), 0xffff);
    assert_eq!(makelong(0, -1), 0xffff_0000);
}

#[test]
fn settings_commands() {
    assert_eq!(settings_command((1 << 16) | 2401), SettingsCommand::KeyPosChosen);
    assert_eq!(settings_command(2401), SettingsCommand::Other);
    assert_eq!(settings_command(2303), SettingsCommand::Close);
    assert_eq!(settings_command(2302), SettingsCommand::Reset);
    assert_eq!(settings_command(2105), SettingsCommand::Check(2105));
    assert_eq!(settings_command(2209), SettingsCommand::Color(2209));
    assert_eq!(settings_command(7), SettingsCommand::Other);
}

#[test]
fn slider_moves_preview_and_save() {
    let mut c = Config::default();
    let mut keys = Vec::new();
    let o = on_slider(&mut c, &mut keys, ID_KEY_X, 300, TB_THUMBTRACK as usize, "p".to_string(), 9);
    assert!(o.preview && !o.save && !o.pick_coords);
    assert_eq!((c.key_x, c.key_pos), (300, 7));
    assert_eq!(keys.len(), 1);
    let o = on_slider(&mut c, &mut keys, ID_KEY_GAP, 4, 0, "p".to_string(), 9);
    assert!(!o.preview && o.save && !o.pick_coords);
    // the notification is the low word; the high word holds the thumb position
    let o = on_slider(&mut c, &mut keys, ID_KEY_X, 40, 0x0028_0004, "p".to_string(), 9);
    assert!(o.preview && o.save && o.pick_coords);
    let o = on_slider(&mut c, &mut keys, ID_KEY_X, 40, 0x0028_0005, "p".to_string(), 9);
    assert!(o.preview && !o.save && !o.pick_coords);
    assert!(!on_key_pos(&mut c, &mut keys, -1, "p".to_string(), 1));
    assert!(on_key_pos(&mut c, &mut keys, 3, "p".to_string(), 1));
    assert_eq!(c.key_pos, 3);
}

#[test]
fn main_window_messages() {
    assert_eq!(window_action(0x113, 1, 0), WindowAction::Redraw);
    assert_eq!(window_action(0x312, 1, 0), WindowAction::ToggleHighlight);
    assert_eq!(window_action(0x312, 2, 0), WindowAction::ToggleSpot);
    assert_eq!(window_action(0x312, 3, 0), WindowAction::Nothing);
    assert_eq!(window_action(0x8001, 0, 0x205), WindowAction::TrayMenu);
    assert_eq!(window_action(0x8001, 0, 0x1_0202), WindowAction::TrayMenu);
    assert_eq!(window_action(0x8001, 0, 0x7b), WindowAction::TrayMenu);
    assert_eq!(window_action(0x8001, 0, 0x200), WindowAction::Nothing);
    assert_eq!(window_action(0x8001, 0, -1), WindowAction::Nothing);
    assert_eq!(window_action(0x111, 100, 0), WindowAction::ToggleHighlight);
    assert_eq!(window_action(0x111, 0x1_0065, 0), WindowAction::Exit);
    assert_eq!(window_action(0x111, 102, 0), WindowAction::OpenSettings);
    assert_eq!(window_action(0x111, 103, 0), WindowAction::ToggleSpot);
    assert_eq!(window_action(0x2, 0, 0), WindowAction::Quit);
    assert_eq!(window_action(0x10, 0, 0), WindowAction::Default);
}

#[test]
fn settings_pages() {
    let p0 = page_layout(0);
    assert_eq!(p0.sliders.len(), 11);
    assert_eq!(p0.sliders[0].y, 50);
    assert_eq!(p0.sliders[10].y, 390);
    assert_eq!(p0.key_pos_y, None);
    assert_eq!(p0.checks.len(), 3);
    assert_eq!(p0.checks[0].y, 428);
    assert_eq!(p0.colors.len(), 8);
    assert_eq!(p0.colors[0].y, 518);
    assert_eq!(p0.colors[1].y, 518);
    assert_eq!(p0.colors[7].y, 614);
    assert_eq!(p0.bottom, 646);
    let p1 = page_layout(1);
    assert_eq!(p1.sliders.len(), 5);
    assert_eq!(p1.sliders[0].entry.id, 2006);
    assert_eq!(p1.key_pos_y, Some(224));
    assert_eq!(p1.checks[0].y, 266);
    assert_eq!(p1.colors.len(), 2);
    assert_eq!(p1.bottom, 360);
    assert_eq!(buttons_row(p0.bottom, p1.bottom), 658);
}

#[test]
fn settings_window_opens_near_the_corner() {
    assert_eq!(near_corner(1920, 1040, 470, 700), Some((1442, 332)));
    assert_eq!(near_corner(-2147483640, 0, 10, 10), None);
    assert_eq!(near_corner(0, i32::MAX, -100, -100), None);
}

#[test]
fn key_position_list_row() {
    assert_eq!(key_pos_row(-3), 0);
    assert_eq!(key_pos_row(0), 0);
    assert_eq!(key_pos_row(7), 7);
}

#[test]
fn table_sliders_show_their_values_again() {
    let mut c = Config::default();
    for (id, lo, hi) in [
        (ID_HL_FILL_A, 0, 255),
        (ID_RING_A, 0, 255),
        (ID_SPOT_DIM, 0, 240),
        (ID_KEY_FONT, 16, 60),
        (ID_KEY_GAP, 0, 40),
        (ID_KEY_X, 0, 3840),
        (ID_KEY_Y, 0, 2160),
    ] {
        for v in [lo, (lo + hi) / 2, hi] {
            set_slider(&mut c, id, v);
            assert_eq!(get_slider(&c, id), Some(v));
        }
    }
}

#[test]
fn blend_keeps_pixels_premultiplied() {
    let alpha = |p: u32| (p >> 24) & 0xff;
    for start in [0u32, 0x8040_2010, 0xff00_ff00, 0x1010_1010] {
        for (r, g, b, a) in [(255u8, 255u8, 255u8, 1u16), (255, 0, 128, 128), (10, 20, 30, 300)] {
            let mut p = start;
            blend(&mut p, r, g, b, a);
            assert!(alpha(p) >= alpha(start));
            assert!(alpha(p) >= (a.min(255)) as u32);
            assert!((p >> 16) & 0xff <= alpha(p));
            assert!((p >> 8) & 0xff <= alpha(p));
            assert!(p & 0xff <= alpha(p));
        }
    }
}
