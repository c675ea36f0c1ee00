//! The settings window: its controls, what each reads and changes in the
//! settings, and what its messages ask for.
use vstd::prelude::*;

use crate::config::{Config, Rgba};
use crate::keys::KeyEntry;

verus! {

pub const ID_HL_RADIUS: i32 = 2001;

pub const ID_HL_FILL_A: i32 = 2002;

pub const ID_RING_A: i32 = 2003;

pub const ID_RIPPLE_R: i32 = 2004;

pub const ID_RIPPLE_MS: i32 = 2005;

pub const ID_KEY_FONT: i32 = 2006;

pub const ID_KEY_MS: i32 = 2007;

pub const ID_KEY_GAP: i32 = 2008;

pub const ID_DRAG_R: i32 = 2009;

pub const ID_DRAG_MS: i32 = 2010;

pub const ID_SCROLL_MS: i32 = 2011;

pub const ID_KEY_X: i32 = 2012;

pub const ID_KEY_Y: i32 = 2013;

pub const ID_SPOT_RADIUS: i32 = 2014;

pub const ID_SPOT_DIM: i32 = 2015;

pub const ID_SPOT_FEATHER: i32 = 2016;

pub const ID_KEY_POS: i32 = 2401;

pub const ID_KEY_STACK: i32 = 2101;

pub const ID_SHOW_ALL: i32 = 2102;

pub const ID_SHOW_DRAG: i32 = 2103;

pub const ID_SHOW_SCROLL: i32 = 2104;

pub const ID_SPOT_ON: i32 = 2105;

pub const ID_COL_FILL: i32 = 2201;

pub const ID_COL_RING: i32 = 2202;

pub const ID_COL_LEFT: i32 = 2203;

pub const ID_COL_RIGHT: i32 = 2204;

pub const ID_COL_MIDDLE: i32 = 2207;

pub const ID_COL_DOUBLE: i32 = 2208;

pub const ID_COL_SCROLL: i32 = 2209;

pub const ID_COL_DRAG: i32 = 2210;

pub const ID_COL_KEYBG: i32 = 2205;

pub const ID_COL_KEYTX: i32 = 2206;

pub const ID_RESET: i32 = 2302;

pub const ID_CLOSE: i32 = 2303;

pub const ID_TAB: i32 = 2500;

/// The control showing a slider's value has the slider's id plus this.
pub const VAL_OFFSET: i32 = 0x4000;

/// The key-position choice that places the key strokes at given coordinates.
pub const KEY_POS_AT: i32 = 7;

/// Notification of a slider being dragged (the value is not saved meanwhile).
pub const TB_THUMBTRACK: u32 = 5;

/// Notification of a new choice in a drop-down list.
pub const CBN_SELCHANGE: u32 = 1;

// ------------------------------------------------------------------
// Sliders
// ------------------------------------------------------------------

/// A slider that sets a setting held as an integer.
pub open spec fn int_slider(id: i32) -> bool {
    id == ID_HL_FILL_A || id == ID_RING_A || id == ID_KEY_FONT || id == ID_KEY_GAP || id
        == ID_KEY_X || id == ID_KEY_Y || id == ID_SPOT_DIM
}

/// The value an integer slider shows.
pub open spec fn slider_value(cfg: Config, id: i32) -> Option<i32> {
    if id == ID_HL_FILL_A {
        Some(cfg.highlight_fill.3 as i32)
    } else if id == ID_RING_A {
        Some(cfg.highlight_ring.3 as i32)
    } else if id == ID_KEY_FONT {
        Some(cfg.key_font_px)
    } else if id == ID_KEY_GAP {
        Some(cfg.key_gap)
    } else if id == ID_KEY_X {
        Some(cfg.key_x)
    } else if id == ID_KEY_Y {
        Some(cfg.key_y)
    } else if id == ID_SPOT_DIM {
        Some(cfg.spotlight_dim as i32)
    } else {
        None
    }
}

/// The value the slider `id` shows, for the sliders of settings held as
/// integers; `None` for the others.
pub fn get_slider(cfg: &Config, id: i32) -> (r: Option<i32>)
    ensures
        r == slider_value(*cfg, id),
{
    if id == ID_HL_FILL_A {
        Some(cfg.highlight_fill.3 as i32)
    } else if id == ID_RING_A {
        Some(cfg.highlight_ring.3 as i32)
    } else if id == ID_KEY_FONT {
        Some(cfg.key_font_px)
    } else if id == ID_KEY_GAP {
        Some(cfg.key_gap)
    } else if id == ID_KEY_X {
        Some(cfg.key_x)
    } else if id == ID_KEY_Y {
        Some(cfg.key_y)
    } else if id == ID_SPOT_DIM {
        Some(cfg.spotlight_dim as i32)
    } else {
        None
    }
}

/// The low byte of `v`, as `v as u8` keeps it.
pub open spec fn low_byte(v: i32) -> u8 {
    (v as int % 256) as u8
}

/// `v` modulo `m`, as a value in `0..m`.
fn mod_euclid(v: i32, m: i64) -> (r: i64)
    requires
        2 <= m <= 0x1_0000,
    ensures
        r == v as int % m as int,
        0 <= r < m,
{
    if v >= 0 {
        (v as i64) % m
    } else {
        let n = -(v as i64);
        let k = n % m;
        proof {
            lemma_neg_mod(v as int, m as int, k as int);
        }
        if k == 0 {
            0
        } else {
            m - k
        }
    }
}

pub proof fn lemma_neg_mod(v: int, m: int, k: int)
    requires
        v < 0,
        m >= 2,
        k == (-v) % m,
    ensures
        v % m == if k == 0 {
            0
        } else {
            m - k
        },
{
    let q = (-v) / m;
    assert(-v == q * m + k) by (nonlinear_arith)
        requires
            m >= 2,
            k == (-v) % m,
            q == (-v) / m,
    ;
    assert(0 <= k < m) by (nonlinear_arith)
        requires
            m >= 2,
            k == (-v) % m,
    ;
    if k == 0 {
        assert(v == (-q) * m) by (nonlinear_arith)
            requires
                -v == q * m + k,
                k == 0,
        ;
        assert(v % m == 0) by (nonlinear_arith)
            requires
                v == (-q) * m,
                m >= 2,
        ;
    } else {
        assert(v == (-q - 1) * m + (m - k)) by (nonlinear_arith)
            requires
                -v == q * m + k,
        ;
        assert(v % m == m - k) by (nonlinear_arith)
            requires
                v == (-q - 1) * m + (m - k),
                0 < m - k < m,
        ;
    }
}

fn low_byte_exec(v: i32) -> (r: u8)
    ensures
        r == low_byte(v),
{
    mod_euclid(v, 256) as u8
}

/// The settings after the integer slider `id` is moved to `v`; other sliders
/// leave them as they are. Alphas and the dimming keep the low byte of `v`.
pub open spec fn with_slider(cfg: Config, id: i32, v: i32) -> Config {
    if id == ID_HL_FILL_A {
        Config {
            highlight_fill: (
                cfg.highlight_fill.0,
                cfg.highlight_fill.1,
                cfg.highlight_fill.2,
                low_byte(v),
            ),
            ..cfg
        }
    } else if id == ID_RING_A {
        Config {
            highlight_ring: (
                cfg.highlight_ring.0,
                cfg.highlight_ring.1,
                cfg.highlight_ring.2,
                low_byte(v),
            ),
            ..cfg
        }
    } else if id == ID_KEY_FONT {
        Config { key_font_px: v, ..cfg }
    } else if id == ID_KEY_GAP {
        Config { key_gap: v, ..cfg }
    } else if id == ID_KEY_X {
        Config { key_x: v, ..cfg }
    } else if id == ID_KEY_Y {
        Config { key_y: v, ..cfg }
    } else if id == ID_SPOT_DIM {
        Config { spotlight_dim: low_byte(v), ..cfg }
    } else {
        cfg
    }
}

/// Moves the slider `id` to `v`, for the sliders of settings held as integers.
pub fn set_slider(cfg: &mut Config, id: i32, v: i32)
    ensures
        *final(cfg) == with_slider(*old(cfg), id, v),
{
    if id == ID_HL_FILL_A {
        cfg.highlight_fill.3 = low_byte_exec(v);
    } else if id == ID_RING_A {
        cfg.highlight_ring.3 = low_byte_exec(v);
    } else if id == ID_KEY_FONT {
        cfg.key_font_px = v;
    } else if id == ID_KEY_GAP {
        cfg.key_gap = v;
    } else if id == ID_KEY_X {
        cfg.key_x = v;
    } else if id == ID_KEY_Y {
        cfg.key_y = v;
    } else if id == ID_SPOT_DIM {
        cfg.spotlight_dim = low_byte_exec(v);
    }
}

/// An integer slider shows the value it was moved to, when that value fits the setting.
pub proof fn lemma_slider_round_trip(cfg: Config, id: i32, v: i32)
    requires
        int_slider(id),
        (id == ID_HL_FILL_A || id == ID_RING_A || id == ID_SPOT_DIM) ==> 0 <= v <= 255,
    ensures
        slider_value(with_slider(cfg, id, v), id) == Some(v),
{
}

/// Each integer slider shows its own setting: the highlight fill's opacity,
/// the ring's opacity (the alpha byte of each colour), the key font size, the
/// gap between keys, the row's X and Y and the spotlight's dimming. Moving it
/// to `v` sets that setting alone, to `v` or, for the byte settings, to the
/// low byte of `v`; the colours' red, green and blue stay as they were.
pub proof fn lemma_slider_fields(cfg: Config, v: i32)
    ensures
        slider_value(cfg, ID_HL_FILL_A) == Some(cfg.highlight_fill.3 as i32),
        slider_value(cfg, ID_RING_A) == Some(cfg.highlight_ring.3 as i32),
        slider_value(cfg, ID_KEY_FONT) == Some(cfg.key_font_px),
        slider_value(cfg, ID_KEY_GAP) == Some(cfg.key_gap),
        slider_value(cfg, ID_KEY_X) == Some(cfg.key_x),
        slider_value(cfg, ID_KEY_Y) == Some(cfg.key_y),
        slider_value(cfg, ID_SPOT_DIM) == Some(cfg.spotlight_dim as i32),
        with_slider(cfg, ID_HL_FILL_A, v) == (Config {
            highlight_fill: (
                cfg.highlight_fill.0,
                cfg.highlight_fill.1,
                cfg.highlight_fill.2,
                (v as int % 256) as u8,
            ),
            ..cfg
        }),
        with_slider(cfg, ID_RING_A, v) == (Config {
            highlight_ring: (
                cfg.highlight_ring.0,
                cfg.highlight_ring.1,
                cfg.highlight_ring.2,
                (v as int % 256) as u8,
            ),
            ..cfg
        }),
        with_slider(cfg, ID_KEY_FONT, v) == (Config { key_font_px: v, ..cfg }),
        with_slider(cfg, ID_KEY_GAP, v) == (Config { key_gap: v, ..cfg }),
        with_slider(cfg, ID_KEY_X, v) == (Config { key_x: v, ..cfg }),
        with_slider(cfg, ID_KEY_Y, v) == (Config { key_y: v, ..cfg }),
        with_slider(cfg, ID_SPOT_DIM, v) == (Config {
            spotlight_dim: (v as int % 256) as u8,
            ..cfg
        }),
        0 <= v <= 255 ==> with_slider(cfg, ID_RING_A, v).highlight_ring == (
            cfg.highlight_ring.0,
            cfg.highlight_ring.1,
            cfg.highlight_ring.2,
            v as u8,
        ),
{
}

/// Moving a slider leaves the other sliders' values as they were.
pub proof fn lemma_slider_others(cfg: Config, id: i32, other: i32, v: i32)
    requires
        id != other,
    ensures
        slider_value(with_slider(cfg, id, v), other) == slider_value(cfg, other),
{
}

// ------------------------------------------------------------------
// Colours
// ------------------------------------------------------------------

/// The colour buttons.
pub open spec fn color_id(id: i32) -> bool {
    id == ID_COL_FILL || id == ID_COL_RING || id == ID_COL_LEFT || id == ID_COL_RIGHT || id
        == ID_COL_MIDDLE || id == ID_COL_DOUBLE || id == ID_COL_SCROLL || id == ID_COL_DRAG || id
        == ID_COL_KEYBG || id == ID_COL_KEYTX
}

/// Whether `id` is a colour button.
pub fn is_color_id(id: i32) -> (r: bool)
    ensures
        r == color_id(id),
{
    id == ID_COL_FILL || id == ID_COL_RING || id == ID_COL_LEFT || id == ID_COL_RIGHT || id
        == ID_COL_MIDDLE || id == ID_COL_DOUBLE || id == ID_COL_SCROLL || id == ID_COL_DRAG || id
        == ID_COL_KEYBG || id == ID_COL_KEYTX
}

/// The colour the button `id` chooses; opaque black for any other id.
pub open spec fn color_of(cfg: Config, id: i32) -> Rgba {
    if id == ID_COL_FILL {
        cfg.highlight_fill
    } else if id == ID_COL_RING {
        cfg.highlight_ring
    } else if id == ID_COL_LEFT {
        cfg.left_color
    } else if id == ID_COL_RIGHT {
        cfg.right_color
    } else if id == ID_COL_MIDDLE {
        cfg.middle_color
    } else if id == ID_COL_DOUBLE {
        cfg.double_color
    } else if id == ID_COL_SCROLL {
        cfg.scroll_color
    } else if id == ID_COL_DRAG {
        cfg.drag_color
    } else if id == ID_COL_KEYBG {
        cfg.key_bg
    } else if id == ID_COL_KEYTX {
        cfg.key_text_color
    } else {
        (0, 0, 0, 255)
    }
}

pub fn get_color(cfg: &Config, id: i32) -> (r: Rgba)
    ensures
        r == color_of(*cfg, id),
{
    if id == ID_COL_FILL {
        cfg.highlight_fill
    } else if id == ID_COL_RING {
        cfg.highlight_ring
    } else if id == ID_COL_LEFT {
        cfg.left_color
    } else if id == ID_COL_RIGHT {
        cfg.right_color
    } else if id == ID_COL_MIDDLE {
        cfg.middle_color
    } else if id == ID_COL_DOUBLE {
        cfg.double_color
    } else if id == ID_COL_SCROLL {
        cfg.scroll_color
    } else if id == ID_COL_DRAG {
        cfg.drag_color
    } else if id == ID_COL_KEYBG {
        cfg.key_bg
    } else if id == ID_COL_KEYTX {
        cfg.key_text_color
    } else {
        (0, 0, 0, 255)
    }
}

/// `c` with its red, green and blue from `rgb`, its alpha kept.
pub open spec fn recolor(c: Rgba, rgb: (u8, u8, u8)) -> Rgba {
    (rgb.0, rgb.1, rgb.2, c.3)
}

/// The settings after the colour of the button `id` is chosen as `rgb`; the
/// colour keeps its alpha, and other ids leave the settings as they are.
pub open spec fn with_color(cfg: Config, id: i32, rgb: (u8, u8, u8)) -> Config {
    if id == ID_COL_FILL {
        Config { highlight_fill: recolor(cfg.highlight_fill, rgb), ..cfg }
    } else if id == ID_COL_RING {
        Config { highlight_ring: recolor(cfg.highlight_ring, rgb), ..cfg }
    } else if id == ID_COL_LEFT {
        Config { left_color: recolor(cfg.left_color, rgb), ..cfg }
    } else if id == ID_COL_RIGHT {
        Config { right_color: recolor(cfg.right_color, rgb), ..cfg }
    } else if id == ID_COL_MIDDLE {
        Config { middle_color: recolor(cfg.middle_color, rgb), ..cfg }
    } else if id == ID_COL_DOUBLE {
        Config { double_color: recolor(cfg.double_color, rgb), ..cfg }
    } else if id == ID_COL_SCROLL {
        Config { scroll_color: recolor(cfg.scroll_color, rgb), ..cfg }
    } else if id == ID_COL_DRAG {
        Config { drag_color: recolor(cfg.drag_color, rgb), ..cfg }
    } else if id == ID_COL_KEYBG {
        Config { key_bg: recolor(cfg.key_bg, rgb), ..cfg }
    } else if id == ID_COL_KEYTX {
        Config { key_text_color: recolor(cfg.key_text_color, rgb), ..cfg }
    } else {
        cfg
    }
}

pub fn set_color(cfg: &mut Config, id: i32, rgb: (u8, u8, u8))
    ensures
        *final(cfg) == with_color(*old(cfg), id, rgb),
{
    let (r, g, b) = rgb;
    if id == ID_COL_FILL {
        cfg.highlight_fill = (r, g, b, cfg.highlight_fill.3);
    } else if id == ID_COL_RING {
        cfg.highlight_ring = (r, g, b, cfg.highlight_ring.3);
    } else if id == ID_COL_LEFT {
        cfg.left_color = (r, g, b, cfg.left_color.3);
    } else if id == ID_COL_RIGHT {
        cfg.right_color = (r, g, b, cfg.right_color.3);
    } else if id == ID_COL_MIDDLE {
        cfg.middle_color = (r, g, b, cfg.middle_color.3);
    } else if id == ID_COL_DOUBLE {
        cfg.double_color = (r, g, b, cfg.double_color.3);
    } else if id == ID_COL_SCROLL {
        cfg.scroll_color = (r, g, b, cfg.scroll_color.3);
    } else if id == ID_COL_DRAG {
        cfg.drag_color = (r, g, b, cfg.drag_color.3);
    } else if id == ID_COL_KEYBG {
        cfg.key_bg = (r, g, b, cfg.key_bg.3);
    } else if id == ID_COL_KEYTX {
        cfg.key_text_color = (r, g, b, cfg.key_text_color.3);
    }
}

/// A chosen colour is the button's colour afterwards, with the alpha it had.
pub proof fn lemma_color_round_trip(cfg: Config, id: i32, rgb: (u8, u8, u8))
    requires
        color_id(id),
    ensures
        color_of(with_color(cfg, id, rgb), id) == recolor(color_of(cfg, id), rgb),
{
}

/// Choosing a colour for one button leaves the other buttons' colours as they were.
pub proof fn lemma_color_others(cfg: Config, id: i32, other: i32, rgb: (u8, u8, u8))
    requires
        id != other,
    ensures
        color_of(with_color(cfg, id, rgb), other) == color_of(cfg, other),
{
}

// ------------------------------------------------------------------
// Check boxes
// ------------------------------------------------------------------

/// The checkboxes.
pub open spec fn check_id(id: i32) -> bool {
    id == ID_SHOW_DRAG || id == ID_SHOW_SCROLL || id == ID_SPOT_ON || id == ID_KEY_STACK || id
        == ID_SHOW_ALL
}

pub fn is_check_id(id: i32) -> (r: bool)
    ensures
        r == check_id(id),
{
    id == ID_SHOW_DRAG || id == ID_SHOW_SCROLL || id == ID_SPOT_ON || id == ID_KEY_STACK || id
        == ID_SHOW_ALL
}

/// Whether the checkbox `id` is ticked; false for any other id.
pub open spec fn checked(cfg: Config, id: i32) -> bool {
    if id == ID_KEY_STACK {
        cfg.key_stack
    } else if id == ID_SHOW_ALL {
        cfg.show_all_keys
    } else if id == ID_SHOW_DRAG {
        cfg.show_drag
    } else if id == ID_SHOW_SCROLL {
        cfg.show_scroll
    } else if id == ID_SPOT_ON {
        cfg.spotlight_enabled
    } else {
        false
    }
}

pub fn is_check(cfg: &Config, id: i32) -> (r: bool)
    ensures
        r == checked(*cfg, id),
{
    if id == ID_KEY_STACK {
        cfg.key_stack
    } else if id == ID_SHOW_ALL {
        cfg.show_all_keys
    } else if id == ID_SHOW_DRAG {
        cfg.show_drag
    } else if id == ID_SHOW_SCROLL {
        cfg.show_scroll
    } else if id == ID_SPOT_ON {
        cfg.spotlight_enabled
    } else {
        false
    }
}

/// The settings after the checkbox `id` is set to `v`; other ids leave them as they are.
pub open spec fn with_check(cfg: Config, id: i32, v: bool) -> Config {
    if id == ID_KEY_STACK {
        Config { key_stack: v, ..cfg }
    } else if id == ID_SHOW_ALL {
        Config { show_all_keys: v, ..cfg }
    } else if id == ID_SHOW_DRAG {
        Config { show_drag: v, ..cfg }
    } else if id == ID_SHOW_SCROLL {
        Config { show_scroll: v, ..cfg }
    } else if id == ID_SPOT_ON {
        Config { spotlight_enabled: v, ..cfg }
    } else {
        cfg
    }
}

pub fn set_check(cfg: &mut Config, id: i32, v: bool)
    ensures
        *final(cfg) == with_check(*old(cfg), id, v),
{
    if id == ID_KEY_STACK {
        cfg.key_stack = v;
    } else if id == ID_SHOW_ALL {
        cfg.show_all_keys = v;
    } else if id == ID_SHOW_DRAG {
        cfg.show_drag = v;
    } else if id == ID_SHOW_SCROLL {
        cfg.show_scroll = v;
    } else if id == ID_SPOT_ON {
        cfg.spotlight_enabled = v;
    }
}

/// A checkbox shows what it was set to, and the others keep theirs.
pub proof fn lemma_check_round_trip(cfg: Config, id: i32, other: i32, v: bool)
    requires
        check_id(id),
    ensures
        checked(with_check(cfg, id, v), id) == v,
        other != id ==> checked(with_check(cfg, id, v), other) == checked(cfg, other),
{
}

/// Turns the spotlight off or on.
pub fn toggle_spot(cfg: &mut Config)
    ensures
        *final(cfg) == with_check(*old(cfg), ID_SPOT_ON, !old(cfg).spotlight_enabled),
{
    let on = !cfg.spotlight_enabled;
    set_check(cfg, ID_SPOT_ON, on);
}

// ------------------------------------------------------------------
// Messages
// ------------------------------------------------------------------

/// The low 16 bits of `v`.
pub open spec fn low_word(v: usize) -> int {
    v as int % 0x1_0000
}

/// Bits 16 to 31 of `v`.
pub open spec fn high_word(v: usize) -> int {
    (v as int / 0x1_0000) % 0x1_0000
}

/// `lo` and `hi`, each cut to 16 bits, packed into one value as
/// `lo | (hi << 16)`.
pub open spec fn long_of(lo: i32, hi: i32) -> int {
    (lo as int % 0x1_0000) + (hi as int % 0x1_0000) * 0x1_0000
}

fn word_of(v: i32) -> (r: u32)
    ensures
        r == v as int % 0x1_0000,
{
    mod_euclid(v, 0x1_0000) as u32
}

/// The range of a slider, `min` in the low word and `max` in the high word.
pub fn makelong(lo: i32, hi: i32) -> (r: u32)
    ensures
        r == long_of(lo, hi),
{
    word_of(lo) + word_of(hi) * 0x1_0000
}

/// What a command to the settings window asks for.
#[derive(Clone, Copy, Debug, PartialEq, Eq, Structural)]
pub enum SettingsCommand {
    /// A new key position was chosen in the list.
    KeyPosChosen,
    Close,
    /// Back to the default settings.
    Reset,
    /// The checkbox with this id was clicked.
    Check(i32),
    /// The colour button with this id was clicked.
    Color(i32),
    Other,
}

/// The command that a command message with word parameter `wparam` carries:
/// the control's id in the low word, the notification in the high word.
pub open spec fn settings_command_of(wparam: usize) -> SettingsCommand {
    let id = low_word(wparam);
    let code = high_word(wparam);
    if id == ID_KEY_POS && code == CBN_SELCHANGE {
        SettingsCommand::KeyPosChosen
    } else if id == ID_CLOSE {
        SettingsCommand::Close
    } else if id == ID_RESET {
        SettingsCommand::Reset
    } else if check_id(id as i32) {
        SettingsCommand::Check(id as i32)
    } else if color_id(id as i32) {
        SettingsCommand::Color(id as i32)
    } else {
        SettingsCommand::Other
    }
}

pub fn settings_command(wparam: usize) -> (r: SettingsCommand)
    ensures
        r == settings_command_of(wparam),
{
    let w = wparam as u64;
    let id = (w % 0x1_0000) as i32;
    let code = ((w / 0x1_0000) % 0x1_0000) as u32;
    if id == ID_KEY_POS && code == CBN_SELCHANGE {
        SettingsCommand::KeyPosChosen
    } else if id == ID_CLOSE {
        SettingsCommand::Close
    } else if id == ID_RESET {
        SettingsCommand::Reset
    } else if is_check_id(id) {
        SettingsCommand::Check(id)
    } else if is_color_id(id) {
        SettingsCommand::Color(id)
    } else {
        SettingsCommand::Other
    }
}

/// What follows a slider move.
#[derive(Clone, Copy, Debug)]
pub struct SliderOutcome {
    /// The key-stroke row is to be drawn again to preview the new position.
    pub preview: bool,
    /// The settings are to be saved.
    pub save: bool,
    /// The list of key positions is to show the choice "at the coordinates".
    pub pick_coords: bool,
}

/// The single entry of the key-stroke row that previews where the row goes.
pub open spec fn preview_entry(text: String, now: u64) -> KeyEntry {
    KeyEntry { text, shown_at: now, mask: None }
}

/// The settings with the key strokes placed by choice `p`.
pub open spec fn with_key_pos(cfg: Config, p: i32) -> Config {
    Config { key_pos: p, ..cfg }
}

/// The slider `id` moved to `pos` by a scroll message with word parameter
/// `wparam`, whose low word is the notification: the integer settings take
/// the value; moving the X or Y slider switches the key strokes to their
/// given coordinates and puts the single entry `preview` in the row to show
/// where it goes; the settings are saved, and the list of key positions shows
/// the new choice, unless the slider is being dragged.
pub fn on_slider(
    cfg: &mut Config,
    keys: &mut Vec<KeyEntry>,
    id: i32,
    pos: i32,
    wparam: usize,
    preview: String,
    now: u64,
) -> (r: SliderOutcome)
    ensures
        r.preview == (id == ID_KEY_X || id == ID_KEY_Y),
        r.save == (low_word(wparam) != TB_THUMBTRACK),
        r.pick_coords == (r.preview && r.save),
        r.preview ==> *final(cfg) == with_key_pos(with_slider(*old(cfg), id, pos), KEY_POS_AT)
            && final(keys)@ == seq![preview_entry(preview, now)],
        !r.preview ==> *final(cfg) == with_slider(*old(cfg), id, pos) && final(keys)@ == old(
            keys,
        )@,
{
    let code = (wparam as u64 % 0x1_0000) as u32;
    set_slider(cfg, id, pos);
    let p = id == ID_KEY_X || id == ID_KEY_Y;
    if p {
        cfg.key_pos = KEY_POS_AT;
        keys.clear();
        keys.push(KeyEntry { text: preview, shown_at: now, mask: None });
        assert(keys@ =~= seq![KeyEntry { text: preview, shown_at: now, mask: None }]);
    }
    let save = code != TB_THUMBTRACK;
    SliderOutcome { preview: p, save, pick_coords: p && save }
}

/// The row of the list of key positions that shows the choice `key_pos`
/// (the first row for a negative one).
pub fn key_pos_row(key_pos: i32) -> (r: usize)
    ensures
        r == if key_pos < 0 {
            0
        } else {
            key_pos as int
        },
{
    if key_pos < 0 {
        0
    } else {
        key_pos as usize
    }
}

/// A new key position `sel` chosen in the list (negative when none is): the
/// position is taken and the single entry `preview` put in the row to show
/// where it goes. Answers whether it was taken, when the settings are saved
/// and the row drawn again.
pub fn on_key_pos(
    cfg: &mut Config,
    keys: &mut Vec<KeyEntry>,
    sel: i32,
    preview: String,
    now: u64,
) -> (taken: bool)
    ensures
        taken == (sel >= 0),
        taken ==> *final(cfg) == with_key_pos(*old(cfg), sel) && final(keys)@ == seq![
            preview_entry(preview, now),
        ],
        !taken ==> *final(cfg) == *old(cfg) && final(keys)@ == old(keys)@,
{
    if sel < 0 {
        return false;
    }
    cfg.key_pos = sel;
    keys.clear();
    keys.push(KeyEntry { text: preview, shown_at: now, mask: None });
    assert(keys@ =~= seq![KeyEntry { text: preview, shown_at: now, mask: None }]);
    true
}

/// Each colour button shows and chooses its own colour: the highlight's fill
/// and ring, the left, right, middle and double click ripples, the scroll
/// hints, the drag trail, and the key row's background and text. Choosing
/// `rgb` sets that colour's red, green and blue and keeps its alpha.
pub proof fn lemma_color_fields(cfg: Config, rgb: (u8, u8, u8))
    ensures
        color_of(cfg, ID_COL_FILL) == cfg.highlight_fill,
        color_of(cfg, ID_COL_RING) == cfg.highlight_ring,
        color_of(cfg, ID_COL_LEFT) == cfg.left_color,
        color_of(cfg, ID_COL_RIGHT) == cfg.right_color,
        color_of(cfg, ID_COL_MIDDLE) == cfg.middle_color,
        color_of(cfg, ID_COL_DOUBLE) == cfg.double_color,
        color_of(cfg, ID_COL_SCROLL) == cfg.scroll_color,
        color_of(cfg, ID_COL_DRAG) == cfg.drag_color,
        color_of(cfg, ID_COL_KEYBG) == cfg.key_bg,
        color_of(cfg, ID_COL_KEYTX) == cfg.key_text_color,
        with_color(cfg, ID_COL_FILL, rgb) == (Config {
            highlight_fill: (rgb.0, rgb.1, rgb.2, cfg.highlight_fill.3),
            ..cfg
        }),
        with_color(cfg, ID_COL_RING, rgb) == (Config {
            highlight_ring: (rgb.0, rgb.1, rgb.2, cfg.highlight_ring.3),
            ..cfg
        }),
        with_color(cfg, ID_COL_LEFT, rgb) == (Config {
            left_color: (rgb.0, rgb.1, rgb.2, cfg.left_color.3),
            ..cfg
        }),
        with_color(cfg, ID_COL_RIGHT, rgb) == (Config {
            right_color: (rgb.0, rgb.1, rgb.2, cfg.right_color.3),
            ..cfg
        }),
        with_color(cfg, ID_COL_MIDDLE, rgb) == (Config {
            middle_color: (rgb.0, rgb.1, rgb.2, cfg.middle_color.3),
            ..cfg
        }),
        with_color(cfg, ID_COL_DOUBLE, rgb) == (Config {
            double_color: (rgb.0, rgb.1, rgb.2, cfg.double_color.3),
            ..cfg
        }),
        with_color(cfg, ID_COL_SCROLL, rgb) == (Config {
            scroll_color: (rgb.0, rgb.1, rgb.2, cfg.scroll_color.3),
            ..cfg
        }),
        with_color(cfg, ID_COL_DRAG, rgb) == (Config {
            drag_color: (rgb.0, rgb.1, rgb.2, cfg.drag_color.3),
            ..cfg
        }),
        with_color(cfg, ID_COL_KEYBG, rgb) == (Config {
            key_bg: (rgb.0, rgb.1, rgb.2, cfg.key_bg.3),
            ..cfg
        }),
        with_color(cfg, ID_COL_KEYTX, rgb) == (Config {
            key_text_color: (rgb.0, rgb.1, rgb.2, cfg.key_text_color.3),
            ..cfg
        }),
        !color_id(ID_SHOW_DRAG) && !color_id(ID_HL_FILL_A),
{
}

/// Each checkbox shows and sets its own flag: the drag trail, the scroll
/// hints, the spotlight, adding keys to a row, and showing every key.
pub proof fn lemma_check_fields(cfg: Config, v: bool)
    ensures
        checked(cfg, ID_SHOW_DRAG) == cfg.show_drag,
        checked(cfg, ID_SHOW_SCROLL) == cfg.show_scroll,
        checked(cfg, ID_SPOT_ON) == cfg.spotlight_enabled,
        checked(cfg, ID_KEY_STACK) == cfg.key_stack,
        checked(cfg, ID_SHOW_ALL) == cfg.show_all_keys,
        with_check(cfg, ID_SHOW_DRAG, v) == (Config { show_drag: v, ..cfg }),
        with_check(cfg, ID_SHOW_SCROLL, v) == (Config { show_scroll: v, ..cfg }),
        with_check(cfg, ID_SPOT_ON, v) == (Config { spotlight_enabled: v, ..cfg }),
        with_check(cfg, ID_KEY_STACK, v) == (Config { key_stack: v, ..cfg }),
        with_check(cfg, ID_SHOW_ALL, v) == (Config { show_all_keys: v, ..cfg }),
{
}

/// What a command message names, with the control's id in the low word and
/// the notification `code` in the high word: choosing an entry of the key
/// position list (and only that notification of the list), the close and
/// reset buttons whatever the notification, and a click on a checkbox or a
/// colour button, which carries the control's id.
pub proof fn lemma_command_table(code: u16, id: i32)
    ensures
        settings_command_of((ID_KEY_POS + 0x1_0000) as usize) == SettingsCommand::KeyPosChosen,
        code != 1 ==> settings_command_of((ID_KEY_POS + code * 0x1_0000) as usize)
            == SettingsCommand::Other,
        settings_command_of((ID_CLOSE + code * 0x1_0000) as usize) == SettingsCommand::Close,
        settings_command_of((ID_RESET + code * 0x1_0000) as usize) == SettingsCommand::Reset,
        check_id(id) ==> settings_command_of((id + code * 0x1_0000) as usize)
            == SettingsCommand::Check(id),
        color_id(id) ==> settings_command_of((id + code * 0x1_0000) as usize)
            == SettingsCommand::Color(id),
{
    assert(((ID_KEY_POS + 0x1_0000) as usize) as int == ID_KEY_POS + 0x1_0000);
}

} // verus!
