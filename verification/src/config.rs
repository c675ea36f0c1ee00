//! The settings file: the settings held as integers, colours and flags, the
//! text in which they are saved, and how a saved text is read back.
//!
//! The radii and durations are floating-point numbers; this module writes the
//! texts that the application gives for them and hands back, in order, the
//! texts that a settings file holds for them.
use vstd::prelude::*;

use crate::text::{
    all_digits, chars_of, find_char, first_at, int_text, is_space, lacks, no_space, parse_i32,
    parse_int, parse_u8, parse_usize, push_int, push_str, split_all, split_once, string_of, trim,
    trim_range,
};

verus! {

/// A colour as red, green, blue and alpha.
pub type Rgba = (u8, u8, u8, u8);

/// How many settings the settings file holds.
pub const KEY_COUNT: usize = 38;

/// A setting of the settings file.
#[derive(Clone, Copy, PartialEq, Eq, Debug, Structural)]
pub enum Key {
    HighlightRadius,
    HighlightFill,
    HighlightRing,
    RingThickness,
    RippleLifetimeMs,
    RippleStartR,
    RippleEndR,
    RippleThickness,
    LeftColor,
    RightColor,
    MiddleColor,
    DoubleColor,
    ScrollColor,
    DragColor,
    ShowScroll,
    ShowDrag,
    DragDotRadius,
    DragLifetimeMs,
    ScrollLifetimeMs,
    SpotlightEnabled,
    SpotlightRadius,
    SpotlightDim,
    SpotlightFeather,
    KeyFontPx,
    KeyBg,
    KeyTextColor,
    KeyLifetimeMs,
    KeyFadeMs,
    KeyMarginBottom,
    KeyPadding,
    KeyRadius,
    KeyPos,
    KeyX,
    KeyY,
    ShowAllKeys,
    KeyStack,
    KeyGap,
    KeyMax,
}

/// The name under which a setting is written in the settings file.
pub open spec fn name_of(k: Key) -> Seq<char> {
    match k {
        Key::HighlightRadius => "highlight_radius"@,
        Key::HighlightFill => "highlight_fill"@,
        Key::HighlightRing => "highlight_ring"@,
        Key::RingThickness => "ring_thickness"@,
        Key::RippleLifetimeMs => "ripple_lifetime_ms"@,
        Key::RippleStartR => "ripple_start_r"@,
        Key::RippleEndR => "ripple_end_r"@,
        Key::RippleThickness => "ripple_thickness"@,
        Key::LeftColor => "left_color"@,
        Key::RightColor => "right_color"@,
        Key::MiddleColor => "middle_color"@,
        Key::DoubleColor => "double_color"@,
        Key::ScrollColor => "scroll_color"@,
        Key::DragColor => "drag_color"@,
        Key::ShowScroll => "show_scroll"@,
        Key::ShowDrag => "show_drag"@,
        Key::DragDotRadius => "drag_dot_radius"@,
        Key::DragLifetimeMs => "drag_lifetime_ms"@,
        Key::ScrollLifetimeMs => "scroll_lifetime_ms"@,
        Key::SpotlightEnabled => "spotlight_enabled"@,
        Key::SpotlightRadius => "spotlight_radius"@,
        Key::SpotlightDim => "spotlight_dim"@,
        Key::SpotlightFeather => "spotlight_feather"@,
        Key::KeyFontPx => "key_font_px"@,
        Key::KeyBg => "key_bg"@,
        Key::KeyTextColor => "key_text_color"@,
        Key::KeyLifetimeMs => "key_lifetime_ms"@,
        Key::KeyFadeMs => "key_fade_ms"@,
        Key::KeyMarginBottom => "key_margin_bottom"@,
        Key::KeyPadding => "key_padding"@,
        Key::KeyRadius => "key_radius"@,
        Key::KeyPos => "key_pos"@,
        Key::KeyX => "key_x"@,
        Key::KeyY => "key_y"@,
        Key::ShowAllKeys => "show_all_keys"@,
        Key::KeyStack => "key_stack"@,
        Key::KeyGap => "key_gap"@,
        Key::KeyMax => "key_max"@,
    }
}

pub fn key_name(k: Key) -> (r: &'static str)
    ensures
        r@ == name_of(k),
{
    match k {
        Key::HighlightRadius => "highlight_radius",
        Key::HighlightFill => "highlight_fill",
        Key::HighlightRing => "highlight_ring",
        Key::RingThickness => "ring_thickness",
        Key::RippleLifetimeMs => "ripple_lifetime_ms",
        Key::RippleStartR => "ripple_start_r",
        Key::RippleEndR => "ripple_end_r",
        Key::RippleThickness => "ripple_thickness",
        Key::LeftColor => "left_color",
        Key::RightColor => "right_color",
        Key::MiddleColor => "middle_color",
        Key::DoubleColor => "double_color",
        Key::ScrollColor => "scroll_color",
        Key::DragColor => "drag_color",
        Key::ShowScroll => "show_scroll",
        Key::ShowDrag => "show_drag",
        Key::DragDotRadius => "drag_dot_radius",
        Key::DragLifetimeMs => "drag_lifetime_ms",
        Key::ScrollLifetimeMs => "scroll_lifetime_ms",
        Key::SpotlightEnabled => "spotlight_enabled",
        Key::SpotlightRadius => "spotlight_radius",
        Key::SpotlightDim => "spotlight_dim",
        Key::SpotlightFeather => "spotlight_feather",
        Key::KeyFontPx => "key_font_px",
        Key::KeyBg => "key_bg",
        Key::KeyTextColor => "key_text_color",
        Key::KeyLifetimeMs => "key_lifetime_ms",
        Key::KeyFadeMs => "key_fade_ms",
        Key::KeyMarginBottom => "key_margin_bottom",
        Key::KeyPadding => "key_padding",
        Key::KeyRadius => "key_radius",
        Key::KeyPos => "key_pos",
        Key::KeyX => "key_x",
        Key::KeyY => "key_y",
        Key::ShowAllKeys => "show_all_keys",
        Key::KeyStack => "key_stack",
        Key::KeyGap => "key_gap",
        Key::KeyMax => "key_max",
    }
}

/// The settings in the order in which the settings file lists them.
pub open spec fn key_at(i: int) -> Key {
    if i == 0 {
        Key::HighlightRadius
    } else if i == 1 {
        Key::HighlightFill
    } else if i == 2 {
        Key::HighlightRing
    } else if i == 3 {
        Key::RingThickness
    } else if i == 4 {
        Key::RippleLifetimeMs
    } else if i == 5 {
        Key::RippleStartR
    } else if i == 6 {
        Key::RippleEndR
    } else if i == 7 {
        Key::RippleThickness
    } else if i == 8 {
        Key::LeftColor
    } else if i == 9 {
        Key::RightColor
    } else if i == 10 {
        Key::MiddleColor
    } else if i == 11 {
        Key::DoubleColor
    } else if i == 12 {
        Key::ScrollColor
    } else if i == 13 {
        Key::DragColor
    } else if i == 14 {
        Key::ShowScroll
    } else if i == 15 {
        Key::ShowDrag
    } else if i == 16 {
        Key::DragDotRadius
    } else if i == 17 {
        Key::DragLifetimeMs
    } else if i == 18 {
        Key::ScrollLifetimeMs
    } else if i == 19 {
        Key::SpotlightEnabled
    } else if i == 20 {
        Key::SpotlightRadius
    } else if i == 21 {
        Key::SpotlightDim
    } else if i == 22 {
        Key::SpotlightFeather
    } else if i == 23 {
        Key::KeyFontPx
    } else if i == 24 {
        Key::KeyBg
    } else if i == 25 {
        Key::KeyTextColor
    } else if i == 26 {
        Key::KeyLifetimeMs
    } else if i == 27 {
        Key::KeyFadeMs
    } else if i == 28 {
        Key::KeyMarginBottom
    } else if i == 29 {
        Key::KeyPadding
    } else if i == 30 {
        Key::KeyRadius
    } else if i == 31 {
        Key::KeyPos
    } else if i == 32 {
        Key::KeyX
    } else if i == 33 {
        Key::KeyY
    } else if i == 34 {
        Key::ShowAllKeys
    } else if i == 35 {
        Key::KeyStack
    } else if i == 36 {
        Key::KeyGap
    } else {
        Key::KeyMax
    }
}

pub open spec fn index_of(k: Key) -> int {
    match k {
        Key::HighlightRadius => 0,
        Key::HighlightFill => 1,
        Key::HighlightRing => 2,
        Key::RingThickness => 3,
        Key::RippleLifetimeMs => 4,
        Key::RippleStartR => 5,
        Key::RippleEndR => 6,
        Key::RippleThickness => 7,
        Key::LeftColor => 8,
        Key::RightColor => 9,
        Key::MiddleColor => 10,
        Key::DoubleColor => 11,
        Key::ScrollColor => 12,
        Key::DragColor => 13,
        Key::ShowScroll => 14,
        Key::ShowDrag => 15,
        Key::DragDotRadius => 16,
        Key::DragLifetimeMs => 17,
        Key::ScrollLifetimeMs => 18,
        Key::SpotlightEnabled => 19,
        Key::SpotlightRadius => 20,
        Key::SpotlightDim => 21,
        Key::SpotlightFeather => 22,
        Key::KeyFontPx => 23,
        Key::KeyBg => 24,
        Key::KeyTextColor => 25,
        Key::KeyLifetimeMs => 26,
        Key::KeyFadeMs => 27,
        Key::KeyMarginBottom => 28,
        Key::KeyPadding => 29,
        Key::KeyRadius => 30,
        Key::KeyPos => 31,
        Key::KeyX => 32,
        Key::KeyY => 33,
        Key::ShowAllKeys => 34,
        Key::KeyStack => 35,
        Key::KeyGap => 36,
        Key::KeyMax => 37,
    }
}

fn key_at_exec(i: usize) -> (k: Key)
    requires
        i < KEY_COUNT,
    ensures
        k == key_at(i as int),
{
    match i {
        0 => Key::HighlightRadius,
        1 => Key::HighlightFill,
        2 => Key::HighlightRing,
        3 => Key::RingThickness,
        4 => Key::RippleLifetimeMs,
        5 => Key::RippleStartR,
        6 => Key::RippleEndR,
        7 => Key::RippleThickness,
        8 => Key::LeftColor,
        9 => Key::RightColor,
        10 => Key::MiddleColor,
        11 => Key::DoubleColor,
        12 => Key::ScrollColor,
        13 => Key::DragColor,
        14 => Key::ShowScroll,
        15 => Key::ShowDrag,
        16 => Key::DragDotRadius,
        17 => Key::DragLifetimeMs,
        18 => Key::ScrollLifetimeMs,
        19 => Key::SpotlightEnabled,
        20 => Key::SpotlightRadius,
        21 => Key::SpotlightDim,
        22 => Key::SpotlightFeather,
        23 => Key::KeyFontPx,
        24 => Key::KeyBg,
        25 => Key::KeyTextColor,
        26 => Key::KeyLifetimeMs,
        27 => Key::KeyFadeMs,
        28 => Key::KeyMarginBottom,
        29 => Key::KeyPadding,
        30 => Key::KeyRadius,
        31 => Key::KeyPos,
        32 => Key::KeyX,
        33 => Key::KeyY,
        34 => Key::ShowAllKeys,
        35 => Key::KeyStack,
        36 => Key::KeyGap,
        _ => Key::KeyMax,
    }
}

spec fn fp_of(k: Key) -> (nat, char, char, char) {
    match k {
        Key::HighlightRadius => (16, 'h', 'l', 'r'),
        Key::HighlightFill => (14, 'h', 'l', 'f'),
        Key::HighlightRing => (14, 'h', 'l', 'r'),
        Key::RingThickness => (14, 'r', '_', 'n'),
        Key::RippleLifetimeMs => (18, 'r', 'l', 'e'),
        Key::RippleStartR => (14, 'r', 'l', 'r'),
        Key::RippleEndR => (12, 'r', 'l', '_'),
        Key::RippleThickness => (16, 'r', 'l', 'c'),
        Key::LeftColor => (10, 'l', '_', ' '),
        Key::RightColor => (11, 'r', 't', 'r'),
        Key::MiddleColor => (12, 'm', 'l', 'o'),
        Key::DoubleColor => (12, 'd', 'l', 'o'),
        Key::ScrollColor => (12, 's', 'l', 'o'),
        Key::DragColor => (10, 'd', '_', ' '),
        Key::ShowScroll => (11, 's', '_', 'l'),
        Key::ShowDrag => (9, 's', '_', ' '),
        Key::DragDotRadius => (15, 'd', '_', 'a'),
        Key::DragLifetimeMs => (16, 'd', '_', 'i'),
        Key::ScrollLifetimeMs => (18, 's', 'l', 'e'),
        Key::SpotlightEnabled => (17, 's', 'l', 'e'),
        Key::SpotlightRadius => (16, 's', 'l', 'r'),
        Key::SpotlightDim => (13, 's', 'l', 'd'),
        Key::SpotlightFeather => (17, 's', 'l', 'f'),
        Key::KeyFontPx => (11, 'k', 'f', 'x'),
        Key::KeyBg => (6, 'k', 'b', ' '),
        Key::KeyTextColor => (14, 'k', 't', 'o'),
        Key::KeyLifetimeMs => (15, 'k', 'l', 'm'),
        Key::KeyFadeMs => (11, 'k', 'f', 's'),
        Key::KeyMarginBottom => (17, 'k', 'm', '_'),
        Key::KeyPadding => (11, 'k', 'p', 'g'),
        Key::KeyRadius => (10, 'k', 'r', ' '),
        Key::KeyPos => (7, 'k', 'p', ' '),
        Key::KeyX => (5, 'k', 'x', ' '),
        Key::KeyY => (5, 'k', 'y', ' '),
        Key::ShowAllKeys => (13, 's', '_', 'e'),
        Key::KeyStack => (9, 'k', 's', ' '),
        Key::KeyGap => (7, 'k', 'g', ' '),
        Key::KeyMax => (7, 'k', 'm', ' '),
    }
}

spec fn key_of_fp(f: (nat, char, char, char)) -> Key {
    if f == (16nat, 'h', 'l', 'r') {
        Key::HighlightRadius
    } else if f == (14nat, 'h', 'l', 'f') {
        Key::HighlightFill
    } else if f == (14nat, 'h', 'l', 'r') {
        Key::HighlightRing
    } else if f == (14nat, 'r', '_', 'n') {
        Key::RingThickness
    } else if f == (18nat, 'r', 'l', 'e') {
        Key::RippleLifetimeMs
    } else if f == (14nat, 'r', 'l', 'r') {
        Key::RippleStartR
    } else if f == (12nat, 'r', 'l', '_') {
        Key::RippleEndR
    } else if f == (16nat, 'r', 'l', 'c') {
        Key::RippleThickness
    } else if f == (10nat, 'l', '_', ' ') {
        Key::LeftColor
    } else if f == (11nat, 'r', 't', 'r') {
        Key::RightColor
    } else if f == (12nat, 'm', 'l', 'o') {
        Key::MiddleColor
    } else if f == (12nat, 'd', 'l', 'o') {
        Key::DoubleColor
    } else if f == (12nat, 's', 'l', 'o') {
        Key::ScrollColor
    } else if f == (10nat, 'd', '_', ' ') {
        Key::DragColor
    } else if f == (11nat, 's', '_', 'l') {
        Key::ShowScroll
    } else if f == (9nat, 's', '_', ' ') {
        Key::ShowDrag
    } else if f == (15nat, 'd', '_', 'a') {
        Key::DragDotRadius
    } else if f == (16nat, 'd', '_', 'i') {
        Key::DragLifetimeMs
    } else if f == (18nat, 's', 'l', 'e') {
        Key::ScrollLifetimeMs
    } else if f == (17nat, 's', 'l', 'e') {
        Key::SpotlightEnabled
    } else if f == (16nat, 's', 'l', 'r') {
        Key::SpotlightRadius
    } else if f == (13nat, 's', 'l', 'd') {
        Key::SpotlightDim
    } else if f == (17nat, 's', 'l', 'f') {
        Key::SpotlightFeather
    } else if f == (11nat, 'k', 'f', 'x') {
        Key::KeyFontPx
    } else if f == (6nat, 'k', 'b', ' ') {
        Key::KeyBg
    } else if f == (14nat, 'k', 't', 'o') {
        Key::KeyTextColor
    } else if f == (15nat, 'k', 'l', 'm') {
        Key::KeyLifetimeMs
    } else if f == (11nat, 'k', 'f', 's') {
        Key::KeyFadeMs
    } else if f == (17nat, 'k', 'm', '_') {
        Key::KeyMarginBottom
    } else if f == (11nat, 'k', 'p', 'g') {
        Key::KeyPadding
    } else if f == (10nat, 'k', 'r', ' ') {
        Key::KeyRadius
    } else if f == (7nat, 'k', 'p', ' ') {
        Key::KeyPos
    } else if f == (5nat, 'k', 'x', ' ') {
        Key::KeyX
    } else if f == (5nat, 'k', 'y', ' ') {
        Key::KeyY
    } else if f == (13nat, 's', '_', 'e') {
        Key::ShowAllKeys
    } else if f == (9nat, 'k', 's', ' ') {
        Key::KeyStack
    } else if f == (7nat, 'k', 'g', ' ') {
        Key::KeyGap
    } else {
        Key::KeyMax
    }
}

proof fn lemma_fingerprint(k: Key)
    ensures
        fingerprint(name_of(k)) == fp_of(k),
        key_of_fp(fp_of(k)) == k,
        plain_name(name_of(k)),
{
    match k {
        Key::HighlightRadius => reveal_strlit("highlight_radius"),
        Key::HighlightFill => reveal_strlit("highlight_fill"),
        Key::HighlightRing => reveal_strlit("highlight_ring"),
        Key::RingThickness => reveal_strlit("ring_thickness"),
        Key::RippleLifetimeMs => reveal_strlit("ripple_lifetime_ms"),
        Key::RippleStartR => reveal_strlit("ripple_start_r"),
        Key::RippleEndR => reveal_strlit("ripple_end_r"),
        Key::RippleThickness => reveal_strlit("ripple_thickness"),
        Key::LeftColor => reveal_strlit("left_color"),
        Key::RightColor => reveal_strlit("right_color"),
        Key::MiddleColor => reveal_strlit("middle_color"),
        Key::DoubleColor => reveal_strlit("double_color"),
        Key::ScrollColor => reveal_strlit("scroll_color"),
        Key::DragColor => reveal_strlit("drag_color"),
        Key::ShowScroll => reveal_strlit("show_scroll"),
        Key::ShowDrag => reveal_strlit("show_drag"),
        Key::DragDotRadius => reveal_strlit("drag_dot_radius"),
        Key::DragLifetimeMs => reveal_strlit("drag_lifetime_ms"),
        Key::ScrollLifetimeMs => reveal_strlit("scroll_lifetime_ms"),
        Key::SpotlightEnabled => reveal_strlit("spotlight_enabled"),
        Key::SpotlightRadius => reveal_strlit("spotlight_radius"),
        Key::SpotlightDim => reveal_strlit("spotlight_dim"),
        Key::SpotlightFeather => reveal_strlit("spotlight_feather"),
        Key::KeyFontPx => reveal_strlit("key_font_px"),
        Key::KeyBg => reveal_strlit("key_bg"),
        Key::KeyTextColor => reveal_strlit("key_text_color"),
        Key::KeyLifetimeMs => reveal_strlit("key_lifetime_ms"),
        Key::KeyFadeMs => reveal_strlit("key_fade_ms"),
        Key::KeyMarginBottom => reveal_strlit("key_margin_bottom"),
        Key::KeyPadding => reveal_strlit("key_padding"),
        Key::KeyRadius => reveal_strlit("key_radius"),
        Key::KeyPos => reveal_strlit("key_pos"),
        Key::KeyX => reveal_strlit("key_x"),
        Key::KeyY => reveal_strlit("key_y"),
        Key::ShowAllKeys => reveal_strlit("show_all_keys"),
        Key::KeyStack => reveal_strlit("key_stack"),
        Key::KeyGap => reveal_strlit("key_gap"),
        Key::KeyMax => reveal_strlit("key_max"),
    }
}

/// Whether a setting is held as a floating-point number.
pub open spec fn is_float(k: Key) -> bool {
    match k {
        Key::HighlightRadius | Key::RingThickness | Key::RippleLifetimeMs | Key::RippleStartR | Key::RippleEndR | Key::RippleThickness | Key::DragDotRadius | Key::DragLifetimeMs | Key::ScrollLifetimeMs | Key::SpotlightRadius | Key::SpotlightFeather | Key::KeyLifetimeMs | Key::KeyFadeMs | Key::KeyRadius => true,
        _ => false,
    }
}

/// The settings that are integers, colours and flags.
#[derive(Clone, Copy, Debug)]
pub struct Config {
    pub highlight_fill: Rgba,
    pub highlight_ring: Rgba,
    pub left_color: Rgba,
    pub right_color: Rgba,
    pub middle_color: Rgba,
    pub double_color: Rgba,
    pub scroll_color: Rgba,
    pub drag_color: Rgba,
    pub show_scroll: bool,
    pub show_drag: bool,
    pub spotlight_enabled: bool,
    pub spotlight_dim: u8,
    pub key_font_px: i32,
    pub key_bg: Rgba,
    pub key_text_color: Rgba,
    pub key_margin_bottom: i32,
    pub key_padding: (i32, i32),
    /// 0 bottom centre, 1 bottom left, 2 bottom right, 3 top centre, 4 top left,
    /// 5 top right, 6 centre, 7 at (`key_x`, `key_y`).
    pub key_pos: i32,
    pub key_x: i32,
    pub key_y: i32,
    pub show_all_keys: bool,
    /// Keys are added to a row (true) or replace the one shown (false).
    pub key_stack: bool,
    pub key_gap: i32,
    /// How many keys are shown at most.
    pub key_max: usize,
}

pub open spec fn default_config() -> Config {
    Config {
        highlight_fill: (255, 220, 40, 55),
        highlight_ring: (255, 210, 0, 150),
        left_color: (255, 235, 80, 210),
        right_color: (90, 200, 255, 210),
        middle_color: (180, 120, 255, 210),
        double_color: (120, 255, 140, 220),
        scroll_color: (255, 255, 255, 220),
        drag_color: (255, 200, 60, 160),
        show_scroll: true,
        show_drag: true,
        spotlight_enabled: false,
        spotlight_dim: 160,
        key_font_px: 30,
        key_bg: (20, 20, 24, 225),
        key_text_color: (255, 255, 255, 255),
        key_margin_bottom: 90,
        key_padding: (22, 12),
        key_pos: 0,
        key_x: 200,
        key_y: 200,
        show_all_keys: true,
        key_stack: true,
        key_gap: 8,
        key_max: 24,
    }
}

impl Default for Config {
    fn default() -> (r: Config)
        ensures
            r == default_config(),
    {
        Config {
            highlight_fill: (255, 220, 40, 55),
            highlight_ring: (255, 210, 0, 150),
            left_color: (255, 235, 80, 210),
            right_color: (90, 200, 255, 210),
            middle_color: (180, 120, 255, 210),
            double_color: (120, 255, 140, 220),
            scroll_color: (255, 255, 255, 220),
            drag_color: (255, 200, 60, 160),
            show_scroll: true,
            show_drag: true,
            spotlight_enabled: false,
            spotlight_dim: 160,
            key_font_px: 30,
            key_bg: (20, 20, 24, 225),
            key_text_color: (255, 255, 255, 255),
            key_margin_bottom: 90,
            key_padding: (22, 12),
            key_pos: 0,
            key_x: 200,
            key_y: 200,
            show_all_keys: true,
            key_stack: true,
            key_gap: 8,
            key_max: 24,
        }
    }
}

/// The texts in which the floating-point settings are written.
pub struct FloatTexts {
    pub highlight_radius: String,
    pub ring_thickness: String,
    pub ripple_lifetime_ms: String,
    pub ripple_start_r: String,
    pub ripple_end_r: String,
    pub ripple_thickness: String,
    pub drag_dot_radius: String,
    pub drag_lifetime_ms: String,
    pub scroll_lifetime_ms: String,
    pub spotlight_radius: String,
    pub spotlight_feather: String,
    pub key_lifetime_ms: String,
    pub key_fade_ms: String,
    pub key_radius: String,
}

pub open spec fn float_text(ft: FloatTexts, k: Key) -> Seq<char> {
    match k {
        Key::HighlightRadius => ft.highlight_radius@,
        Key::RingThickness => ft.ring_thickness@,
        Key::RippleLifetimeMs => ft.ripple_lifetime_ms@,
        Key::RippleStartR => ft.ripple_start_r@,
        Key::RippleEndR => ft.ripple_end_r@,
        Key::RippleThickness => ft.ripple_thickness@,
        Key::DragDotRadius => ft.drag_dot_radius@,
        Key::DragLifetimeMs => ft.drag_lifetime_ms@,
        Key::ScrollLifetimeMs => ft.scroll_lifetime_ms@,
        Key::SpotlightRadius => ft.spotlight_radius@,
        Key::SpotlightFeather => ft.spotlight_feather@,
        Key::KeyLifetimeMs => ft.key_lifetime_ms@,
        Key::KeyFadeMs => ft.key_fade_ms@,
        Key::KeyRadius => ft.key_radius@,
        _ => Seq::empty(),
    }
}

/// A floating-point setting as the settings file gives it, before it is read as a number.
pub struct FloatSetting {
    pub key: Key,
    pub value: String,
}

pub open spec fn float_settings(v: Seq<FloatSetting>) -> Seq<(Key, Seq<char>)> {
    v.map_values(|f: FloatSetting| (f.key, f.value@))
}

// ------------------------------------------------------------------
// Key names
// ------------------------------------------------------------------

spec fn fingerprint(t: Seq<char>) -> (nat, char, char, char) {
    (t.len(), t[0], t[4], if 10 < t.len() {
        t[10]
    } else {
        ' '
    })
}

/// Different settings have different names.
pub proof fn lemma_names_distinct(a: Key, b: Key)
    requires
        name_of(a) == name_of(b),
    ensures
        a == b,
{
    lemma_fingerprint(a);
    lemma_fingerprint(b);
}

/// The characters of a setting's name are lower-case ASCII letters and `_`,
/// the first a letter.
pub open spec fn plain_name(t: Seq<char>) -> bool {
    &&& t.len() > 0
    &&& 97 <= t[0] as u32 <= 122
    &&& forall|i: int|
        0 <= i < t.len() ==> (97 <= #[trigger] t[i] as u32 <= 122 || t[i] == '_')
}

pub proof fn lemma_plain_name(k: Key)
    ensures
        plain_name(name_of(k)),
{
    lemma_fingerprint(k);
}

pub proof fn lemma_index_of(k: Key)
    ensures
        0 <= index_of(k) < KEY_COUNT,
        key_at(index_of(k)) == k,
{
}

/// The setting named `t`: the first in file order whose name is `t`.
pub open spec fn key_of_from(t: Seq<char>, i: int) -> Option<Key>
    decreases KEY_COUNT - i,
{
    if i < 0 || i >= KEY_COUNT {
        None
    } else if name_of(key_at(i)) == t {
        Some(key_at(i))
    } else {
        key_of_from(t, i + 1)
    }
}

/// The setting named `t`, if there is one.
pub open spec fn key_of(t: Seq<char>) -> Option<Key> {
    key_of_from(t, 0)
}

proof fn lemma_key_of_from(k: Key, i: int)
    requires
        0 <= i <= index_of(k),
    ensures
        key_of_from(name_of(k), i) == Some(k),
    decreases index_of(k) - i,
{
    lemma_index_of(k);
    if i < index_of(k) {
        if name_of(key_at(i)) == name_of(k) {
            lemma_names_distinct(key_at(i), k);
        }
        lemma_key_of_from(k, i + 1);
    }
}

/// A setting is found again by its name.
pub proof fn lemma_key_of_name(k: Key)
    ensures
        key_of(name_of(k)) == Some(k),
{
    lemma_key_of_from(k, 0);
}

/// Whether `s[lo..hi]` is `t`.
pub fn range_is(s: &Vec<char>, lo: usize, hi: usize, t: &str) -> (r: bool)
    requires
        lo <= hi <= s.len(),
    ensures
        r == (s@.subrange(lo as int, hi as int) == t@),
{
    let tc = chars_of(t);
    if hi - lo != tc.len() {
        return false;
    }
    let mut i: usize = 0;
    while i < tc.len()
        invariant
            lo <= hi <= s.len(),
            hi - lo == tc.len(),
            tc@ == t@,
            i <= tc.len(),
            forall|j: int| 0 <= j < i ==> s@[lo + j] == tc@[j],
        decreases tc.len() - i,
    {
        if s[lo + i] != tc[i] {
            assert(s@.subrange(lo as int, hi as int)[i as int] != t@[i as int]);
            return false;
        }
        i = i + 1;
    }
    assert(s@.subrange(lo as int, hi as int) =~= t@);
    true
}

/// The setting named `s[lo..hi]`, if there is one.
pub fn key_in(s: &Vec<char>, lo: usize, hi: usize) -> (r: Option<Key>)
    requires
        lo <= hi <= s.len(),
    ensures
        r == key_of(s@.subrange(lo as int, hi as int)),
{
    let ghost t = s@.subrange(lo as int, hi as int);
    let mut i: usize = 0;
    while i < KEY_COUNT
        invariant
            i <= KEY_COUNT,
            lo <= hi <= s.len(),
            t == s@.subrange(lo as int, hi as int),
            key_of(t) == key_of_from(t, i as int),
        decreases KEY_COUNT - i,
    {
        let k = key_at_exec(i);
        if range_is(s, lo, hi, key_name(k)) {
            return Some(k);
        }
        i = i + 1;
    }
    None
}

pub fn is_float_key(k: Key) -> (r: bool)
    ensures
        r == is_float(k),
{
    match k {
        Key::HighlightRadius | Key::RingThickness | Key::RippleLifetimeMs | Key::RippleStartR
        | Key::RippleEndR | Key::RippleThickness | Key::DragDotRadius | Key::DragLifetimeMs
        | Key::ScrollLifetimeMs | Key::SpotlightRadius | Key::SpotlightFeather
        | Key::KeyLifetimeMs | Key::KeyFadeMs | Key::KeyRadius => true,
        _ => false,
    }
}

// ------------------------------------------------------------------
// Lists of numbers: colours and pairs
// ------------------------------------------------------------------

/// The numbers among the comma-separated pieces, each trimmed, that read as
/// integers in `lo..=hi`; pieces that do not are passed over.
pub open spec fn numbers_in(pieces: Seq<Seq<char>>, lo: int, hi: int) -> Seq<int>
    decreases pieces.len(),
{
    if pieces.len() == 0 {
        Seq::empty()
    } else {
        let init = numbers_in(pieces.drop_last(), lo, hi);
        match parse_int(trim(pieces.last()), lo, hi) {
            Some(x) => init.push(x),
            None => init,
        }
    }
}

/// What `parse_rgba` reads: exactly four numbers 0..=255 among the pieces.
pub open spec fn rgba_of(v: Seq<char>) -> Option<Rgba> {
    let n = numbers_in(split_all(v, ','), 0, 255);
    if n.len() == 4 {
        Some((n[0] as u8, n[1] as u8, n[2] as u8, n[3] as u8))
    } else {
        None
    }
}

/// What `parse_2i` reads: exactly two `i32` numbers among the pieces.
pub open spec fn pair_of(v: Seq<char>) -> Option<(i32, i32)> {
    let n = numbers_in(split_all(v, ','), i32::MIN as int, i32::MAX as int);
    if n.len() == 2 {
        Some((n[0] as i32, n[1] as i32))
    } else {
        None
    }
}

/// The numbers in `-min_mag..=max` among the comma-separated pieces of `s[lo..hi]`.
fn numbers_within(s: &Vec<char>, lo: usize, hi: usize, min_mag: u64, max: u64) -> (r: Vec<i128>)
    requires
        lo <= hi <= s.len(),
        (min_mag == 0 && max == 255) || (min_mag == 0x8000_0000 && max == 0x7fff_ffff),
    ensures
        r@.len() == numbers_in(
            split_all(s@.subrange(lo as int, hi as int), ','),
            -min_mag,
            max as int,
        ).len(),
        forall|i: int|
            0 <= i < r@.len() ==> r@[i] as int == #[trigger] numbers_in(
                split_all(s@.subrange(lo as int, hi as int), ','),
                -min_mag,
                max as int,
            )[i],
{
    let ghost sub = s@.subrange(lo as int, hi as int);
    let ghost lo_v: int = -min_mag;
    let mut r: Vec<i128> = Vec::new();
    let mut start = lo;
    let mut i = lo;
    let ghost mut done: Seq<Seq<char>> = Seq::empty();
    assert(sub.take(0) =~= Seq::<char>::empty());
    assert(s@.subrange(lo as int, lo as int) =~= Seq::<char>::empty());
    assert(split_all(Seq::<char>::empty(), ',') =~= done.push(Seq::<char>::empty()));
    while i < hi
        invariant
            lo <= start <= i <= hi <= s.len(),
            sub == s@.subrange(lo as int, hi as int),
            lo_v == -min_mag,
            (min_mag == 0 && max == 255) || (min_mag == 0x8000_0000 && max == 0x7fff_ffff),
            split_all(sub.take(i - lo), ',') == done.push(s@.subrange(start as int, i as int)),
            r@.len() == numbers_in(done, lo_v, max as int).len(),
            forall|j: int|
                0 <= j < r@.len() ==> r@[j] as int == #[trigger] numbers_in(
                    done,
                    lo_v,
                    max as int,
                )[j],
        decreases hi - i,
    {
        let ghost pre = sub.take(i - lo);
        assert(sub.take(i + 1 - lo).drop_last() =~= pre);
        assert(sub.take(i + 1 - lo).last() == s@[i as int]);
        if s[i] == ',' {
            let (a, b) = trim_range(s, start, i);
            let x = if min_mag == 0 {
                match parse_u8(s, a, b) {
                    Some(v) => Some(v as i128),
                    None => None,
                }
            } else {
                match parse_i32(s, a, b) {
                    Some(v) => Some(v as i128),
                    None => None,
                }
            };
            let ghost piece = s@.subrange(start as int, i as int);
            assert(match x {
                Some(v) => parse_int(trim(piece), lo_v, max as int) == Some(v as int),
                None => parse_int(trim(piece), lo_v, max as int) is None,
            });
            let ghost done2 = done.push(piece);
            assert(done2.drop_last() =~= done);
            assert(done2.last() == piece);
            assert(numbers_in(done2, lo_v, max as int) == match parse_int(
                trim(piece),
                lo_v,
                max as int,
            ) {
                Some(y) => numbers_in(done, lo_v, max as int).push(y),
                None => numbers_in(done, lo_v, max as int),
            });
            let ghost r0 = r@;
            if let Some(v) = x {
                r.push(v);
                assert(r@ == r0.push(v));
            }
            assert forall|j: int| 0 <= j < r@.len() implies r@[j] as int == #[trigger] numbers_in(
                done2,
                lo_v,
                max as int,
            )[j] by {
                if j < r0.len() {
                    assert(r@[j] == r0[j]);
                }
            }
            assert(split_all(sub.take(i + 1 - lo), ',') =~= done2.push(Seq::<char>::empty()));
            proof {
                done = done2;
            }
            assert(s@.subrange(i + 1, i + 1) =~= Seq::<char>::empty());
            start = i + 1;
        } else {
            assert(s@.subrange(start as int, i + 1) =~= s@.subrange(start as int, i as int).push(
                s@[i as int],
            ));
        }
        i = i + 1;
    }
    assert(sub.take(hi - lo) =~= sub);
    let (a, b) = trim_range(s, start, hi);
    let x = if min_mag == 0 {
        match parse_u8(s, a, b) {
            Some(v) => Some(v as i128),
            None => None,
        }
    } else {
        match parse_i32(s, a, b) {
            Some(v) => Some(v as i128),
            None => None,
        }
    };
    let ghost all = done.push(s@.subrange(start as int, hi as int));
    assert(all.drop_last() =~= done);
    if let Some(v) = x {
        r.push(v);
    }
    r
}

/// `parse_rgba` on `s[lo..hi]`.
pub fn rgba_in(s: &Vec<char>, lo: usize, hi: usize) -> (r: Option<Rgba>)
    requires
        lo <= hi <= s.len(),
    ensures
        r == rgba_of(s@.subrange(lo as int, hi as int)),
{
    let n = numbers_within(s, lo, hi, 0, 255);
    if n.len() == 4 {
        Some((n[0] as u8, n[1] as u8, n[2] as u8, n[3] as u8))
    } else {
        None
    }
}

/// `parse_2i` on `s[lo..hi]`.
pub fn pair_in(s: &Vec<char>, lo: usize, hi: usize) -> (r: Option<(i32, i32)>)
    requires
        lo <= hi <= s.len(),
    ensures
        r == pair_of(s@.subrange(lo as int, hi as int)),
{
    let n = numbers_within(s, lo, hi, 0x8000_0000, 0x7fff_ffff);
    if n.len() == 2 {
        Some((n[0] as i32, n[1] as i32))
    } else {
        None
    }
}

/// A colour written as four comma-separated numbers; the text is read as
/// exactly four numbers 0..=255 among its comma-separated pieces, pieces that
/// are not such numbers being passed over.
pub fn parse_rgba(v: &str) -> (r: Option<Rgba>)
    ensures
        r == rgba_of(v@),
{
    let s = chars_of(v);
    assert(s@.subrange(0, s@.len() as int) =~= v@);
    rgba_in(&s, 0, s.len())
}

/// A pair written as two comma-separated `i32` numbers, read as `parse_rgba`
/// reads a colour.
pub fn parse_2i(v: &str) -> (r: Option<(i32, i32)>)
    ensures
        r == pair_of(v@),
{
    let s = chars_of(v);
    assert(s@.subrange(0, s@.len() as int) =~= v@);
    pair_in(&s, 0, s.len())
}

// ------------------------------------------------------------------
// Reading a settings text
// ------------------------------------------------------------------

pub open spec fn true_text() -> Seq<char> {
    "true"@
}

pub open spec fn apply_value(c: Config, k: Key, v: Seq<char>) -> Config {
    match k {
        Key::HighlightFill => match rgba_of(v) {
            Some(x) => Config { highlight_fill: x, ..c },
            None => c,
        },
        Key::HighlightRing => match rgba_of(v) {
            Some(x) => Config { highlight_ring: x, ..c },
            None => c,
        },
        Key::LeftColor => match rgba_of(v) {
            Some(x) => Config { left_color: x, ..c },
            None => c,
        },
        Key::RightColor => match rgba_of(v) {
            Some(x) => Config { right_color: x, ..c },
            None => c,
        },
        Key::MiddleColor => match rgba_of(v) {
            Some(x) => Config { middle_color: x, ..c },
            None => c,
        },
        Key::DoubleColor => match rgba_of(v) {
            Some(x) => Config { double_color: x, ..c },
            None => c,
        },
        Key::ScrollColor => match rgba_of(v) {
            Some(x) => Config { scroll_color: x, ..c },
            None => c,
        },
        Key::DragColor => match rgba_of(v) {
            Some(x) => Config { drag_color: x, ..c },
            None => c,
        },
        Key::ShowScroll => Config { show_scroll: v == true_text(), ..c },
        Key::ShowDrag => Config { show_drag: v == true_text(), ..c },
        Key::SpotlightEnabled => Config { spotlight_enabled: v == true_text(), ..c },
        Key::SpotlightDim => match parse_int(v, 0, 255) {
            Some(x) => Config { spotlight_dim: x as u8, ..c },
            None => c,
        },
        Key::KeyFontPx => match parse_int(v, i32::MIN as int, i32::MAX as int) {
            Some(x) => Config { key_font_px: x as i32, ..c },
            None => c,
        },
        Key::KeyBg => match rgba_of(v) {
            Some(x) => Config { key_bg: x, ..c },
            None => c,
        },
        Key::KeyTextColor => match rgba_of(v) {
            Some(x) => Config { key_text_color: x, ..c },
            None => c,
        },
        Key::KeyMarginBottom => match parse_int(v, i32::MIN as int, i32::MAX as int) {
            Some(x) => Config { key_margin_bottom: x as i32, ..c },
            None => c,
        },
        Key::KeyPadding => match pair_of(v) {
            Some(p) => Config { key_padding: p, ..c },
            None => c,
        },
        Key::KeyPos => match parse_int(v, i32::MIN as int, i32::MAX as int) {
            Some(x) => Config { key_pos: x as i32, ..c },
            None => c,
        },
        Key::KeyX => match parse_int(v, i32::MIN as int, i32::MAX as int) {
            Some(x) => Config { key_x: x as i32, ..c },
            None => c,
        },
        Key::KeyY => match parse_int(v, i32::MIN as int, i32::MAX as int) {
            Some(x) => Config { key_y: x as i32, ..c },
            None => c,
        },
        Key::ShowAllKeys => Config { show_all_keys: v == true_text(), ..c },
        Key::KeyStack => Config { key_stack: v == true_text(), ..c },
        Key::KeyGap => match parse_int(v, i32::MIN as int, i32::MAX as int) {
            Some(x) => Config { key_gap: x as i32, ..c },
            None => c,
        },
        Key::KeyMax => match parse_int(v, 0, usize::MAX as int) {
            Some(x) => Config { key_max: x as usize, ..c },
            None => c,
        },
        _ => c,
    }
}


/// A settings text read so far: the settings and, in order, the
/// floating-point settings found.
pub type Loaded = (Config, Seq<(Key, Seq<char>)>);

/// One setting of the text applied.
pub open spec fn apply_setting(st: Loaded, k: Key, v: Seq<char>) -> Loaded {
    if is_float(k) {
        (st.0, st.1.push((k, v)))
    } else {
        (apply_value(st.0, k, v), st.1)
    }
}

/// One line applied: blank lines, lines starting with `#`, lines without `=`
/// and lines whose name before the `=` is no setting are passed over; the
/// rest set the named setting from the trimmed text after the `=`.
pub open spec fn apply_line(st: Loaded, line: Seq<char>) -> Loaded {
    let t = trim(line);
    if t.len() == 0 || t[0] == '#' {
        st
    } else {
        match split_once(t, '=') {
            None => st,
            Some((k, v)) => match key_of(trim(k)) {
                None => st,
                Some(key) => apply_setting(st, key, trim(v)),
            },
        }
    }
}

pub open spec fn apply_lines(st: Loaded, lines: Seq<Seq<char>>) -> Loaded
    decreases lines.len(),
{
    if lines.len() == 0 {
        st
    } else {
        apply_line(apply_lines(st, lines.drop_last()), lines.last())
    }
}

/// A settings text applied to `c`, line by line.
pub open spec fn apply_text(c: Config, s: Seq<char>) -> Loaded {
    apply_lines((c, Seq::empty()), split_all(s, '\n'))
}

impl Config {
    /// Sets the setting `k` from the text `s[lo..hi]`, as the settings file
    /// gives it; a text that does not read as a value leaves the setting as it is.
    pub fn apply_value(&mut self, k: Key, s: &Vec<char>, lo: usize, hi: usize)
        requires
            lo <= hi <= s.len(),
        ensures
            *final(self) == apply_value(*old(self), k, s@.subrange(lo as int, hi as int)),
    {
        match k {
            Key::HighlightFill => if let Some(x) = rgba_in(s, lo, hi) {
                self.highlight_fill = x;
            },
            Key::HighlightRing => if let Some(x) = rgba_in(s, lo, hi) {
                self.highlight_ring = x;
            },
            Key::LeftColor => if let Some(x) = rgba_in(s, lo, hi) {
                self.left_color = x;
            },
            Key::RightColor => if let Some(x) = rgba_in(s, lo, hi) {
                self.right_color = x;
            },
            Key::MiddleColor => if let Some(x) = rgba_in(s, lo, hi) {
                self.middle_color = x;
            },
            Key::DoubleColor => if let Some(x) = rgba_in(s, lo, hi) {
                self.double_color = x;
            },
            Key::ScrollColor => if let Some(x) = rgba_in(s, lo, hi) {
                self.scroll_color = x;
            },
            Key::DragColor => if let Some(x) = rgba_in(s, lo, hi) {
                self.drag_color = x;
            },
            Key::ShowScroll => self.show_scroll = range_is(s, lo, hi, "true"),
            Key::ShowDrag => self.show_drag = range_is(s, lo, hi, "true"),
            Key::SpotlightEnabled => self.spotlight_enabled = range_is(s, lo, hi, "true"),
            Key::SpotlightDim => if let Some(x) = parse_u8(s, lo, hi) {
                self.spotlight_dim = x;
            },
            Key::KeyFontPx => if let Some(x) = parse_i32(s, lo, hi) {
                self.key_font_px = x;
            },
            Key::KeyBg => if let Some(x) = rgba_in(s, lo, hi) {
                self.key_bg = x;
            },
            Key::KeyTextColor => if let Some(x) = rgba_in(s, lo, hi) {
                self.key_text_color = x;
            },
            Key::KeyMarginBottom => if let Some(x) = parse_i32(s, lo, hi) {
                self.key_margin_bottom = x;
            },
            Key::KeyPadding => if let Some(p) = pair_in(s, lo, hi) {
                self.key_padding = p;
            },
            Key::KeyPos => if let Some(x) = parse_i32(s, lo, hi) {
                self.key_pos = x;
            },
            Key::KeyX => if let Some(x) = parse_i32(s, lo, hi) {
                self.key_x = x;
            },
            Key::KeyY => if let Some(x) = parse_i32(s, lo, hi) {
                self.key_y = x;
            },
            Key::ShowAllKeys => self.show_all_keys = range_is(s, lo, hi, "true"),
            Key::KeyStack => self.key_stack = range_is(s, lo, hi, "true"),
            Key::KeyGap => if let Some(x) = parse_i32(s, lo, hi) {
                self.key_gap = x;
            },
            Key::KeyMax => if let Some(x) = parse_usize(s, lo, hi) {
                self.key_max = x;
            },
            _ => {},
        }
        proof {
            reveal_strlit("true");
        }
    }


    fn apply_line(&mut self, s: &Vec<char>, lo: usize, hi: usize, floats: &mut Vec<FloatSetting>)
        requires
            lo <= hi <= s.len(),
        ensures
            (*final(self), float_settings(final(floats)@)) == apply_line(
                (*old(self), float_settings(old(floats)@)),
                s@.subrange(lo as int, hi as int),
            ),
    {
        let ghost line = s@.subrange(lo as int, hi as int);
        let (a, b) = trim_range(s, lo, hi);
        let ghost t = s@.subrange(a as int, b as int);
        if a == b {
            return;
        }
        assert(t[0] == s@[a as int]);
        if s[a] == '#' {
            return;
        }
        match find_char(s, a, b, '=') {
            None => {
                proof {
                    crate::text::lemma_split_once_of_find(t, '=', None);
                }
            },
            Some(e) => {
                proof {
                    crate::text::lemma_split_once_of_find(t, '=', Some((e - a) as int));
                }
                assert(t.take(e - a) =~= s@.subrange(a as int, e as int));
                assert(t.skip(e - a + 1) =~= s@.subrange(e + 1, b as int));
                let (ka, kb) = trim_range(s, a, e);
                let (va, vb) = trim_range(s, e + 1, b);
                match key_in(s, ka, kb) {
                    None => {},
                    Some(k) => {
                        if is_float_key(k) {
                            let ghost before = floats@;
                            let value = string_of(s, va, vb);
                            floats.push(FloatSetting { key: k, value });
                            assert(float_settings(floats@) =~= float_settings(before).push(
                                (k, s@.subrange(va as int, vb as int)),
                            ));
                        } else {
                            self.apply_value(k, s, va, vb);
                        }
                    },
                }
            },
        }
    }

    /// Reads a settings text over these settings. Each line of the form
    /// `name = value` sets the named setting; a value that does not read as one
    /// leaves the setting as it was, and other lines are passed over. The
    /// floating-point settings are not set here: they come back, in the order of
    /// the text, with their trimmed value texts.
    pub fn apply_toml(&mut self, s: &str) -> (floats: Vec<FloatSetting>)
        ensures
            (*final(self), float_settings(floats@)) == apply_text(*old(self), s@),
    {
        let chars = chars_of(s);
        let n = chars.len();
        let mut floats: Vec<FloatSetting> = Vec::new();
        let mut start: usize = 0;
        let mut i: usize = 0;
        let ghost c0 = *self;
        let ghost mut done: Seq<Seq<char>> = Seq::empty();
        assert(chars@.take(0) =~= Seq::<char>::empty());
        assert(float_settings(floats@) =~= Seq::<(Key, Seq<char>)>::empty());
        while i < n
            invariant
                start <= i <= n,
                n == chars@.len(),
                chars@ == s@,
                split_all(chars@.take(i as int), '\n') == done.push(
                    chars@.subrange(start as int, i as int),
                ),
                (*self, float_settings(floats@)) == apply_lines((c0, Seq::empty()), done),
            decreases n - i,
        {
            assert(chars@.take(i + 1).drop_last() =~= chars@.take(i as int));
            assert(chars@.take(i + 1).last() == chars@[i as int]);
            if chars[i] == '\n' {
                self.apply_line(&chars, start, i, &mut floats);
                let ghost done2 = done.push(chars@.subrange(start as int, i as int));
                assert(done2.drop_last() =~= done);
                proof {
                    done = done2;
                }
                assert(chars@.subrange(i + 1, i + 1) =~= Seq::<char>::empty());
                start = i + 1;
            } else {
                assert(chars@.subrange(start as int, i + 1) =~= chars@.subrange(
                    start as int,
                    i as int,
                ).push(chars@[i as int]));
            }
            i = i + 1;
        }
        assert(chars@.take(n as int) =~= chars@);
        self.apply_line(&chars, start, n, &mut floats);
        let ghost all = done.push(chars@.subrange(start as int, n as int));
        assert(all.drop_last() =~= done);
        floats
    }
}

// ------------------------------------------------------------------
// Writing a settings text
// ------------------------------------------------------------------

pub open spec fn comma() -> Seq<char> {
    seq![',']
}

pub open spec fn rgba_text(c: Rgba) -> Seq<char> {
    int_text(c.0 as int) + comma() + int_text(c.1 as int) + comma() + int_text(c.2 as int)
        + comma() + int_text(c.3 as int)
}

pub open spec fn pair_text(p: (i32, i32)) -> Seq<char> {
    int_text(p.0 as int) + comma() + int_text(p.1 as int)
}

pub open spec fn bool_text(b: bool) -> Seq<char> {
    if b {
        "true"@
    } else {
        "false"@
    }
}

/// The text that the settings file holds for the setting `k`.
pub open spec fn value_text(c: Config, ft: FloatTexts, k: Key) -> Seq<char> {
    match k {
        Key::HighlightRadius => ft.highlight_radius@,
        Key::HighlightFill => rgba_text(c.highlight_fill),
        Key::HighlightRing => rgba_text(c.highlight_ring),
        Key::RingThickness => ft.ring_thickness@,
        Key::RippleLifetimeMs => ft.ripple_lifetime_ms@,
        Key::RippleStartR => ft.ripple_start_r@,
        Key::RippleEndR => ft.ripple_end_r@,
        Key::RippleThickness => ft.ripple_thickness@,
        Key::LeftColor => rgba_text(c.left_color),
        Key::RightColor => rgba_text(c.right_color),
        Key::MiddleColor => rgba_text(c.middle_color),
        Key::DoubleColor => rgba_text(c.double_color),
        Key::ScrollColor => rgba_text(c.scroll_color),
        Key::DragColor => rgba_text(c.drag_color),
        Key::ShowScroll => bool_text(c.show_scroll),
        Key::ShowDrag => bool_text(c.show_drag),
        Key::DragDotRadius => ft.drag_dot_radius@,
        Key::DragLifetimeMs => ft.drag_lifetime_ms@,
        Key::ScrollLifetimeMs => ft.scroll_lifetime_ms@,
        Key::SpotlightEnabled => bool_text(c.spotlight_enabled),
        Key::SpotlightRadius => ft.spotlight_radius@,
        Key::SpotlightDim => int_text(c.spotlight_dim as int),
        Key::SpotlightFeather => ft.spotlight_feather@,
        Key::KeyFontPx => int_text(c.key_font_px as int),
        Key::KeyBg => rgba_text(c.key_bg),
        Key::KeyTextColor => rgba_text(c.key_text_color),
        Key::KeyLifetimeMs => ft.key_lifetime_ms@,
        Key::KeyFadeMs => ft.key_fade_ms@,
        Key::KeyMarginBottom => int_text(c.key_margin_bottom as int),
        Key::KeyPadding => pair_text(c.key_padding),
        Key::KeyRadius => ft.key_radius@,
        Key::KeyPos => int_text(c.key_pos as int),
        Key::KeyX => int_text(c.key_x as int),
        Key::KeyY => int_text(c.key_y as int),
        Key::ShowAllKeys => bool_text(c.show_all_keys),
        Key::KeyStack => bool_text(c.key_stack),
        Key::KeyGap => int_text(c.key_gap as int),
        Key::KeyMax => int_text(c.key_max as int),
    }
}


/// The line `name = value` for the setting `k`, without its line end.
pub open spec fn key_line(c: Config, ft: FloatTexts, k: Key) -> Seq<char> {
    name_of(k) + seq![' ', '=', ' '] + value_text(c, ft, k)
}

pub open spec fn header() -> Seq<char> {
    "# MouseSpot config"@
}

/// The lines of the first `n` settings in file order, each ended by a line end.
pub open spec fn lines_text(c: Config, ft: FloatTexts, n: nat) -> Seq<char>
    decreases n,
{
    if n == 0 {
        Seq::empty()
    } else {
        lines_text(c, ft, (n - 1) as nat) + key_line(c, ft, key_at(n - 1)) + seq!['\n']
    }
}

/// The saved settings text: a comment line, then one line per setting in file order.
pub open spec fn toml_text(c: Config, ft: FloatTexts) -> Seq<char> {
    header() + seq!['\n'] + lines_text(c, ft, KEY_COUNT as nat)
}

fn push_rgba(out: &mut Vec<char>, c: Rgba)
    ensures
        final(out)@ == old(out)@ + rgba_text(c),
{
    let ghost o = out@;
    push_int(out, c.0 as i64);
    out.push(',');
    push_int(out, c.1 as i64);
    out.push(',');
    push_int(out, c.2 as i64);
    out.push(',');
    push_int(out, c.3 as i64);
    assert(out@ =~= o + rgba_text(c));
}

fn push_pair(out: &mut Vec<char>, p: (i32, i32))
    ensures
        final(out)@ == old(out)@ + pair_text(p),
{
    let ghost o = out@;
    push_int(out, p.0 as i64);
    out.push(',');
    push_int(out, p.1 as i64);
    assert(out@ =~= o + pair_text(p));
}

fn push_bool(out: &mut Vec<char>, b: bool)
    ensures
        final(out)@ == old(out)@ + bool_text(b),
{
    if b {
        push_str(out, "true");
    } else {
        push_str(out, "false");
    }
}

fn push_value(out: &mut Vec<char>, c: &Config, ft: &FloatTexts, k: Key)
    ensures
        final(out)@ == old(out)@ + value_text(*c, *ft, k),
{
    match k {
        Key::HighlightRadius => push_str(out, ft.highlight_radius.as_str()),
        Key::HighlightFill => push_rgba(out, c.highlight_fill),
        Key::HighlightRing => push_rgba(out, c.highlight_ring),
        Key::RingThickness => push_str(out, ft.ring_thickness.as_str()),
        Key::RippleLifetimeMs => push_str(out, ft.ripple_lifetime_ms.as_str()),
        Key::RippleStartR => push_str(out, ft.ripple_start_r.as_str()),
        Key::RippleEndR => push_str(out, ft.ripple_end_r.as_str()),
        Key::RippleThickness => push_str(out, ft.ripple_thickness.as_str()),
        Key::LeftColor => push_rgba(out, c.left_color),
        Key::RightColor => push_rgba(out, c.right_color),
        Key::MiddleColor => push_rgba(out, c.middle_color),
        Key::DoubleColor => push_rgba(out, c.double_color),
        Key::ScrollColor => push_rgba(out, c.scroll_color),
        Key::DragColor => push_rgba(out, c.drag_color),
        Key::ShowScroll => push_bool(out, c.show_scroll),
        Key::ShowDrag => push_bool(out, c.show_drag),
        Key::DragDotRadius => push_str(out, ft.drag_dot_radius.as_str()),
        Key::DragLifetimeMs => push_str(out, ft.drag_lifetime_ms.as_str()),
        Key::ScrollLifetimeMs => push_str(out, ft.scroll_lifetime_ms.as_str()),
        Key::SpotlightEnabled => push_bool(out, c.spotlight_enabled),
        Key::SpotlightRadius => push_str(out, ft.spotlight_radius.as_str()),
        Key::SpotlightDim => push_int(out, c.spotlight_dim as i64),
        Key::SpotlightFeather => push_str(out, ft.spotlight_feather.as_str()),
        Key::KeyFontPx => push_int(out, c.key_font_px as i64),
        Key::KeyBg => push_rgba(out, c.key_bg),
        Key::KeyTextColor => push_rgba(out, c.key_text_color),
        Key::KeyLifetimeMs => push_str(out, ft.key_lifetime_ms.as_str()),
        Key::KeyFadeMs => push_str(out, ft.key_fade_ms.as_str()),
        Key::KeyMarginBottom => push_int(out, c.key_margin_bottom as i64),
        Key::KeyPadding => push_pair(out, c.key_padding),
        Key::KeyRadius => push_str(out, ft.key_radius.as_str()),
        Key::KeyPos => push_int(out, c.key_pos as i64),
        Key::KeyX => push_int(out, c.key_x as i64),
        Key::KeyY => push_int(out, c.key_y as i64),
        Key::ShowAllKeys => push_bool(out, c.show_all_keys),
        Key::KeyStack => push_bool(out, c.key_stack),
        Key::KeyGap => push_int(out, c.key_gap as i64),
        Key::KeyMax => crate::text::push_decimal(out, c.key_max as u64),
    }
}


impl Config {
    /// The settings text that saves these settings, with the floating-point
    /// settings written as the texts `ft` gives for them.
    pub fn to_toml(&self, ft: &FloatTexts) -> (r: String)
        ensures
            r@ == toml_text(*self, *ft),
    {
        let mut out: Vec<char> = Vec::new();
        push_str(&mut out, "# MouseSpot config");
        out.push('\n');
        let mut i: usize = 0;
        while i < KEY_COUNT
            invariant
                i <= KEY_COUNT,
                out@ == header() + seq!['\n'] + lines_text(*self, *ft, i as nat),
            decreases KEY_COUNT - i,
        {
            let k = key_at_exec(i);
            let ghost before = out@;
            push_str(&mut out, key_name(k));
            push_str(&mut out, " = ");
            push_value(&mut out, self, ft, k);
            out.push('\n');
            proof {
                reveal_strlit(" = ");
                assert(out@ =~= before + key_line(*self, *ft, k) + seq!['\n']);
            }
            i = i + 1;
        }
        let n = out.len();
        assert(out@.subrange(0, n as int) =~= out@);
        string_of(&out, 0, n)
    }
}

/// `x` with the setting `k` taken from `c`.
pub open spec fn copy_key(x: Config, c: Config, k: Key) -> Config {
    match k {
        Key::HighlightFill => Config { highlight_fill: c.highlight_fill, ..x },
        Key::HighlightRing => Config { highlight_ring: c.highlight_ring, ..x },
        Key::LeftColor => Config { left_color: c.left_color, ..x },
        Key::RightColor => Config { right_color: c.right_color, ..x },
        Key::MiddleColor => Config { middle_color: c.middle_color, ..x },
        Key::DoubleColor => Config { double_color: c.double_color, ..x },
        Key::ScrollColor => Config { scroll_color: c.scroll_color, ..x },
        Key::DragColor => Config { drag_color: c.drag_color, ..x },
        Key::ShowScroll => Config { show_scroll: c.show_scroll, ..x },
        Key::ShowDrag => Config { show_drag: c.show_drag, ..x },
        Key::SpotlightEnabled => Config { spotlight_enabled: c.spotlight_enabled, ..x },
        Key::SpotlightDim => Config { spotlight_dim: c.spotlight_dim, ..x },
        Key::KeyFontPx => Config { key_font_px: c.key_font_px, ..x },
        Key::KeyBg => Config { key_bg: c.key_bg, ..x },
        Key::KeyTextColor => Config { key_text_color: c.key_text_color, ..x },
        Key::KeyMarginBottom => Config { key_margin_bottom: c.key_margin_bottom, ..x },
        Key::KeyPadding => Config { key_padding: c.key_padding, ..x },
        Key::KeyPos => Config { key_pos: c.key_pos, ..x },
        Key::KeyX => Config { key_x: c.key_x, ..x },
        Key::KeyY => Config { key_y: c.key_y, ..x },
        Key::ShowAllKeys => Config { show_all_keys: c.show_all_keys, ..x },
        Key::KeyStack => Config { key_stack: c.key_stack, ..x },
        Key::KeyGap => Config { key_gap: c.key_gap, ..x },
        Key::KeyMax => Config { key_max: c.key_max, ..x },
        _ => x,
    }
}


} // verus!
