//! Settings texts applied one after another: later lines override earlier
//! ones, and a text applied a second time changes nothing more.
use vstd::prelude::*;

use crate::config::{
    apply_line, apply_lines, apply_text, apply_value, is_float, key_of, lemma_key_of_name, pair_of,
    rgba_of, Config, Key, Loaded, Rgba,
};
use crate::text::{lemma_split_all_nonempty, parse_int, split_all, split_once, trim};

verus! {

/// The value of one setting, whatever its type.
pub enum Field {
    Color(Rgba),
    Flag(bool),
    Byte(u8),
    Int(i32),
    Pair((i32, i32)),
    Count(usize),
    /// A floating-point setting, which `Config` does not hold.
    Float,
}

/// The value of the setting `k` in `c`.
pub open spec fn field(c: Config, k: Key) -> Field {
    match k {
        Key::HighlightFill => Field::Color(c.highlight_fill),
        Key::HighlightRing => Field::Color(c.highlight_ring),
        Key::LeftColor => Field::Color(c.left_color),
        Key::RightColor => Field::Color(c.right_color),
        Key::MiddleColor => Field::Color(c.middle_color),
        Key::DoubleColor => Field::Color(c.double_color),
        Key::ScrollColor => Field::Color(c.scroll_color),
        Key::DragColor => Field::Color(c.drag_color),
        Key::ShowScroll => Field::Flag(c.show_scroll),
        Key::ShowDrag => Field::Flag(c.show_drag),
        Key::SpotlightEnabled => Field::Flag(c.spotlight_enabled),
        Key::SpotlightDim => Field::Byte(c.spotlight_dim),
        Key::KeyFontPx => Field::Int(c.key_font_px),
        Key::KeyBg => Field::Color(c.key_bg),
        Key::KeyTextColor => Field::Color(c.key_text_color),
        Key::KeyMarginBottom => Field::Int(c.key_margin_bottom),
        Key::KeyPadding => Field::Pair(c.key_padding),
        Key::KeyPos => Field::Int(c.key_pos),
        Key::KeyX => Field::Int(c.key_x),
        Key::KeyY => Field::Int(c.key_y),
        Key::ShowAllKeys => Field::Flag(c.show_all_keys),
        Key::KeyStack => Field::Flag(c.key_stack),
        Key::KeyGap => Field::Int(c.key_gap),
        Key::KeyMax => Field::Count(c.key_max),
        _ => Field::Float,
    }
}

/// Whether the value text `v` sets the setting `k`: it reads as a value of
/// the setting's type (a flag reads any text).
pub open spec fn sets(k: Key, v: Seq<char>) -> bool {
    match k {
        Key::HighlightFill | Key::HighlightRing | Key::LeftColor | Key::RightColor
        | Key::MiddleColor | Key::DoubleColor | Key::ScrollColor | Key::DragColor | Key::KeyBg
        | Key::KeyTextColor => rgba_of(v) is Some,
        Key::ShowScroll | Key::ShowDrag | Key::SpotlightEnabled | Key::ShowAllKeys
        | Key::KeyStack => true,
        Key::SpotlightDim => parse_int(v, 0, 255) is Some,
        Key::KeyFontPx | Key::KeyMarginBottom | Key::KeyPos | Key::KeyX | Key::KeyY
        | Key::KeyGap => parse_int(v, i32::MIN as int, i32::MAX as int) is Some,
        Key::KeyPadding => pair_of(v) is Some,
        Key::KeyMax => parse_int(v, 0, usize::MAX as int) is Some,
        _ => false,
    }
}

/// The setting and value text that a line names, if it names one.
pub open spec fn line_op(line: Seq<char>) -> Option<(Key, Seq<char>)> {
    let t = trim(line);
    if t.len() == 0 || t[0] == '#' {
        None
    } else {
        match split_once(t, '=') {
            None => None,
            Some((k, v)) => match key_of(trim(k)) {
                None => None,
                Some(key) => Some((key, trim(v))),
            },
        }
    }
}

/// What a line does to the settings.
pub open spec fn step(c: Config, op: Option<(Key, Seq<char>)>) -> Config {
    match op {
        Some((k, v)) => apply_value(c, k, v),
        None => c,
    }
}

/// The settings after the lines `lines` are applied to `c`.
pub open spec fn cfg_after(c: Config, lines: Seq<Seq<char>>) -> Config {
    apply_lines((c, Seq::empty()), lines).0
}

/// Whether one of the lines `lines` sets the setting `k`.
pub open spec fn written(lines: Seq<Seq<char>>, k: Key) -> bool
    decreases lines.len(),
{
    if lines.len() == 0 {
        false
    } else {
        written(lines.drop_last(), k) || match line_op(lines.last()) {
            Some((k2, v)) => k2 == k && sets(k2, v),
            None => false,
        }
    }
}

/// Two settings that agree on every setting are the same.
proof fn lemma_fields_equal(x: Config, y: Config)
    requires
        forall|k: Key| field(x, k) == field(y, k),
    ensures
        x == y,
{
    assert(field(x, Key::HighlightFill) == field(y, Key::HighlightFill));
    assert(field(x, Key::HighlightRing) == field(y, Key::HighlightRing));
    assert(field(x, Key::LeftColor) == field(y, Key::LeftColor));
    assert(field(x, Key::RightColor) == field(y, Key::RightColor));
    assert(field(x, Key::MiddleColor) == field(y, Key::MiddleColor));
    assert(field(x, Key::DoubleColor) == field(y, Key::DoubleColor));
    assert(field(x, Key::ScrollColor) == field(y, Key::ScrollColor));
    assert(field(x, Key::DragColor) == field(y, Key::DragColor));
    assert(field(x, Key::ShowScroll) == field(y, Key::ShowScroll));
    assert(field(x, Key::ShowDrag) == field(y, Key::ShowDrag));
    assert(field(x, Key::SpotlightEnabled) == field(y, Key::SpotlightEnabled));
    assert(field(x, Key::SpotlightDim) == field(y, Key::SpotlightDim));
    assert(field(x, Key::KeyFontPx) == field(y, Key::KeyFontPx));
    assert(field(x, Key::KeyBg) == field(y, Key::KeyBg));
    assert(field(x, Key::KeyTextColor) == field(y, Key::KeyTextColor));
    assert(field(x, Key::KeyMarginBottom) == field(y, Key::KeyMarginBottom));
    assert(field(x, Key::KeyPadding) == field(y, Key::KeyPadding));
    assert(field(x, Key::KeyPos) == field(y, Key::KeyPos));
    assert(field(x, Key::KeyX) == field(y, Key::KeyX));
    assert(field(x, Key::KeyY) == field(y, Key::KeyY));
    assert(field(x, Key::ShowAllKeys) == field(y, Key::ShowAllKeys));
    assert(field(x, Key::KeyStack) == field(y, Key::KeyStack));
    assert(field(x, Key::KeyGap) == field(y, Key::KeyGap));
    assert(field(x, Key::KeyMax) == field(y, Key::KeyMax));
}

/// Applying a value touches only its own setting, and a value that sets it
/// sets it to the same thing whatever it held.
proof fn lemma_value_field(c: Config, d: Config, k: Key, v: Seq<char>, j: Key)
    ensures
        sets(k, v) ==> field(apply_value(c, k, v), k) == field(apply_value(d, k, v), k),
        (j != k || !sets(k, v)) ==> field(apply_value(c, k, v), j) == field(c, j),
{
    match k {
        Key::HighlightRadius => {},
        Key::HighlightFill => {},
        Key::HighlightRing => {},
        Key::RingThickness => {},
        Key::RippleLifetimeMs => {},
        Key::RippleStartR => {},
        Key::RippleEndR => {},
        Key::RippleThickness => {},
        Key::LeftColor => {},
        Key::RightColor => {},
        Key::MiddleColor => {},
        Key::DoubleColor => {},
        Key::ScrollColor => {},
        Key::DragColor => {},
        Key::ShowScroll => {},
        Key::ShowDrag => {},
        Key::DragDotRadius => {},
        Key::DragLifetimeMs => {},
        Key::ScrollLifetimeMs => {},
        Key::SpotlightEnabled => {},
        Key::SpotlightRadius => {},
        Key::SpotlightDim => {},
        Key::SpotlightFeather => {},
        Key::KeyFontPx => {},
        Key::KeyBg => {},
        Key::KeyTextColor => {},
        Key::KeyLifetimeMs => {},
        Key::KeyFadeMs => {},
        Key::KeyMarginBottom => {},
        Key::KeyPadding => {},
        Key::KeyRadius => {},
        Key::KeyPos => {},
        Key::KeyX => {},
        Key::KeyY => {},
        Key::ShowAllKeys => {},
        Key::KeyStack => {},
        Key::KeyGap => {},
        Key::KeyMax => {},
    }
}

/// A line changes the settings as its named setting and value say, and adds
/// nothing to them beyond that.
proof fn lemma_line(st: Loaded, line: Seq<char>)
    ensures
        apply_line(st, line).0 == step(st.0, line_op(line)),
        apply_line(st, line).1 == st.1 + apply_line((st.0, Seq::empty()), line).1,
        forall|c: Config| (#[trigger] apply_line((c, Seq::empty()), line)).1 == apply_line(
            (st.0, Seq::empty()),
            line,
        ).1,
{
    assert(st.1 + Seq::<(Key, Seq<char>)>::empty() =~= st.1);
    let e = Seq::<(Key, Seq<char>)>::empty();
    match line_op(line) {
        Some((k, v)) => {
            assert(st.1.push((k, v)) =~= st.1 + e.push((k, v)));
        },
        None => {},
    }
}

/// The settings after some lines depend only on the settings they start from,
/// and the floating-point settings found do not depend on those at all.
proof fn lemma_lines_split(st: Loaded, lines: Seq<Seq<char>>)
    ensures
        apply_lines(st, lines).0 == cfg_after(st.0, lines),
        apply_lines(st, lines).1 == st.1 + apply_lines((st.0, Seq::empty()), lines).1,
        forall|c: Config| (#[trigger] apply_lines((c, Seq::empty()), lines)).1 == apply_lines(
            (st.0, Seq::empty()),
            lines,
        ).1,
    decreases lines.len(),
{
    let e = Seq::<(Key, Seq<char>)>::empty();
    if lines.len() == 0 {
        assert(st.1 + e =~= st.1);
    } else {
        let init = lines.drop_last();
        let last = lines.last();
        lemma_lines_split(st, init);
        let mid = apply_lines(st, init);
        let mid0 = apply_lines((st.0, e), init);
        lemma_lines_split((st.0, e), init);
        lemma_line(mid, last);
        lemma_line(mid0, last);
        assert(e + mid0.1 =~= mid0.1);
        assert(apply_lines(st, lines).1 =~= st.1 + apply_lines((st.0, e), lines).1);
        assert forall|c: Config|
            (#[trigger] apply_lines((c, e), lines)).1 == apply_lines((st.0, e), lines).1 by {
            let midc = apply_lines((c, e), init);
            lemma_lines_split((c, e), init);
            lemma_line(midc, last);
            assert(e + midc.1 =~= midc.1);
        }
    }
}

/// Applying two runs of lines one after the other is applying the joined run.
proof fn lemma_lines_concat(st: Loaded, a: Seq<Seq<char>>, b: Seq<Seq<char>>)
    ensures
        apply_lines(st, a + b) == apply_lines(apply_lines(st, a), b),
    decreases b.len(),
{
    if b.len() == 0 {
        assert(a + b =~= a);
    } else {
        lemma_lines_concat(st, a, b.drop_last());
        assert((a + b).drop_last() =~= a + b.drop_last());
        assert((a + b).last() == b.last());
    }
}

/// Splitting at `c` a text joined by `c` gives the lines of each part, one run
/// after the other.
proof fn lemma_split_concat(s1: Seq<char>, s2: Seq<char>, c: char)
    ensures
        split_all(s1 + seq![c] + s2, c) == split_all(s1, c) + split_all(s2, c),
    decreases s2.len(),
{
    let s = s1 + seq![c] + s2;
    if s2.len() == 0 {
        assert(s.drop_last() =~= s1);
        assert(split_all(s2, c) =~= seq![Seq::<char>::empty()]);
        assert(split_all(s1, c).push(Seq::empty()) =~= split_all(s1, c) + split_all(s2, c));
    } else {
        let t = s2.drop_last();
        lemma_split_concat(s1, t, c);
        assert(s.drop_last() =~= s1 + seq![c] + t);
        assert(s.last() == s2.last());
        let a = split_all(s1, c);
        let b = split_all(t, c);
        lemma_split_all_nonempty(t, c);
        if s2.last() == c {
            assert((a + b).push(Seq::empty()) =~= a + b.push(Seq::empty()));
        } else {
            assert((a + b).last() == b.last());
            assert((a + b).update((a + b).len() - 1, (a + b).last().push(s2.last())) =~= a
                + b.update(b.len() - 1, b.last().push(s2.last())));
        }
    }
}

/// Applying the text `s1`, a line break and `s2` is applying `s1` and then
/// `s2`: the settings are those `s2` leaves of those `s1` leaves, and the
/// floating-point settings found are those of `s1` followed by those of `s2`.
pub proof fn lemma_apply_joined(c: Config, s1: Seq<char>, s2: Seq<char>)
    ensures
        apply_text(c, s1 + seq!['\n'] + s2) == (
            apply_text(apply_text(c, s1).0, s2).0,
            apply_text(c, s1).1 + apply_text(apply_text(c, s1).0, s2).1,
        ),
{
    let e = Seq::<(Key, Seq<char>)>::empty();
    let l1 = split_all(s1, '\n');
    let l2 = split_all(s2, '\n');
    lemma_split_concat(s1, s2, '\n');
    lemma_lines_concat((c, e), l1, l2);
    let mid = apply_lines((c, e), l1);
    lemma_lines_split(mid, l2);
}

/// Where no line sets a setting it keeps its value; where one does, the
/// setting ends the same whatever the lines started from.
proof fn lemma_last_writer(c: Config, d: Config, lines: Seq<Seq<char>>, k: Key)
    ensures
        !written(lines, k) ==> field(cfg_after(c, lines), k) == field(c, k),
        written(lines, k) ==> field(cfg_after(c, lines), k) == field(cfg_after(d, lines), k),
    decreases lines.len(),
{
    if lines.len() > 0 {
        let init = lines.drop_last();
        let last = lines.last();
        let e = Seq::<(Key, Seq<char>)>::empty();
        lemma_last_writer(c, d, init, k);
        let mc = apply_lines((c, e), init);
        let md = apply_lines((d, e), init);
        lemma_lines_split((c, e), init);
        lemma_lines_split((d, e), init);
        lemma_line(mc, last);
        lemma_line(md, last);
        match line_op(last) {
            Some((k2, v)) => {
                lemma_value_field(mc.0, md.0, k2, v, k);
                lemma_value_field(md.0, mc.0, k2, v, k);
            },
            None => {},
        }
    }
}

/// Applying a settings text a second time changes nothing more.
pub proof fn lemma_apply_twice(c: Config, s: Seq<char>)
    ensures
        apply_text(apply_text(c, s).0, s).0 == apply_text(c, s).0,
{
    let lines = split_all(s, '\n');
    let x = cfg_after(c, lines);
    let y = cfg_after(x, lines);
    assert forall|k: Key| field(y, k) == field(x, k) by {
        lemma_last_writer(x, c, lines, k);
    }
    lemma_fields_equal(y, x);
}

/// The settings file's names: each line `name = value` whose name is one of
/// these sets the setting of that name, and only it, from its value when the
/// value reads as one of the setting's type (a flag is on exactly when its
/// value is `true`); the floating-point settings are not held here.
pub proof fn lemma_file_names(c: Config, v: Seq<char>)
    ensures
        key_of("highlight_radius"@) == Some(Key::HighlightRadius),
        is_float(Key::HighlightRadius) && apply_value(c, Key::HighlightRadius, v) == c,
        key_of("highlight_fill"@) == Some(Key::HighlightFill),
        rgba_of(v) is Some ==>
            apply_value(c, Key::HighlightFill, v) == (Config { highlight_fill: rgba_of(v)->0, ..c }),
        key_of("highlight_ring"@) == Some(Key::HighlightRing),
        rgba_of(v) is Some ==>
            apply_value(c, Key::HighlightRing, v) == (Config { highlight_ring: rgba_of(v)->0, ..c }),
        key_of("ring_thickness"@) == Some(Key::RingThickness),
        is_float(Key::RingThickness) && apply_value(c, Key::RingThickness, v) == c,
        key_of("ripple_lifetime_ms"@) == Some(Key::RippleLifetimeMs),
        is_float(Key::RippleLifetimeMs) && apply_value(c, Key::RippleLifetimeMs, v) == c,
        key_of("ripple_start_r"@) == Some(Key::RippleStartR),
        is_float(Key::RippleStartR) && apply_value(c, Key::RippleStartR, v) == c,
        key_of("ripple_end_r"@) == Some(Key::RippleEndR),
        is_float(Key::RippleEndR) && apply_value(c, Key::RippleEndR, v) == c,
        key_of("ripple_thickness"@) == Some(Key::RippleThickness),
        is_float(Key::RippleThickness) && apply_value(c, Key::RippleThickness, v) == c,
        key_of("left_color"@) == Some(Key::LeftColor),
        rgba_of(v) is Some ==>
            apply_value(c, Key::LeftColor, v) == (Config { left_color: rgba_of(v)->0, ..c }),
        key_of("right_color"@) == Some(Key::RightColor),
        rgba_of(v) is Some ==>
            apply_value(c, Key::RightColor, v) == (Config { right_color: rgba_of(v)->0, ..c }),
        key_of("middle_color"@) == Some(Key::MiddleColor),
        rgba_of(v) is Some ==>
            apply_value(c, Key::MiddleColor, v) == (Config { middle_color: rgba_of(v)->0, ..c }),
        key_of("double_color"@) == Some(Key::DoubleColor),
        rgba_of(v) is Some ==>
            apply_value(c, Key::DoubleColor, v) == (Config { double_color: rgba_of(v)->0, ..c }),
        key_of("scroll_color"@) == Some(Key::ScrollColor),
        rgba_of(v) is Some ==>
            apply_value(c, Key::ScrollColor, v) == (Config { scroll_color: rgba_of(v)->0, ..c }),
        key_of("drag_color"@) == Some(Key::DragColor),
        rgba_of(v) is Some ==>
            apply_value(c, Key::DragColor, v) == (Config { drag_color: rgba_of(v)->0, ..c }),
        key_of("show_scroll"@) == Some(Key::ShowScroll),
        apply_value(c, Key::ShowScroll, v) == (Config { show_scroll: v == "true"@, ..c }),
        key_of("show_drag"@) == Some(Key::ShowDrag),
        apply_value(c, Key::ShowDrag, v) == (Config { show_drag: v == "true"@, ..c }),
        key_of("drag_dot_radius"@) == Some(Key::DragDotRadius),
        is_float(Key::DragDotRadius) && apply_value(c, Key::DragDotRadius, v) == c,
        key_of("drag_lifetime_ms"@) == Some(Key::DragLifetimeMs),
        is_float(Key::DragLifetimeMs) && apply_value(c, Key::DragLifetimeMs, v) == c,
        key_of("scroll_lifetime_ms"@) == Some(Key::ScrollLifetimeMs),
        is_float(Key::ScrollLifetimeMs) && apply_value(c, Key::ScrollLifetimeMs, v) == c,
        key_of("spotlight_enabled"@) == Some(Key::SpotlightEnabled),
        apply_value(c, Key::SpotlightEnabled, v) == (Config { spotlight_enabled: v == "true"@, ..c }),
        key_of("spotlight_radius"@) == Some(Key::SpotlightRadius),
        is_float(Key::SpotlightRadius) && apply_value(c, Key::SpotlightRadius, v) == c,
        key_of("spotlight_dim"@) == Some(Key::SpotlightDim),
        parse_int(v, 0, 255) matches Some(x) ==> apply_value(c, Key::SpotlightDim, v).spotlight_dim == x
            && apply_value(c, Key::SpotlightDim, v) == (Config { spotlight_dim: x as u8, ..c }),
        key_of("spotlight_feather"@) == Some(Key::SpotlightFeather),
        is_float(Key::SpotlightFeather) && apply_value(c, Key::SpotlightFeather, v) == c,
        key_of("key_font_px"@) == Some(Key::KeyFontPx),
        parse_int(v, i32::MIN as int, i32::MAX as int) matches Some(x) ==> apply_value(c, Key::KeyFontPx, v).key_font_px == x
            && apply_value(c, Key::KeyFontPx, v) == (Config { key_font_px: x as i32, ..c }),
        key_of("key_bg"@) == Some(Key::KeyBg),
        rgba_of(v) is Some ==>
            apply_value(c, Key::KeyBg, v) == (Config { key_bg: rgba_of(v)->0, ..c }),
        key_of("key_text_color"@) == Some(Key::KeyTextColor),
        rgba_of(v) is Some ==>
            apply_value(c, Key::KeyTextColor, v) == (Config { key_text_color: rgba_of(v)->0, ..c }),
        key_of("key_lifetime_ms"@) == Some(Key::KeyLifetimeMs),
        is_float(Key::KeyLifetimeMs) && apply_value(c, Key::KeyLifetimeMs, v) == c,
        key_of("key_fade_ms"@) == Some(Key::KeyFadeMs),
        is_float(Key::KeyFadeMs) && apply_value(c, Key::KeyFadeMs, v) == c,
        key_of("key_margin_bottom"@) == Some(Key::KeyMarginBottom),
        parse_int(v, i32::MIN as int, i32::MAX as int) matches Some(x) ==> apply_value(c, Key::KeyMarginBottom, v).key_margin_bottom == x
            && apply_value(c, Key::KeyMarginBottom, v) == (Config { key_margin_bottom: x as i32, ..c }),
        key_of("key_padding"@) == Some(Key::KeyPadding),
        pair_of(v) is Some ==>
            apply_value(c, Key::KeyPadding, v) == (Config { key_padding: pair_of(v)->0, ..c }),
        key_of("key_radius"@) == Some(Key::KeyRadius),
        is_float(Key::KeyRadius) && apply_value(c, Key::KeyRadius, v) == c,
        key_of("key_pos"@) == Some(Key::KeyPos),
        parse_int(v, i32::MIN as int, i32::MAX as int) matches Some(x) ==> apply_value(c, Key::KeyPos, v).key_pos == x
            && apply_value(c, Key::KeyPos, v) == (Config { key_pos: x as i32, ..c }),
        key_of("key_x"@) == Some(Key::KeyX),
        parse_int(v, i32::MIN as int, i32::MAX as int) matches Some(x) ==> apply_value(c, Key::KeyX, v).key_x == x
            && apply_value(c, Key::KeyX, v) == (Config { key_x: x as i32, ..c }),
        key_of("key_y"@) == Some(Key::KeyY),
        parse_int(v, i32::MIN as int, i32::MAX as int) matches Some(x) ==> apply_value(c, Key::KeyY, v).key_y == x
            && apply_value(c, Key::KeyY, v) == (Config { key_y: x as i32, ..c }),
        key_of("show_all_keys"@) == Some(Key::ShowAllKeys),
        apply_value(c, Key::ShowAllKeys, v) == (Config { show_all_keys: v == "true"@, ..c }),
        key_of("key_stack"@) == Some(Key::KeyStack),
        apply_value(c, Key::KeyStack, v) == (Config { key_stack: v == "true"@, ..c }),
        key_of("key_gap"@) == Some(Key::KeyGap),
        parse_int(v, i32::MIN as int, i32::MAX as int) matches Some(x) ==> apply_value(c, Key::KeyGap, v).key_gap == x
            && apply_value(c, Key::KeyGap, v) == (Config { key_gap: x as i32, ..c }),
        key_of("key_max"@) == Some(Key::KeyMax),
        parse_int(v, 0, usize::MAX as int) matches Some(x) ==> apply_value(c, Key::KeyMax, v).key_max == x
            && apply_value(c, Key::KeyMax, v) == (Config { key_max: x as usize, ..c }),
{
    lemma_key_of_name(Key::HighlightRadius);
    lemma_key_of_name(Key::HighlightFill);
    lemma_key_of_name(Key::HighlightRing);
    lemma_key_of_name(Key::RingThickness);
    lemma_key_of_name(Key::RippleLifetimeMs);
    lemma_key_of_name(Key::RippleStartR);
    lemma_key_of_name(Key::RippleEndR);
    lemma_key_of_name(Key::RippleThickness);
    lemma_key_of_name(Key::LeftColor);
    lemma_key_of_name(Key::RightColor);
    lemma_key_of_name(Key::MiddleColor);
    lemma_key_of_name(Key::DoubleColor);
    lemma_key_of_name(Key::ScrollColor);
    lemma_key_of_name(Key::DragColor);
    lemma_key_of_name(Key::ShowScroll);
    lemma_key_of_name(Key::ShowDrag);
    lemma_key_of_name(Key::DragDotRadius);
    lemma_key_of_name(Key::DragLifetimeMs);
    lemma_key_of_name(Key::ScrollLifetimeMs);
    lemma_key_of_name(Key::SpotlightEnabled);
    lemma_key_of_name(Key::SpotlightRadius);
    lemma_key_of_name(Key::SpotlightDim);
    lemma_key_of_name(Key::SpotlightFeather);
    lemma_key_of_name(Key::KeyFontPx);
    lemma_key_of_name(Key::KeyBg);
    lemma_key_of_name(Key::KeyTextColor);
    lemma_key_of_name(Key::KeyLifetimeMs);
    lemma_key_of_name(Key::KeyFadeMs);
    lemma_key_of_name(Key::KeyMarginBottom);
    lemma_key_of_name(Key::KeyPadding);
    lemma_key_of_name(Key::KeyRadius);
    lemma_key_of_name(Key::KeyPos);
    lemma_key_of_name(Key::KeyX);
    lemma_key_of_name(Key::KeyY);
    lemma_key_of_name(Key::ShowAllKeys);
    lemma_key_of_name(Key::KeyStack);
    lemma_key_of_name(Key::KeyGap);
    lemma_key_of_name(Key::KeyMax);
}

} // verus!
