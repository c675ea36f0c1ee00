//! Reading back a saved settings text gives back the saved settings.
use vstd::prelude::*;

use crate::config::{
    apply_line, apply_lines, apply_setting, apply_text, apply_value, bool_text, comma, copy_key,
    float_text, header, is_float, key_at, key_line, key_of, lemma_key_of_name, lemma_plain_name,
    index_of, lines_text, name_of, numbers_in, pair_of, pair_text, plain_name, rgba_of, rgba_text,
    toml_text, true_text, value_text, Config, FloatTexts, Key, Loaded, Rgba, KEY_COUNT,
};
use crate::text::{
    first_at, int_text, is_space, lacks, lemma_parse_int_text, lemma_split_once_at,
    lemma_trim_end_no_space, lemma_trim_fixed, lemma_trim_start_no_space, no_space, parse_int,
    split_all, split_once, trim, trim_end, trim_start,
};

verus! {

/// `x` with the first `n` settings in file order taken from `c`.
pub open spec fn assign_upto(x: Config, c: Config, n: nat) -> Config
    decreases n,
{
    if n == 0 {
        x
    } else {
        copy_key(assign_upto(x, c, (n - 1) as nat), c, key_at(n - 1))
    }
}

/// The floating-point settings among the first `n` settings in file order,
/// each with its text.
pub open spec fn saved_floats(ft: FloatTexts, n: nat) -> Seq<(Key, Seq<char>)>
    decreases n,
{
    if n == 0 {
        Seq::empty()
    } else {
        let prev = saved_floats(ft, (n - 1) as nat);
        let k = key_at(n - 1);
        if is_float(k) {
            prev.push((k, float_text(ft, k)))
        } else {
            prev
        }
    }
}

/// The texts of the floating-point settings are single-line and trimmed.
pub open spec fn float_texts_ok(ft: FloatTexts) -> bool {
    forall|k: Key|
        is_float(k) ==> lacks(#[trigger] float_text(ft, k), '\n') && trim(float_text(ft, k))
            == float_text(ft, k)
}

spec fn key_lines(c: Config, ft: FloatTexts, n: nat) -> Seq<Seq<char>>
    decreases n,
{
    if n == 0 {
        Seq::empty()
    } else {
        key_lines(c, ft, (n - 1) as nat).push(key_line(c, ft, key_at(n - 1)))
    }
}

// ------------------------------------------------------------------
// Splitting
// ------------------------------------------------------------------

proof fn lemma_split_append(p: Seq<char>, l: Seq<char>, sep: char)
    requires
        lacks(l, sep),
    ensures
        split_all(p, sep).len() >= 1,
        split_all(p + l, sep) == split_all(p, sep).update(
            split_all(p, sep).len() - 1,
            split_all(p, sep).last() + l,
        ),
    decreases l.len(),
{
    crate::text::lemma_split_all_nonempty(p, sep);
    let s = split_all(p, sep);
    if l.len() == 0 {
        assert(p + l =~= p);
        assert(s.last() + l =~= s.last());
        assert(s.update(s.len() - 1, s.last()) =~= s);
    } else {
        let l0 = l.drop_last();
        assert(lacks(l0, sep)) by {
            assert forall|i: int| 0 <= i < l0.len() implies #[trigger] l0[i] != sep by {
                assert(l0[i] == l[i]);
            }
        }
        lemma_split_append(p, l0, sep);
        assert((p + l).drop_last() =~= p + l0);
        assert((p + l).last() == l.last());
        crate::text::lemma_split_all_nonempty(p + l0, sep);
        let s0 = split_all(p + l0, sep);
        assert(s0.last() == s.last() + l0);
        assert(s0.last().push(l.last()) =~= s.last() + l);
        assert(split_all(p + l, sep) =~= s.update(s.len() - 1, s.last() + l));
    }
}

proof fn lemma_split_plain(l: Seq<char>, sep: char)
    requires
        lacks(l, sep),
    ensures
        split_all(l, sep) == seq![l],
{
    lemma_split_append(Seq::empty(), l, sep);
    assert(Seq::<char>::empty() + l =~= l);
    assert(split_all(Seq::<char>::empty(), sep) =~= seq![Seq::<char>::empty()]);
    assert(Seq::<char>::empty() + l =~= l);
    assert(seq![Seq::<char>::empty()].update(0, l) =~= seq![l]);
}

proof fn lemma_split_sep(p: Seq<char>, q: Seq<char>, sep: char)
    requires
        lacks(q, sep),
    ensures
        split_all(p + seq![sep] + q, sep) == split_all(p, sep).push(q),
{
    let ps = p + seq![sep];
    assert(ps.drop_last() =~= p);
    assert(ps.last() == sep);
    let s = split_all(ps, sep);
    assert(s == split_all(p, sep).push(Seq::empty()));
    lemma_split_append(ps, q, sep);
    assert(Seq::<char>::empty() + q =~= q);
    assert(s.update(s.len() - 1, s.last() + q) =~= split_all(p, sep).push(q));
}

// ------------------------------------------------------------------
// Values
// ------------------------------------------------------------------

/// A text that is single-line, has no white space at either end and is not empty.
spec fn solid(v: Seq<char>) -> bool {
    &&& v.len() > 0
    &&& !is_space(v[0])
    &&& !is_space(v.last())
    &&& lacks(v, '\n')
}

proof fn lemma_no_space_solid(v: Seq<char>)
    requires
        v.len() > 0,
        no_space(v),
        lacks(v, '\n'),
    ensures
        solid(v),
{
    assert(!is_space(v[v.len() - 1]));
}

proof fn lemma_concat_lacks(a: Seq<char>, b: Seq<char>, c: char)
    requires
        lacks(a, c),
        lacks(b, c),
    ensures
        lacks(a + b, c),
{
    assert forall|i: int| 0 <= i < (a + b).len() implies #[trigger] (a + b)[i] != c by {
        if i < a.len() {
            assert((a + b)[i] == a[i]);
        } else {
            assert((a + b)[i] == b[i - a.len()]);
        }
    }
}

proof fn lemma_concat_no_space(a: Seq<char>, b: Seq<char>)
    requires
        no_space(a),
        no_space(b),
    ensures
        no_space(a + b),
{
    assert forall|i: int| 0 <= i < (a + b).len() implies !is_space(#[trigger] (a + b)[i]) by {
        if i < a.len() {
            assert((a + b)[i] == a[i]);
        } else {
            assert((a + b)[i] == b[i - a.len()]);
        }
    }
}

proof fn lemma_comma()
    ensures
        no_space(comma()),
        lacks(comma(), '\n'),
{
}

/// A number of a list, written and read back.
proof fn lemma_piece(i: int, lo: int, hi: int)
    requires
        lo <= i <= hi,
    ensures
        trim(int_text(i)) == int_text(i),
        parse_int(trim(int_text(i)), lo, hi) == Some(i),
        lacks(int_text(i), ','),
        lacks(int_text(i), '\n'),
        no_space(int_text(i)),
        int_text(i).len() > 0,
{
    lemma_parse_int_text(i, lo, hi);
    let t = int_text(i);
    assert(!is_space(t[0]));
    assert(!is_space(t[t.len() - 1]));
    lemma_trim_fixed(t);
}

proof fn lemma_rgba(col: Rgba)
    ensures
        rgba_of(rgba_text(col)) == Some(col),
        no_space(rgba_text(col)),
        lacks(rgba_text(col), '\n'),
        rgba_text(col).len() > 0,
{
    let a = int_text(col.0 as int);
    let b = int_text(col.1 as int);
    let c = int_text(col.2 as int);
    let d = int_text(col.3 as int);
    lemma_piece(col.0 as int, 0, 255);
    lemma_piece(col.1 as int, 0, 255);
    lemma_piece(col.2 as int, 0, 255);
    lemma_piece(col.3 as int, 0, 255);
    lemma_comma();
    assert(comma() == seq![',']);
    lemma_split_plain(a, ',');
    lemma_split_sep(a, b, ',');
    lemma_split_sep(a + comma() + b, c, ',');
    lemma_split_sep(a + comma() + b + comma() + c, d, ',');
    let pieces = seq![a, b, c, d];
    assert(split_all(rgba_text(col), ',') =~= pieces);
    assert(pieces.drop_last() =~= seq![a, b, c]);
    assert(seq![a, b, c].drop_last() =~= seq![a, b]);
    assert(seq![a, b].drop_last() =~= seq![a]);
    assert(seq![a].drop_last() =~= Seq::<Seq<char>>::empty());
    assert(numbers_in(Seq::empty(), 0, 255) == Seq::<int>::empty());
    assert(numbers_in(seq![a], 0, 255) =~= seq![col.0 as int]);
    assert(numbers_in(seq![a, b], 0, 255) =~= seq![col.0 as int, col.1 as int]);
    assert(numbers_in(seq![a, b, c], 0, 255) =~= seq![col.0 as int, col.1 as int, col.2 as int]);
    assert(numbers_in(pieces, 0, 255) =~= seq![
        col.0 as int,
        col.1 as int,
        col.2 as int,
        col.3 as int,
    ]);
    lemma_concat_no_space(a, comma());
    lemma_concat_no_space(a + comma(), b);
    lemma_concat_no_space(a + comma() + b, comma());
    lemma_concat_no_space(a + comma() + b + comma(), c);
    lemma_concat_no_space(a + comma() + b + comma() + c, comma());
    lemma_concat_no_space(a + comma() + b + comma() + c + comma(), d);
    lemma_concat_lacks(a, comma(), '\n');
    lemma_concat_lacks(a + comma(), b, '\n');
    lemma_concat_lacks(a + comma() + b, comma(), '\n');
    lemma_concat_lacks(a + comma() + b + comma(), c, '\n');
    lemma_concat_lacks(a + comma() + b + comma() + c, comma(), '\n');
    lemma_concat_lacks(a + comma() + b + comma() + c + comma(), d, '\n');
}

proof fn lemma_pair(p: (i32, i32))
    ensures
        pair_of(pair_text(p)) == Some(p),
        no_space(pair_text(p)),
        lacks(pair_text(p), '\n'),
        pair_text(p).len() > 0,
{
    let a = int_text(p.0 as int);
    let b = int_text(p.1 as int);
    lemma_piece(p.0 as int, i32::MIN as int, i32::MAX as int);
    lemma_piece(p.1 as int, i32::MIN as int, i32::MAX as int);
    lemma_comma();
    assert(comma() == seq![',']);
    lemma_split_plain(a, ',');
    lemma_split_sep(a, b, ',');
    let pieces = seq![a, b];
    assert(split_all(pair_text(p), ',') =~= pieces);
    assert(pieces.drop_last() =~= seq![a]);
    assert(seq![a].drop_last() =~= Seq::<Seq<char>>::empty());
    assert(numbers_in(Seq::empty(), i32::MIN as int, i32::MAX as int) == Seq::<int>::empty());
    assert(numbers_in(seq![a], i32::MIN as int, i32::MAX as int) =~= seq![p.0 as int]);
    assert(numbers_in(pieces, i32::MIN as int, i32::MAX as int) =~= seq![p.0 as int, p.1 as int]);
    lemma_concat_no_space(a, comma());
    lemma_concat_no_space(a + comma(), b);
    lemma_concat_lacks(a, comma(), '\n');
    lemma_concat_lacks(a + comma(), b, '\n');
}

proof fn lemma_bool(b: bool)
    ensures
        (bool_text(b) == true_text()) == b,
        no_space(bool_text(b)),
        lacks(bool_text(b), '\n'),
        bool_text(b).len() > 0,
{
    reveal_strlit("true");
    reveal_strlit("false");
    assert("true"@.len() == 4);
    assert("false"@.len() == 5);
}

/// A setting that is no float, written and read back.
proof fn lemma_value(x: Config, c: Config, ft: FloatTexts, k: Key)
    requires
        !is_float(k),
    ensures
        solid(value_text(c, ft, k)),
        apply_value(x, k, value_text(c, ft, k)) == copy_key(x, c, k),
{
    let v = value_text(c, ft, k);
    match k {
        Key::HighlightFill => lemma_rgba(c.highlight_fill),
        Key::HighlightRing => lemma_rgba(c.highlight_ring),
        Key::LeftColor => lemma_rgba(c.left_color),
        Key::RightColor => lemma_rgba(c.right_color),
        Key::MiddleColor => lemma_rgba(c.middle_color),
        Key::DoubleColor => lemma_rgba(c.double_color),
        Key::ScrollColor => lemma_rgba(c.scroll_color),
        Key::DragColor => lemma_rgba(c.drag_color),
        Key::KeyBg => lemma_rgba(c.key_bg),
        Key::KeyTextColor => lemma_rgba(c.key_text_color),
        Key::ShowScroll => lemma_bool(c.show_scroll),
        Key::ShowDrag => lemma_bool(c.show_drag),
        Key::SpotlightEnabled => lemma_bool(c.spotlight_enabled),
        Key::ShowAllKeys => lemma_bool(c.show_all_keys),
        Key::KeyStack => lemma_bool(c.key_stack),
        Key::SpotlightDim => lemma_piece(c.spotlight_dim as int, 0, 255),
        Key::KeyFontPx => lemma_piece(c.key_font_px as int, i32::MIN as int, i32::MAX as int),
        Key::KeyMarginBottom => lemma_piece(
            c.key_margin_bottom as int,
            i32::MIN as int,
            i32::MAX as int,
        ),
        Key::KeyPos => lemma_piece(c.key_pos as int, i32::MIN as int, i32::MAX as int),
        Key::KeyX => lemma_piece(c.key_x as int, i32::MIN as int, i32::MAX as int),
        Key::KeyY => lemma_piece(c.key_y as int, i32::MIN as int, i32::MAX as int),
        Key::KeyGap => lemma_piece(c.key_gap as int, i32::MIN as int, i32::MAX as int),
        Key::KeyMax => lemma_piece(c.key_max as int, 0, usize::MAX as int),
        Key::KeyPadding => lemma_pair(c.key_padding),
        _ => {},
    }
    lemma_no_space_solid(v);
}

// ------------------------------------------------------------------
// Lines
// ------------------------------------------------------------------

proof fn lemma_trimmed_ends(t: Seq<char>)
    requires
        trim(t) == t,
        t.len() > 0,
    ensures
        !is_space(t[0]),
        !is_space(t.last()),
{
    lemma_trim_start_len(t);
    lemma_trim_end_len(trim_start(t));
    if is_space(t[0]) {
        lemma_trim_start_len(t.drop_first());
    } else {
        lemma_trim_start_no_space(t);
        if is_space(t.last()) {
            lemma_trim_end_len(t.drop_last());
        }
    }
}

proof fn lemma_trim_start_len(s: Seq<char>)
    ensures
        trim_start(s).len() <= s.len(),
    decreases s.len(),
{
    if s.len() > 0 && is_space(s[0]) {
        lemma_trim_start_len(s.drop_first());
    }
}

proof fn lemma_trim_end_len(s: Seq<char>)
    ensures
        trim_end(s).len() <= s.len(),
    decreases s.len(),
{
    if s.len() > 0 && is_space(s.last()) {
        lemma_trim_end_len(s.drop_last());
    }
}

/// The name part of a line, `name ` before the `=`, trims to the name.
proof fn lemma_name_part(name: Seq<char>)
    requires
        plain_name(name),
    ensures
        trim(name + seq![' ']) == name,
        !is_space(name[0]),
{
    let t = name + seq![' '];
    assert(t[0] == name[0]);
    lemma_trim_start_no_space(t);
    assert(t.drop_last() =~= name);
    assert(is_space(t.last()));
    assert(!is_space(name.last())) by {
        assert(name.last() == name[name.len() - 1]);
    }
    lemma_trim_end_no_space(name);
}

/// The line of a setting, read.
proof fn lemma_line(st: Loaded, c: Config, ft: FloatTexts, k: Key)
    requires
        float_texts_ok(ft),
    ensures
        apply_line(st, key_line(c, ft, k)) == (copy_key(st.0, c, k), if is_float(k) {
            st.1.push((k, float_text(ft, k)))
        } else {
            st.1
        }),
        lacks(key_line(c, ft, k), '\n'),
{
    let name = name_of(k);
    let v = value_text(c, ft, k);
    let line = key_line(c, ft, k);
    lemma_plain_name(k);
    lemma_name_part(name);
    lemma_key_of_name(k);
    let nl = name.len() as int;
    assert(line =~= name + seq![' ', '=', ' '] + v);
    assert(lacks(name, '=') && lacks(name, '\n') && lacks(name, '#')) by {
        assert forall|i: int| 0 <= i < name.len() implies #[trigger] name[i] != '=' && name[i]
            != '\n' && name[i] != '#' by {
            assert(97 <= name[i] as u32 <= 122 || name[i] == '_');
        }
    }
    if is_float(k) {
        assert(v == float_text(ft, k));
    } else {
        lemma_value(st.0, c, ft, k);
    }
    assert(lacks(v, '\n'));
    lemma_concat_lacks(name, seq![' ', '=', ' '], '\n');
    lemma_concat_lacks(name + seq![' ', '=', ' '], v, '\n');
    let key_part = name + seq![' '];
    if v.len() == 0 {
        // `name =`, then nothing
        let t = name + seq![' ', '='];
        assert(line.drop_last() =~= t);
        assert(t[0] == name[0]);
        assert(t.last() == '=');
        lemma_trim_start_no_space(line);
        lemma_trim_end_no_space(t);
        assert(trim(line) == t);
        assert(first_at(t, '=', nl + 1)) by {
            assert forall|i: int| 0 <= i < t.take(nl + 1).len() implies #[trigger] t.take(
                nl + 1,
            )[i] != '=' by {
                if i < nl {
                    assert(t.take(nl + 1)[i] == name[i]);
                }
            }
        }
        lemma_split_once_at(t, '=', nl + 1);
        assert(t.take(nl + 1) =~= key_part);
        assert(t.skip(nl + 2) =~= Seq::<char>::empty());
        assert(trim(Seq::<char>::empty()) == Seq::<char>::empty());
        assert(trim(line)[0] != '#');
        assert(split_once(trim(line), '=') == Some((key_part, Seq::<char>::empty())));
        assert(trim(key_part) == name);
        assert(key_of(trim(key_part)) == Some(k));
        assert(trim(Seq::<char>::empty()) == v);
        assert(apply_line(st, line) == apply_setting(st, k, v));
        if !is_float(k) {
            assert(false);
        }
    } else {
        if is_float(k) {
            lemma_trimmed_ends(v);
        }
        assert(!is_space(v[0]) && !is_space(v.last()));
        assert(line[0] == name[0]);
        assert(line.last() == v.last());
        lemma_trim_fixed(line);
        assert(first_at(line, '=', nl + 1)) by {
            assert forall|i: int| 0 <= i < line.take(nl + 1).len() implies #[trigger] line.take(
                nl + 1,
            )[i] != '=' by {
                if i < nl {
                    assert(line.take(nl + 1)[i] == name[i]);
                }
            }
        }
        lemma_split_once_at(line, '=', nl + 1);
        assert(line.take(nl + 1) =~= key_part);
        let vp = line.skip(nl + 2);
        assert(vp =~= seq![' '] + v);
        assert(vp.drop_first() =~= v);
        lemma_trim_start_no_space(v);
        assert(trim_start(vp) == v);
        lemma_trim_end_no_space(v);
        assert(trim(vp) == v);
        assert(trim(line)[0] != '#');
        assert(split_once(trim(line), '=') == Some((key_part, vp)));
        assert(trim(key_part) == name);
        assert(key_of(trim(key_part)) == Some(k));
        assert(apply_line(st, line) == apply_setting(st, k, v));
    }
    if is_float(k) {
        assert(copy_key(st.0, c, k) == st.0);
    }
}

proof fn lemma_doc_lines(c: Config, ft: FloatTexts, n: nat)
    requires
        float_texts_ok(ft),
    ensures
        split_all(header() + seq!['\n'] + lines_text(c, ft, n), '\n') == seq![header()].add(
            key_lines(c, ft, n),
        ).push(Seq::<char>::empty()),
    decreases n,
{
    reveal_strlit("# MouseSpot config");
    if n == 0 {
        assert(lacks(header(), '\n'));
        lemma_split_plain(header(), '\n');
        lemma_split_sep(header(), Seq::empty(), '\n');
        assert(header() + seq!['\n'] + lines_text(c, ft, n) =~= header() + seq!['\n']
            + Seq::<char>::empty());
        assert(seq![header()].add(key_lines(c, ft, n)) =~= seq![header()]);
    } else {
        let m = (n - 1) as nat;
        lemma_doc_lines(c, ft, m);
        let k = key_at(m as int);
        let l = key_line(c, ft, k);
        lemma_line((c, Seq::empty()), c, ft, k);
        let p = header() + seq!['\n'] + lines_text(c, ft, m);
        lemma_split_append(p, l, '\n');
        let s = split_all(p, '\n');
        assert(s.last() == Seq::<char>::empty());
        assert(Seq::<char>::empty() + l =~= l);
        assert(header() + seq!['\n'] + lines_text(c, ft, n) =~= (p + l) + seq!['\n']);
        let pl = (p + l) + seq!['\n'];
        assert(pl.drop_last() =~= p + l);
        assert(pl.last() == '\n');
        assert(s.update(s.len() - 1, l) =~= seq![header()].add(key_lines(c, ft, n)));
    }
}

proof fn lemma_apply_doc(c0: Config, c: Config, ft: FloatTexts, n: nat)
    requires
        float_texts_ok(ft),
    ensures
        apply_lines((c0, Seq::empty()), seq![header()].add(key_lines(c, ft, n))) == (
            assign_upto(c0, c, n),
            saved_floats(ft, n),
        ),
    decreases n,
{
    reveal_strlit("# MouseSpot config");
    if n == 0 {
        let h = header();
        assert(seq![h].add(key_lines(c, ft, n)) =~= seq![h]);
        assert(seq![h].drop_last() =~= Seq::<Seq<char>>::empty());
        lemma_trim_fixed(h);
        assert(trim(h)[0] == '#');
        let st0: Loaded = (c0, Seq::empty());
        assert(apply_lines(st0, Seq::<Seq<char>>::empty()) == st0);
        assert(apply_line(st0, h) == st0);
        assert(apply_lines(st0, seq![h]) == st0);
    } else {
        let m = (n - 1) as nat;
        lemma_apply_doc(c0, c, ft, m);
        let k = key_at(m as int);
        let all = seq![header()].add(key_lines(c, ft, n));
        assert(all.drop_last() =~= seq![header()].add(key_lines(c, ft, m)));
        assert(all.last() == key_line(c, ft, k));
        lemma_line((assign_upto(c0, c, m), saved_floats(ft, m)), c, ft, k);
        assert(apply_lines((c0, Seq::empty()), all) == apply_line(
            (assign_upto(c0, c, m), saved_floats(ft, m)),
            key_line(c, ft, k),
        ));
    }
}

spec fn agrees_upto(a: Config, c: Config, n: nat) -> bool {
    &&& (index_of(Key::HighlightFill) < n ==> a.highlight_fill == c.highlight_fill)
    &&& (index_of(Key::HighlightRing) < n ==> a.highlight_ring == c.highlight_ring)
    &&& (index_of(Key::LeftColor) < n ==> a.left_color == c.left_color)
    &&& (index_of(Key::RightColor) < n ==> a.right_color == c.right_color)
    &&& (index_of(Key::MiddleColor) < n ==> a.middle_color == c.middle_color)
    &&& (index_of(Key::DoubleColor) < n ==> a.double_color == c.double_color)
    &&& (index_of(Key::ScrollColor) < n ==> a.scroll_color == c.scroll_color)
    &&& (index_of(Key::DragColor) < n ==> a.drag_color == c.drag_color)
    &&& (index_of(Key::ShowScroll) < n ==> a.show_scroll == c.show_scroll)
    &&& (index_of(Key::ShowDrag) < n ==> a.show_drag == c.show_drag)
    &&& (index_of(Key::SpotlightEnabled) < n ==> a.spotlight_enabled == c.spotlight_enabled)
    &&& (index_of(Key::SpotlightDim) < n ==> a.spotlight_dim == c.spotlight_dim)
    &&& (index_of(Key::KeyFontPx) < n ==> a.key_font_px == c.key_font_px)
    &&& (index_of(Key::KeyBg) < n ==> a.key_bg == c.key_bg)
    &&& (index_of(Key::KeyTextColor) < n ==> a.key_text_color == c.key_text_color)
    &&& (index_of(Key::KeyMarginBottom) < n ==> a.key_margin_bottom == c.key_margin_bottom)
    &&& (index_of(Key::KeyPadding) < n ==> a.key_padding == c.key_padding)
    &&& (index_of(Key::KeyPos) < n ==> a.key_pos == c.key_pos)
    &&& (index_of(Key::KeyX) < n ==> a.key_x == c.key_x)
    &&& (index_of(Key::KeyY) < n ==> a.key_y == c.key_y)
    &&& (index_of(Key::ShowAllKeys) < n ==> a.show_all_keys == c.show_all_keys)
    &&& (index_of(Key::KeyStack) < n ==> a.key_stack == c.key_stack)
    &&& (index_of(Key::KeyGap) < n ==> a.key_gap == c.key_gap)
    &&& (index_of(Key::KeyMax) < n ==> a.key_max == c.key_max)
}

#[verifier::rlimit(60)]
proof fn lemma_assign_upto(x: Config, c: Config, n: nat)
    requires
        n <= KEY_COUNT,
    ensures
        agrees_upto(assign_upto(x, c, n), c, n),
    decreases n,
{
    if n > 0 {
        lemma_assign_upto(x, c, (n - 1) as nat);
    }
}

proof fn lemma_assign_all(c0: Config, c: Config)
    ensures
        assign_upto(c0, c, KEY_COUNT as nat) == c,
{
    lemma_assign_upto(c0, c, KEY_COUNT as nat);
}

/// Reading back a saved settings text over any settings `c0` gives back the
/// saved settings `c`, and the texts of the floating-point settings in file
/// order, as long as those texts are single-line and trimmed.
pub proof fn lemma_load_after_save(c0: Config, c: Config, ft: FloatTexts)
    requires
        float_texts_ok(ft),
    ensures
        apply_text(c0, toml_text(c, ft)) == (c, saved_floats(ft, KEY_COUNT as nat)),
{
    let n = KEY_COUNT as nat;
    lemma_doc_lines(c, ft, n);
    let lines = seq![header()].add(key_lines(c, ft, n));
    assert(lines.push(Seq::<char>::empty()).drop_last() =~= lines);
    lemma_apply_doc(c0, c, ft, n);
    assert(trim(Seq::<char>::empty()) == Seq::<char>::empty());
    lemma_assign_all(c0, c);
}

} // verus!
