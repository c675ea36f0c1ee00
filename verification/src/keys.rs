//! Key strokes: which keys are shown, under which label, and the row of
//! recent keys.
use vstd::prelude::*;

use crate::config::Config;
use crate::text::{decimal, digit_char, push_decimal, push_str, string_of};

verus! {

/// Window message of a key going down.
pub const WM_KEYDOWN: u32 = 0x0100;

/// Window message of a key going down while Alt is held.
pub const WM_SYSKEYDOWN: u32 = 0x0104;

/// The 16-bit virtual-key code that a 32-bit one names.
pub open spec fn vk16(vk: u32) -> int {
    vk as int % 0x1_0000
}

/// Ctrl, Shift, Alt and the Windows keys, left, right or either.
pub open spec fn modifier_key(vk: u32) -> bool {
    let v = vk16(vk);
    ||| v == 0x11
    ||| v == 0xa2
    ||| v == 0xa3
    ||| v == 0x10
    ||| v == 0xa0
    ||| v == 0xa1
    ||| v == 0x12
    ||| v == 0xa4
    ||| v == 0xa5
    ||| v == 0x5b
    ||| v == 0x5c
}

/// Whether the virtual key `vk` is a modifier, which is not shown on its own.
pub fn is_modifier(vk: u32) -> (r: bool)
    ensures
        r == modifier_key(vk),
{
    let v = vk % 0x1_0000;
    v == 0x11 || v == 0xa2 || v == 0xa3 || v == 0x10 || v == 0xa0 || v == 0xa1 || v == 0x12 || v
        == 0xa4 || v == 0xa5 || v == 0x5b || v == 0x5c
}

/// The label of the keys that have a name of their own; empty for the others.
pub open spec fn named_key(v: int) -> Seq<char> {
    if v == 0x20 {
        "Space"@
    } else if v == 0x0d {
        "Enter"@
    } else if v == 0x1b {
        "Esc"@
    } else if v == 0x09 {
        "Tab"@
    } else if v == 0x08 {
        "Backspace"@
    } else if v == 0x2e {
        "Delete"@
    } else if v == 0x2d {
        "Insert"@
    } else if v == 0x24 {
        "Home"@
    } else if v == 0x23 {
        "End"@
    } else if v == 0x21 {
        "PageUp"@
    } else if v == 0x22 {
        "PageDown"@
    } else if v == 0x25 {
        "\u{2190}"@
    } else if v == 0x26 {
        "\u{2191}"@
    } else if v == 0x27 {
        "\u{2192}"@
    } else if v == 0x28 {
        "\u{2193}"@
    } else if v == 0x2c {
        "PrtSc"@
    } else {
        Seq::empty()
    }
}

fn named_key_str(v: u32) -> (r: &'static str)
    requires
        v < 0x1_0000,
    ensures
        r@ == named_key(v as int),
{
    if v == 0x20 {
        "Space"
    } else if v == 0x0d {
        "Enter"
    } else if v == 0x1b {
        "Esc"
    } else if v == 0x09 {
        "Tab"
    } else if v == 0x08 {
        "Backspace"
    } else if v == 0x2e {
        "Delete"
    } else if v == 0x2d {
        "Insert"
    } else if v == 0x24 {
        "Home"
    } else if v == 0x23 {
        "End"
    } else if v == 0x21 {
        "PageUp"
    } else if v == 0x22 {
        "PageDown"
    } else if v == 0x25 {
        "\u{2190}"
    } else if v == 0x26 {
        "\u{2191}"
    } else if v == 0x27 {
        "\u{2192}"
    } else if v == 0x28 {
        "\u{2193}"
    } else if v == 0x2c {
        "PrtSc"
    } else {
        proof {
            reveal_strlit("");
        }
        ""
    }
}

/// A Unicode scalar value: not above U+10FFFF and not a surrogate.
pub open spec fn scalar_value(u: u32) -> bool {
    u <= 0x10ffff && !(0xd800 <= u <= 0xdfff)
}

/// `char::from_u32`: the character with code `u`, `None` where `u` is no
/// Unicode scalar value. The claim: `Some` exactly for scalar values, holding
/// the character of that code.
#[verifier::external_body]
fn char_from_u32(u: u32) -> (r: Option<char>)
    ensures
        r is Some <==> scalar_value(u),
        r matches Some(c) ==> c == u as char,
{
    char::from_u32(u)
}

/// The label of the virtual key `vk`: the letter or digit, `Num0`..`Num9`,
/// `F1`..`F24`, the names of the named keys, or else the printable character
/// `mapped` (what the keyboard layout maps the key to) if it is one.
pub open spec fn key_label(vk: u32, mapped: u32) -> Option<Seq<char>> {
    if (0x41 <= vk <= 0x5a) || (0x30 <= vk <= 0x39) {
        Some(seq![(vk as u8) as char])
    } else if 0x60 <= vk <= 0x69 {
        Some("Num"@ + decimal((vk - 0x60) as nat))
    } else if 0x70 <= vk <= 0x87 {
        Some("F"@ + decimal((vk - 0x70 + 1) as nat))
    } else if named_key(vk16(vk)).len() > 0 {
        Some(named_key(vk16(vk)))
    } else if mapped % 0x8000 >= 0x20 {
        Some(seq![((mapped % 0x8000) as u32) as char])
    } else {
        None
    }
}

/// The label under which the virtual key `vk` is shown, if it has one;
/// `mapped` is the character the keyboard layout maps the key to, consulted
/// only for keys without a label of their own.
pub fn key_name(vk: u32, mapped: u32) -> (r: Option<String>)
    ensures
        match r {
            Some(s) => key_label(vk, mapped) == Some(s@),
            None => key_label(vk, mapped) is None,
        },
{
    if (0x41 <= vk && vk <= 0x5a) || (0x30 <= vk && vk <= 0x39) {
        let c = (vk as u8) as char;
        let v: Vec<char> = vec![c];
        return Some(string_of(&v, 0, 1));
    }
    if 0x60 <= vk && vk <= 0x69 {
        let mut v: Vec<char> = Vec::new();
        push_str(&mut v, "Num");
        push_decimal(&mut v, (vk - 0x60) as u64);
        let n = v.len();
        assert(v@.subrange(0, n as int) =~= v@);
        return Some(string_of(&v, 0, n));
    }
    if 0x70 <= vk && vk <= 0x87 {
        let mut v: Vec<char> = Vec::new();
        push_str(&mut v, "F");
        push_decimal(&mut v, (vk - 0x70 + 1) as u64);
        let n = v.len();
        assert(v@.subrange(0, n as int) =~= v@);
        return Some(string_of(&v, 0, n));
    }
    let named = named_key_str(vk % 0x1_0000);
    let nv = crate::text::chars_of(named);
    if nv.len() > 0 {
        return Some(named.to_owned());
    }
    let ch = mapped % 0x8000;
    if ch >= 0x20 {
        match char_from_u32(ch) {
            Some(c) => {
                let v: Vec<char> = vec![c];
                return Some(string_of(&v, 0, 1));
            },
            None => {
                assert(false);
            },
        }
    }
    None
}

/// The modifier keys held when a key went down.
#[derive(Clone, Copy, Debug)]
pub struct Modifiers {
    pub ctrl: bool,
    pub win: bool,
    pub alt: bool,
    pub shift: bool,
}

/// The labels of the held modifiers, in the order Ctrl, Win, Alt, Shift.
pub open spec fn modifier_parts(m: Modifiers) -> Seq<Seq<char>> {
    (if m.ctrl {
        seq!["Ctrl"@]
    } else {
        Seq::empty()
    }) + (if m.win {
        seq!["Win"@]
    } else {
        Seq::empty()
    }) + (if m.alt {
        seq!["Alt"@]
    } else {
        Seq::empty()
    }) + (if m.shift {
        seq!["Shift"@]
    } else {
        Seq::empty()
    })
}

/// The pieces joined with `sep` between them.
pub open spec fn join(parts: Seq<Seq<char>>, sep: Seq<char>) -> Seq<char>
    decreases parts.len(),
{
    if parts.len() == 0 {
        Seq::empty()
    } else if parts.len() == 1 {
        parts[0]
    } else {
        join(parts.drop_last(), sep) + sep + parts.last()
    }
}

/// What a key stroke shows: the held modifiers and the key's label joined by
/// ` + `, when every key is shown or a modifier is held; nothing otherwise.
pub open spec fn combo_text(m: Modifiers, label: Seq<char>, show_all: bool) -> Option<Seq<char>> {
    let parts = modifier_parts(m);
    if show_all || parts.len() > 0 {
        Some(join(parts.push(label), " + "@))
    } else {
        None
    }
}

fn push_part(out: &mut Vec<char>, part: &str, first: bool, Ghost(parts): Ghost<Seq<Seq<char>>>)
    requires
        old(out)@ == join(parts, " + "@),
        first == (parts.len() == 0),
    ensures
        final(out)@ == join(parts.push(part@), " + "@),
{
    if !first {
        push_str(out, " + ");
    }
    push_str(out, part);
    proof {
        let np = parts.push(part@);
        assert(np.drop_last() =~= parts);
        if first {
            assert(final(out)@ =~= part@);
        }
    }
}

/// The text shown for a key stroke with label `label` while the modifiers
/// `m` are held, if it is shown at all.
pub fn combo(m: Modifiers, label: &str, show_all: bool) -> (r: Option<String>)
    ensures
        match r {
            Some(s) => combo_text(m, label@, show_all) == Some(s@),
            None => combo_text(m, label@, show_all) is None,
        },
{
    let mut out: Vec<char> = Vec::new();
    let ghost mut parts: Seq<Seq<char>> = Seq::empty();
    let mut first = true;
    if m.ctrl {
        push_part(&mut out, "Ctrl", first, Ghost(parts));
        proof {
            parts = parts.push("Ctrl"@);
        }
        first = false;
    }
    if m.win {
        push_part(&mut out, "Win", first, Ghost(parts));
        proof {
            parts = parts.push("Win"@);
        }
        first = false;
    }
    if m.alt {
        push_part(&mut out, "Alt", first, Ghost(parts));
        proof {
            parts = parts.push("Alt"@);
        }
        first = false;
    }
    if m.shift {
        push_part(&mut out, "Shift", first, Ghost(parts));
        proof {
            parts = parts.push("Shift"@);
        }
        first = false;
    }
    assert(parts =~= modifier_parts(m));
    if !show_all && first {
        return None;
    }
    push_part(&mut out, label, first, Ghost(parts));
    let n = out.len();
    assert(out@.subrange(0, n as int) =~= out@);
    Some(string_of(&out, 0, n))
}

/// A key stroke on show: its text, when it went down (nanoseconds on the
/// overlay's clock) and, once drawn, the text's coverage mask (width,
/// height, one byte per pixel).
pub struct KeyEntry {
    pub text: String,
    pub shown_at: u64,
    pub mask: Option<(i32, i32, Vec<u8>)>,
}

/// At most `key_max` (at least one) of the most recent entries.
pub open spec fn keep_recent(all: Seq<KeyEntry>, key_max: usize) -> Seq<KeyEntry> {
    let m: int = if key_max < 1 {
        1
    } else {
        key_max as int
    };
    if all.len() > m {
        all.skip(all.len() - m)
    } else {
        all
    }
}

/// The row after a key stroke: added to the row when keys stack, replacing it
/// otherwise, and cut to the most recent `key_max` (at least one).
pub open spec fn after_push(row: Seq<KeyEntry>, e: KeyEntry, stack: bool, key_max: usize) -> Seq<
    KeyEntry,
> {
    keep_recent(
        if stack {
            row
        } else {
            Seq::empty()
        }.push(e),
        key_max,
    )
}

/// Adds a key stroke to the row.
pub fn push_key(keys: &mut Vec<KeyEntry>, e: KeyEntry, stack: bool, key_max: usize)
    ensures
        final(keys)@ == after_push(old(keys)@, e, stack, key_max),
{
    if !stack {
        keys.clear();
    }
    keys.push(e);
    let max = if key_max < 1 {
        1
    } else {
        key_max
    };
    if keys.len() > max {
        let drop = keys.len() - max;
        let tail = keys.split_off(drop);
        *keys = tail;
    }
}

/// A row after a key stroke holds at least that stroke, as its last entry,
/// and at most `key_max` (at least one) entries; without stacking it holds that
/// stroke alone, with room left it is the old row with the stroke added, and
/// when full the oldest entries give way so that the most recent ones stay.
pub proof fn lemma_push_key(row: Seq<KeyEntry>, e: KeyEntry, stack: bool, key_max: usize)
    ensures
        ({
            let r = after_push(row, e, stack, key_max);
            let m: int = if key_max < 1 {
                1
            } else {
                key_max as int
            };
            &&& 1 <= r.len() <= m
            &&& r.last() == e
            &&& !stack ==> r == seq![e]
            &&& stack && row.len() < m ==> r == row.push(e)
            &&& stack && row.len() >= m ==> r == row.skip(row.len() - m + 1).push(e)
        }),
{
    let all = if stack {
        row
    } else {
        Seq::empty()
    }.push(e);
    let m: int = if key_max < 1 {
        1
    } else {
        key_max as int
    };
    if all.len() > m {
        assert(all.skip(all.len() - m).last() == all.last());
        if stack {
            assert(all.skip(all.len() - m) =~= row.skip(row.len() - m + 1).push(e));
        }
    }
    if !stack {
        assert(all =~= seq![e]);
    }
}

/// The row without its `n` oldest entries (all of them when it has fewer).
pub fn drop_oldest(keys: &mut Vec<KeyEntry>, n: usize)
    ensures
        final(keys)@ == old(keys)@.skip(if n < old(keys)@.len() {
            n as int
        } else {
            old(keys)@.len() as int
        }),
{
    let d = if n < keys.len() {
        n
    } else {
        keys.len()
    };
    let tail = keys.split_off(d);
    *keys = tail;
}

/// A key going down (`msg` is the window message, `vk` the virtual key,
/// `mapped` its character in the keyboard layout, `mods` the held modifiers,
/// `now` the time on the overlay's clock) while the overlay is `enabled`: a
/// key that is no modifier, has a label and is shown under the settings `cfg`
/// joins the row. Answers whether it did, so that the row is drawn again.
pub fn on_key_down(
    keys: &mut Vec<KeyEntry>,
    cfg: &Config,
    enabled: bool,
    msg: u32,
    vk: u32,
    mapped: u32,
    mods: Modifiers,
    now: u64,
) -> (shown: bool)
    ensures
        shown == ((msg == WM_KEYDOWN || msg == WM_SYSKEYDOWN) && enabled && !modifier_key(vk)
            && key_label(vk, mapped) is Some && combo_text(
            mods,
            key_label(vk, mapped)->0,
            cfg.show_all_keys,
        ) is Some),
        shown ==> final(keys)@ == after_push(
            old(keys)@,
            KeyEntry {
                text: final(keys)@.last().text,
                shown_at: now,
                mask: None,
            },
            cfg.key_stack,
            cfg.key_max,
        ) && final(keys)@.last().text@ == combo_text(
            mods,
            key_label(vk, mapped)->0,
            cfg.show_all_keys,
        )->0,
        !shown ==> final(keys)@ == old(keys)@,
{
    if !(msg == WM_KEYDOWN || msg == WM_SYSKEYDOWN) || !enabled || is_modifier(vk) {
        return false;
    }
    let label = match key_name(vk, mapped) {
        Some(l) => l,
        None => return false,
    };
    let text = match combo(mods, label.as_str(), cfg.show_all_keys) {
        Some(t) => t,
        None => return false,
    };
    let ghost t = text@;
    let e = KeyEntry { text, shown_at: now, mask: None };
    push_key(keys, e, cfg.key_stack, cfg.key_max);
    assert(keys@.last() == e);
    true
}

/// The keys with a name of their own are shown under that name, whatever the
/// keyboard layout maps them to and whatever the high bits of the key code.
pub proof fn lemma_named_labels(vk: u32, mapped: u32)
    ensures
        vk as int % 0x1_0000 == 0x20 ==> key_label(vk, mapped) == Some("Space"@),
        vk as int % 0x1_0000 == 0x0d ==> key_label(vk, mapped) == Some("Enter"@),
        vk as int % 0x1_0000 == 0x1b ==> key_label(vk, mapped) == Some("Esc"@),
        vk as int % 0x1_0000 == 0x09 ==> key_label(vk, mapped) == Some("Tab"@),
        vk as int % 0x1_0000 == 0x08 ==> key_label(vk, mapped) == Some("Backspace"@),
        vk as int % 0x1_0000 == 0x2e ==> key_label(vk, mapped) == Some("Delete"@),
        vk as int % 0x1_0000 == 0x2d ==> key_label(vk, mapped) == Some("Insert"@),
        vk as int % 0x1_0000 == 0x24 ==> key_label(vk, mapped) == Some("Home"@),
        vk as int % 0x1_0000 == 0x23 ==> key_label(vk, mapped) == Some("End"@),
        vk as int % 0x1_0000 == 0x21 ==> key_label(vk, mapped) == Some("PageUp"@),
        vk as int % 0x1_0000 == 0x22 ==> key_label(vk, mapped) == Some("PageDown"@),
        vk as int % 0x1_0000 == 0x25 ==> key_label(vk, mapped) == Some("\u{2190}"@),
        vk as int % 0x1_0000 == 0x26 ==> key_label(vk, mapped) == Some("\u{2191}"@),
        vk as int % 0x1_0000 == 0x27 ==> key_label(vk, mapped) == Some("\u{2192}"@),
        vk as int % 0x1_0000 == 0x28 ==> key_label(vk, mapped) == Some("\u{2193}"@),
        vk as int % 0x1_0000 == 0x2c ==> key_label(vk, mapped) == Some("PrtSc"@),
{
    reveal_strlit("Space");
    reveal_strlit("Enter");
    reveal_strlit("Esc");
    reveal_strlit("Tab");
    reveal_strlit("Backspace");
    reveal_strlit("Delete");
    reveal_strlit("Insert");
    reveal_strlit("Home");
    reveal_strlit("End");
    reveal_strlit("PageUp");
    reveal_strlit("PageDown");
    reveal_strlit("\u{2190}");
    reveal_strlit("\u{2191}");
    reveal_strlit("\u{2192}");
    reveal_strlit("\u{2193}");
    reveal_strlit("PrtSc");
}

/// The modifiers are Shift, Ctrl and Alt (0x10 to 0x12), their left and right
/// keys (0xa0 to 0xa5) and the two Windows keys (0x5b, 0x5c), read from the
/// low 16 bits of the key code; no other key is one.
pub proof fn lemma_modifier_codes(vk: u32)
    ensures
        modifier_key(vk) <== ({
            let v = vk as int % 0x1_0000;
            (0x10 <= v <= 0x12) || (0xa0 <= v <= 0xa5) || v == 0x5b || v == 0x5c
        }),
        modifier_key(vk) ==> ({
            let v = vk as int % 0x1_0000;
            (0x10 <= v <= 0x12) || (0xa0 <= v <= 0xa5) || v == 0x5b || v == 0x5c
        }),
{
}

/// The keys labelled by their code: a letter or digit key shows the one
/// character of its code; the number pad's digits show `Num` and the digit;
/// the function keys show `F` and their number, 1 to 24, in decimal.
pub proof fn lemma_code_labels(vk: u32, mapped: u32)
    ensures
        (0x41 <= vk <= 0x5a || 0x30 <= vk <= 0x39) ==> (key_label(vk, mapped) matches Some(s)
            && s.len() == 1 && s[0] as int == vk),
        0x60 <= vk <= 0x69 ==> (key_label(vk, mapped) matches Some(s) && s.len() == 4 && s[0]
            == 'N' && s[1] == 'u' && s[2] == 'm' && s[3] as int == 0x30 + (vk - 0x60)),
        0x70 <= vk <= 0x78 ==> (key_label(vk, mapped) matches Some(s) && s.len() == 2 && s[0]
            == 'F' && s[1] as int == 0x30 + (vk - 0x70 + 1)),
        0x79 <= vk <= 0x87 ==> (key_label(vk, mapped) matches Some(s) && s.len() == 3 && s[0]
            == 'F' && s[1] as int == 0x30 + (vk - 0x70 + 1) / 10 && s[2] as int == 0x30 + (vk
            - 0x70 + 1) % 10),
{
    reveal_strlit("Num");
    reveal_strlit("F");
    if 0x41 <= vk <= 0x5a || 0x30 <= vk <= 0x39 {
        assert((vk as u8) == vk) by (bit_vector)
            requires
                vk < 0x80,
        ;
    }
    if 0x79 <= vk <= 0x87 {
        let n = (vk - 0x70 + 1) as nat;
        assert(decimal(n) == decimal(n / 10).push(digit_char(n % 10)));
        assert(decimal(n / 10) == seq![digit_char(n / 10)]);
    }
}

/// The held modifiers come first, always in the order Ctrl, Win, Alt, Shift,
/// each followed by ` + `, then the key's label; a key with no modifier held
/// is shown on its own exactly when every key is to be shown.
pub proof fn lemma_combo_order(label: Seq<char>, show_all: bool)
    ensures
        combo_text(Modifiers { ctrl: true, win: true, alt: true, shift: true }, label, show_all)
            == Some("Ctrl + Win + Alt + Shift + "@ + label),
        combo_text(Modifiers { ctrl: true, win: false, alt: false, shift: true }, label, show_all)
            == Some("Ctrl + Shift + "@ + label),
        combo_text(Modifiers { ctrl: false, win: false, alt: true, shift: false }, label, show_all)
            == Some("Alt + "@ + label),
        combo_text(Modifiers { ctrl: false, win: false, alt: false, shift: false }, label, show_all)
            == if show_all {
            Some(label)
        } else {
            None
        },
{
    reveal_strlit("Ctrl + Win + Alt + Shift + ");
    reveal_strlit("Ctrl + Shift + ");
    reveal_strlit("Alt + ");
    reveal_strlit("Ctrl");
    reveal_strlit("Win");
    reveal_strlit("Alt");
    reveal_strlit("Shift");
    reveal_strlit(" + ");
    let sep = " + "@;
    let all = Modifiers { ctrl: true, win: true, alt: true, shift: true };
    let p4 = modifier_parts(all).push(label);
    assert(modifier_parts(all) =~= seq!["Ctrl"@, "Win"@, "Alt"@, "Shift"@]);
    let p1 = p4.drop_last().drop_last().drop_last().drop_last();
    let p2 = p4.drop_last().drop_last().drop_last();
    let p3 = p4.drop_last().drop_last();
    let p5 = p4.drop_last();
    assert(p1 =~= seq!["Ctrl"@]);
    assert(p2.drop_last() == p1 && p2.last() == "Win"@);
    assert(p3.drop_last() == p2 && p3.last() == "Alt"@);
    assert(p5.drop_last() == p3 && p5.last() == "Shift"@);
    assert(join(p1, sep) == "Ctrl"@);
    assert(join(p2, sep) == "Ctrl"@ + sep + "Win"@);
    assert(join(p3, sep) == "Ctrl"@ + sep + "Win"@ + sep + "Alt"@);
    assert(join(p5, sep) == "Ctrl"@ + sep + "Win"@ + sep + "Alt"@ + sep + "Shift"@);
    assert(join(p4, sep) == "Ctrl"@ + sep + "Win"@ + sep + "Alt"@ + sep + "Shift"@ + sep + label);
    assert(join(p4, sep) =~= "Ctrl + Win + Alt + Shift + "@ + label);
    let cs = Modifiers { ctrl: true, win: false, alt: false, shift: true };
    let q = modifier_parts(cs).push(label);
    assert(modifier_parts(cs) =~= seq!["Ctrl"@, "Shift"@]);
    let q1 = q.drop_last().drop_last();
    let q2 = q.drop_last();
    assert(q1 =~= seq!["Ctrl"@]);
    assert(q2.drop_last() == q1 && q2.last() == "Shift"@);
    assert(join(q1, sep) == "Ctrl"@);
    assert(join(q2, sep) == "Ctrl"@ + sep + "Shift"@);
    assert(join(q, sep) == "Ctrl"@ + sep + "Shift"@ + sep + label);
    assert(join(q, sep) =~= "Ctrl + Shift + "@ + label);
    let a = Modifiers { ctrl: false, win: false, alt: true, shift: false };
    let w = modifier_parts(a).push(label);
    assert(modifier_parts(a) =~= seq!["Alt"@]);
    assert(w.drop_last() =~= seq!["Alt"@]);
    assert(join(w.drop_last(), sep) == "Alt"@);
    assert(join(w, sep) == "Alt"@ + sep + label);
    assert(join(w, sep) =~= "Alt + "@ + label);
    let none = Modifiers { ctrl: false, win: false, alt: false, shift: false };
    assert(modifier_parts(none) =~= Seq::<Seq<char>>::empty());
    assert(modifier_parts(none).push(label) =~= seq![label]);
}

} // verus!
