//! The layout of the settings window: which controls each page holds, in
//! which order, and the rows they stand on.
use vstd::prelude::*;

use crate::settings::{
    ID_COL_DOUBLE, ID_COL_DRAG, ID_COL_FILL, ID_COL_KEYBG, ID_COL_KEYTX, ID_COL_LEFT,
    ID_COL_MIDDLE, ID_COL_RIGHT, ID_COL_RING, ID_COL_SCROLL, ID_DRAG_MS, ID_DRAG_R, ID_HL_FILL_A,
    ID_HL_RADIUS, ID_KEY_FONT, ID_KEY_GAP, ID_KEY_MS, ID_KEY_STACK, ID_KEY_X, ID_KEY_Y, ID_RING_A,
    ID_RIPPLE_MS, ID_RIPPLE_R, ID_SCROLL_MS, ID_SHOW_ALL, ID_SHOW_DRAG, ID_SHOW_SCROLL,
    ID_SPOT_DIM, ID_SPOT_FEATHER, ID_SPOT_ON, ID_SPOT_RADIUS,
};
use crate::config::Config;
use crate::settings::{int_slider, lemma_slider_round_trip, slider_value, with_slider};

verus! {

/// An entry of a control table, as values: the control's id, its label, the
/// slider's range (0 to 0 for other controls) and the page it is on (0 for
/// the mouse, 1 for the keys).
pub struct Entry {
    pub id: i32,
    pub label: Seq<char>,
    pub min: i32,
    pub max: i32,
    pub page: int,
}

/// An entry of a control table.
#[derive(Clone, Copy, Debug)]
pub struct ExecEntry {
    pub id: i32,
    pub label: &'static str,
    pub min: i32,
    pub max: i32,
    pub page: usize,
}

impl View for ExecEntry {
    type V = Entry;

    open spec fn view(&self) -> Entry {
        Entry {
            id: self.id,
            label: self.label@,
            min: self.min,
            max: self.max,
            page: self.page as int,
        }
    }
}

/// The sliders: id, label, range and page (0 mouse, 1 keys).
pub open spec fn slider_table() -> Seq<Entry> {
    seq![
        Entry { id: ID_HL_RADIUS, label: "ハイライト直径"@, min: 10, max: 120, page: 0 },
        Entry { id: ID_HL_FILL_A, label: "ハイライト塗り 不透明度"@, min: 0, max: 255, page: 0 },
        Entry { id: ID_RING_A, label: "リング 不透明度"@, min: 0, max: 255, page: 0 },
        Entry { id: ID_RIPPLE_R, label: "波紋 最大半径"@, min: 20, max: 160, page: 0 },
        Entry { id: ID_RIPPLE_MS, label: "波紋 表示時間(ms)"@, min: 150, max: 1500, page: 0 },
        Entry { id: ID_DRAG_R, label: "ドラッグ 点サイズ"@, min: 2, max: 16, page: 0 },
        Entry { id: ID_DRAG_MS, label: "ドラッグ 残り時間(ms)"@, min: 200, max: 2000, page: 0 },
        Entry { id: ID_SCROLL_MS, label: "スクロール 表示時間(ms)"@, min: 200, max: 1500, page: 0 },
        Entry { id: ID_SPOT_RADIUS, label: "スポット 半径"@, min: 40, max: 400, page: 0 },
        Entry { id: ID_SPOT_DIM, label: "スポット 暗さ"@, min: 0, max: 240, page: 0 },
        Entry { id: ID_SPOT_FEATHER, label: "スポット 縁ぼかし"@, min: 0, max: 120, page: 0 },
        Entry { id: ID_KEY_FONT, label: "キー 文字サイズ"@, min: 16, max: 60, page: 1 },
        Entry { id: ID_KEY_MS, label: "キー 表示時間(ms)"@, min: 500, max: 4000, page: 1 },
        Entry { id: ID_KEY_GAP, label: "キー 間隔"@, min: 0, max: 40, page: 1 },
        Entry { id: ID_KEY_X, label: "キー位置 X (座標指定時)"@, min: 0, max: 3840, page: 1 },
        Entry { id: ID_KEY_Y, label: "キー位置 Y (座標指定時)"@, min: 0, max: 2160, page: 1 },
    ]
}

/// Every slider of the table that holds an integer setting shows again any
/// value of its range that it was moved to.
pub proof fn lemma_table_slider_round_trip(cfg: Config, i: int, v: i32)
    requires
        0 <= i < slider_table().len(),
        int_slider(slider_table()[i].id),
        slider_table()[i].min <= v <= slider_table()[i].max,
    ensures
        slider_value(with_slider(cfg, slider_table()[i].id, v), slider_table()[i].id) == Some(v),
{
    lemma_slider_round_trip(cfg, slider_table()[i].id, v);
}

fn slider_table_at(i: usize) -> (r: ExecEntry)
    requires
        i < 16,
    ensures
        r.view() == slider_table()[i as int],
{
    if i == 0 {
        ExecEntry { id: ID_HL_RADIUS, label: "ハイライト直径", min: 10, max: 120, page: 0 }
    } else if i == 1 {
        ExecEntry { id: ID_HL_FILL_A, label: "ハイライト塗り 不透明度", min: 0, max: 255, page: 0 }
    } else if i == 2 {
        ExecEntry { id: ID_RING_A, label: "リング 不透明度", min: 0, max: 255, page: 0 }
    } else if i == 3 {
        ExecEntry { id: ID_RIPPLE_R, label: "波紋 最大半径", min: 20, max: 160, page: 0 }
    } else if i == 4 {
        ExecEntry { id: ID_RIPPLE_MS, label: "波紋 表示時間(ms)", min: 150, max: 1500, page: 0 }
    } else if i == 5 {
        ExecEntry { id: ID_DRAG_R, label: "ドラッグ 点サイズ", min: 2, max: 16, page: 0 }
    } else if i == 6 {
        ExecEntry { id: ID_DRAG_MS, label: "ドラッグ 残り時間(ms)", min: 200, max: 2000, page: 0 }
    } else if i == 7 {
        ExecEntry { id: ID_SCROLL_MS, label: "スクロール 表示時間(ms)", min: 200, max: 1500, page: 0 }
    } else if i == 8 {
        ExecEntry { id: ID_SPOT_RADIUS, label: "スポット 半径", min: 40, max: 400, page: 0 }
    } else if i == 9 {
        ExecEntry { id: ID_SPOT_DIM, label: "スポット 暗さ", min: 0, max: 240, page: 0 }
    } else if i == 10 {
        ExecEntry { id: ID_SPOT_FEATHER, label: "スポット 縁ぼかし", min: 0, max: 120, page: 0 }
    } else if i == 11 {
        ExecEntry { id: ID_KEY_FONT, label: "キー 文字サイズ", min: 16, max: 60, page: 1 }
    } else if i == 12 {
        ExecEntry { id: ID_KEY_MS, label: "キー 表示時間(ms)", min: 500, max: 4000, page: 1 }
    } else if i == 13 {
        ExecEntry { id: ID_KEY_GAP, label: "キー 間隔", min: 0, max: 40, page: 1 }
    } else if i == 14 {
        ExecEntry { id: ID_KEY_X, label: "キー位置 X (座標指定時)", min: 0, max: 3840, page: 1 }
    } else {
        ExecEntry { id: ID_KEY_Y, label: "キー位置 Y (座標指定時)", min: 0, max: 2160, page: 1 }
    }
}

/// The checkboxes: id, label and page.
pub open spec fn check_table() -> Seq<Entry> {
    seq![
        Entry { id: ID_SHOW_DRAG, label: "ドラッグ軌跡を表示"@, min: 0, max: 0, page: 0 },
        Entry { id: ID_SHOW_SCROLL, label: "スクロール方向を表示"@, min: 0, max: 0, page: 0 },
        Entry { id: ID_SPOT_ON, label: "スポットライト：周囲を暗く (Ctrl+Alt+S)"@, min: 0, max: 0, page: 0 },
        Entry { id: ID_KEY_STACK, label: "キー: 追加型で表示 (オフ=上書き型)"@, min: 0, max: 0, page: 1 },
        Entry { id: ID_SHOW_ALL, label: "全てのキーを表示 (オフ=ショートカットのみ)"@, min: 0, max: 0, page: 1 },
    ]
}

fn check_table_at(i: usize) -> (r: ExecEntry)
    requires
        i < 5,
    ensures
        r.view() == check_table()[i as int],
{
    if i == 0 {
        ExecEntry { id: ID_SHOW_DRAG, label: "ドラッグ軌跡を表示", min: 0, max: 0, page: 0 }
    } else if i == 1 {
        ExecEntry { id: ID_SHOW_SCROLL, label: "スクロール方向を表示", min: 0, max: 0, page: 0 }
    } else if i == 2 {
        ExecEntry { id: ID_SPOT_ON, label: "スポットライト：周囲を暗く (Ctrl+Alt+S)", min: 0, max: 0, page: 0 }
    } else if i == 3 {
        ExecEntry { id: ID_KEY_STACK, label: "キー: 追加型で表示 (オフ=上書き型)", min: 0, max: 0, page: 1 }
    } else {
        ExecEntry { id: ID_SHOW_ALL, label: "全てのキーを表示 (オフ=ショートカットのみ)", min: 0, max: 0, page: 1 }
    }
}

/// The colour buttons: id, label and page.
pub open spec fn color_table() -> Seq<Entry> {
    seq![
        Entry { id: ID_COL_FILL, label: "ハイライト色"@, min: 0, max: 0, page: 0 },
        Entry { id: ID_COL_RING, label: "リング色"@, min: 0, max: 0, page: 0 },
        Entry { id: ID_COL_LEFT, label: "左クリック色"@, min: 0, max: 0, page: 0 },
        Entry { id: ID_COL_RIGHT, label: "右クリック色"@, min: 0, max: 0, page: 0 },
        Entry { id: ID_COL_MIDDLE, label: "中クリック色"@, min: 0, max: 0, page: 0 },
        Entry { id: ID_COL_DOUBLE, label: "ダブルクリック色"@, min: 0, max: 0, page: 0 },
        Entry { id: ID_COL_SCROLL, label: "スクロール色"@, min: 0, max: 0, page: 0 },
        Entry { id: ID_COL_DRAG, label: "ドラッグ軌跡色"@, min: 0, max: 0, page: 0 },
        Entry { id: ID_COL_KEYBG, label: "キー背景色"@, min: 0, max: 0, page: 1 },
        Entry { id: ID_COL_KEYTX, label: "キー文字色"@, min: 0, max: 0, page: 1 },
    ]
}

fn color_table_at(i: usize) -> (r: ExecEntry)
    requires
        i < 10,
    ensures
        r.view() == color_table()[i as int],
{
    if i == 0 {
        ExecEntry { id: ID_COL_FILL, label: "ハイライト色", min: 0, max: 0, page: 0 }
    } else if i == 1 {
        ExecEntry { id: ID_COL_RING, label: "リング色", min: 0, max: 0, page: 0 }
    } else if i == 2 {
        ExecEntry { id: ID_COL_LEFT, label: "左クリック色", min: 0, max: 0, page: 0 }
    } else if i == 3 {
        ExecEntry { id: ID_COL_RIGHT, label: "右クリック色", min: 0, max: 0, page: 0 }
    } else if i == 4 {
        ExecEntry { id: ID_COL_MIDDLE, label: "中クリック色", min: 0, max: 0, page: 0 }
    } else if i == 5 {
        ExecEntry { id: ID_COL_DOUBLE, label: "ダブルクリック色", min: 0, max: 0, page: 0 }
    } else if i == 6 {
        ExecEntry { id: ID_COL_SCROLL, label: "スクロール色", min: 0, max: 0, page: 0 }
    } else if i == 7 {
        ExecEntry { id: ID_COL_DRAG, label: "ドラッグ軌跡色", min: 0, max: 0, page: 0 }
    } else if i == 8 {
        ExecEntry { id: ID_COL_KEYBG, label: "キー背景色", min: 0, max: 0, page: 1 }
    } else {
        ExecEntry { id: ID_COL_KEYTX, label: "キー文字色", min: 0, max: 0, page: 1 }
    }
}

/// The control tables.
#[derive(Clone, Copy, Debug, PartialEq, Eq, Structural)]
pub enum Table {
    Sliders,
    Checks,
    Colors,
}

pub open spec fn table(t: Table) -> Seq<Entry> {
    match t {
        Table::Sliders => slider_table(),
        Table::Checks => check_table(),
        Table::Colors => color_table(),
    }
}

fn table_len(t: Table) -> (n: usize)
    ensures
        n == table(t).len(),
{
    match t {
        Table::Sliders => 16,
        Table::Checks => 5,
        Table::Colors => 10,
    }
}

fn table_at(t: Table, i: usize) -> (r: ExecEntry)
    requires
        i < table(t).len(),
    ensures
        r@ == table(t)[i as int],
{
    match t {
        Table::Sliders => slider_table_at(i),
        Table::Checks => check_table_at(i),
        Table::Colors => color_table_at(i),
    }
}

/// The entries of `t` on page `page`, in table order.
pub open spec fn on_page(t: Seq<Entry>, page: int) -> Seq<Entry>
    decreases t.len(),
{
    if t.len() == 0 {
        Seq::empty()
    } else {
        let p = on_page(t.drop_last(), page);
        if t.last().page == page {
            p.push(t.last())
        } else {
            p
        }
    }
}

proof fn lemma_on_page_len(t: Seq<Entry>, page: int)
    ensures
        on_page(t, page).len() <= t.len(),
    decreases t.len(),
{
    if t.len() > 0 {
        lemma_on_page_len(t.drop_last(), page);
    }
}

/// A control placed on a page: its entry and the top of its row.
#[derive(Clone, Copy, Debug)]
pub struct Placed {
    pub entry: ExecEntry,
    pub y: i32,
}

/// The entries of table `t` on page `page`, the `k`-th on the row at
/// `top + step * k`, or, when `paired`, two to a row at `top + step * (k / 2)`.
fn place(t: Table, page: usize, top: i32, step: i32, paired: bool) -> (r: Vec<Placed>)
    requires
        0 <= top <= 1000,
        0 <= step <= 40,
    ensures
        r.len() == on_page(table(t), page as int).len(),
        forall|k: int|
            0 <= k < r.len() ==> (#[trigger] r@[k]).entry@ == on_page(table(t), page as int)[k]
                && r@[k].y == top + step * (if paired {
                k / 2
            } else {
                k
            }),
{
    let n = table_len(t);
    let mut r: Vec<Placed> = Vec::new();
    let mut i: usize = 0;
    assert(table(t).take(0) =~= Seq::<Entry>::empty());
    while i < n
        invariant
            i <= n,
            n == table(t).len(),
            n <= 16,
            0 <= top <= 1000,
            0 <= step <= 40,
            r.len() <= i,
            r.len() == on_page(table(t).take(i as int), page as int).len(),
            forall|k: int|
                0 <= k < r.len() ==> (#[trigger] r@[k]).entry@ == on_page(
                    table(t).take(i as int),
                    page as int,
                )[k] && r@[k].y == top + step * (if paired {
                    k / 2
                } else {
                    k
                }),
        decreases n - i,
    {
        let e = table_at(t, i);
        let ghost before = on_page(table(t).take(i as int), page as int);
        assert(table(t).take(i + 1).drop_last() =~= table(t).take(i as int));
        assert(table(t).take(i + 1).last() == table(t)[i as int]);
        if e.page == page {
            let ghost r0 = r@;
            let k = r.len();
            let row = if paired {
                k / 2
            } else {
                k
            };
            assert(step * row <= 40 * 16) by (nonlinear_arith)
                requires
                    0 <= step <= 40,
                    0 <= row <= 16,
            ;
            let y = top + step * (row as i32);
            r.push(Placed { entry: e, y });
            assert forall|j: int| 0 <= j < r.len() implies (#[trigger] r@[j]).entry@ == on_page(
                table(t).take(i + 1),
                page as int,
            )[j] && r@[j].y == top + step * (if paired {
                j / 2
            } else {
                j
            }) by {
                if j < k {
                    assert(r@[j] == r0[j]);
                }
            }
        }
        i = i + 1;
    }
    assert(table(t).take(n as int) =~= table(t));
    r
}

/// The rows of a page of the settings window.
pub struct PageLayout {
    /// A label, the slider and its value on each row, 34 apart from 50 down.
    pub sliders: Vec<Placed>,
    /// The row of the key-position list, on the keys page.
    pub key_pos_y: Option<i32>,
    /// A checkbox on each row, 28 apart.
    pub checks: Vec<Placed>,
    /// Two colour buttons on each row, 32 apart: even-numbered on the left,
    /// odd-numbered on the right.
    pub colors: Vec<Placed>,
    /// Where the page's controls end.
    pub bottom: i32,
}

pub open spec fn sliders_end(page: int) -> int {
    50 + 34 * (on_page(slider_table(), page).len() as int)
}

pub open spec fn checks_top(page: int) -> int {
    sliders_end(page) + (if page == 1 {
        42int
    } else {
        0int
    }) + 4
}

pub open spec fn colors_top(page: int) -> int {
    checks_top(page) + 28 * (on_page(check_table(), page).len() as int) + 6
}

/// Where the controls of page `page` end.
pub open spec fn page_bottom(page: int) -> int {
    colors_top(page) + 32 * ((on_page(color_table(), page).len() as int + 1) / 2)
}

/// The layout of page `page` (0 for the mouse, 1 for the keys): the page's
/// sliders, from row 50 on, 34 apart; on the keys page the key-position list
/// 4 lower, taking 38; 4 lower the page's checkboxes, 28 apart; 6 lower its
/// colour buttons, two to a row, 32 apart.
pub fn page_layout(page: usize) -> (r: PageLayout)
    requires
        page <= 1,
    ensures
        r.sliders.len() == on_page(slider_table(), page as int).len(),
        forall|k: int|
            0 <= k < r.sliders.len() ==> (#[trigger] r.sliders@[k]).entry@ == on_page(
                slider_table(),
                page as int,
            )[k] && r.sliders@[k].y == 50 + 34 * k,
        r.key_pos_y == (if page == 1 {
            Some((sliders_end(1) + 4) as i32)
        } else {
            None
        }),
        r.checks.len() == on_page(check_table(), page as int).len(),
        forall|k: int|
            0 <= k < r.checks.len() ==> (#[trigger] r.checks@[k]).entry@ == on_page(
                check_table(),
                page as int,
            )[k] && r.checks@[k].y == checks_top(page as int) + 28 * k,
        r.colors.len() == on_page(color_table(), page as int).len(),
        forall|k: int|
            0 <= k < r.colors.len() ==> (#[trigger] r.colors@[k]).entry@ == on_page(
                color_table(),
                page as int,
            )[k] && r.colors@[k].y == colors_top(page as int) + 32 * (k / 2),
        r.bottom == page_bottom(page as int),
{
    proof {
        lemma_on_page_len(slider_table(), page as int);
        lemma_on_page_len(check_table(), page as int);
        lemma_on_page_len(color_table(), page as int);
    }
    let sliders = place(Table::Sliders, page, 50, 34, false);
    let mut y: i32 = 50 + 34 * (sliders.len() as i32);
    let key_pos_y = if page == 1 {
        y = y + 4;
        let ky = y;
        y = y + 38;
        Some(ky)
    } else {
        None
    };
    y = y + 4;
    let checks = place(Table::Checks, page, y, 28, false);
    y = y + 28 * (checks.len() as i32) + 6;
    let colors = place(Table::Colors, page, y, 32, true);
    let rows = (colors.len() + 1) / 2;
    y = y + 32 * (rows as i32);
    PageLayout { sliders, key_pos_y, checks, colors, bottom: y }
}

/// The top of the buttons below both pages: 12 below the lower page's end
/// (and below 50).
pub open spec fn buttons_top(bottom0: int, bottom1: int) -> int {
    let m = if bottom0 > 50 {
        bottom0
    } else {
        50
    };
    let m = if bottom1 > m {
        bottom1
    } else {
        m
    };
    m + 12
}

pub fn buttons_row(bottom0: i32, bottom1: i32) -> (r: i32)
    requires
        bottom0 <= i32::MAX - 12,
        bottom1 <= i32::MAX - 12,
    ensures
        r == buttons_top(bottom0 as int, bottom1 as int),
{
    let m = if bottom0 > 50 {
        bottom0
    } else {
        50
    };
    let m = if bottom1 > m {
        bottom1
    } else {
        m
    };
    m + 12
}

} // verus!
