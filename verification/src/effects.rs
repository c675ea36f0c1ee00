//! The overlay's effects and how mouse events and the on/off switch change
//! them: the cursor highlight, click ripples, the drag trail, scroll hints and
//! the row of key strokes. Times are nanoseconds on the overlay's clock.
use vstd::prelude::*;

use crate::config::{Config, Rgba};
use crate::keys::KeyEntry;

verus! {

pub const WM_MOUSEMOVE: u32 = 0x0200;

pub const WM_LBUTTONDOWN: u32 = 0x0201;

pub const WM_LBUTTONUP: u32 = 0x0202;

pub const WM_RBUTTONDOWN: u32 = 0x0204;

pub const WM_RBUTTONUP: u32 = 0x0205;

pub const WM_MBUTTONDOWN: u32 = 0x0207;

pub const WM_MBUTTONUP: u32 = 0x0208;

pub const WM_MOUSEWHEEL: u32 = 0x020a;

/// The least time between two redraws on mouse moves: 7 ms.
pub const MOVE_REDRAW_NS: u64 = 7_000_000;

/// How far apart, in pixels along each axis, two clicks of a double click may be.
pub const DOUBLE_CLICK_SLOP: i64 = 6;

/// A ripple spreading from a click.
#[derive(Clone, Copy, Debug)]
pub struct Ripple {
    pub x: i32,
    pub y: i32,
    pub start: u64,
    pub color: Rgba,
    pub double: bool,
}

/// An arrow showing a turn of the mouse wheel.
#[derive(Clone, Copy, Debug)]
pub struct ScrollHint {
    pub x: i32,
    pub y: i32,
    pub up: bool,
    pub start: u64,
}

/// A dot of the trail left while dragging.
#[derive(Clone, Copy, Debug)]
pub struct TrailDot {
    pub x: i32,
    pub y: i32,
    pub start: u64,
}

/// The effects on show and what they are drawn from.
pub struct Effects {
    pub enabled: bool,
    pub cursor: (i32, i32),
    pub ripples: Vec<Ripple>,
    pub scrolls: Vec<ScrollHint>,
    pub trail: Vec<TrailDot>,
    pub keys: Vec<KeyEntry>,
    /// How many mouse buttons are held.
    pub buttons_down: u8,
    /// When and where the last single left click was.
    pub last_left: Option<(u64, (i32, i32))>,
    /// When the effects were last drawn.
    pub last_render: u64,
}

/// The effects as values.
pub struct EffectsState {
    pub enabled: bool,
    pub cursor: (i32, i32),
    pub ripples: Seq<Ripple>,
    pub scrolls: Seq<ScrollHint>,
    pub trail: Seq<TrailDot>,
    pub keys: Seq<KeyEntry>,
    pub buttons_down: u8,
    pub last_left: Option<(u64, (i32, i32))>,
    pub last_render: u64,
}

impl View for Effects {
    type V = EffectsState;

    open spec fn view(&self) -> EffectsState {
        EffectsState {
            enabled: self.enabled,
            cursor: self.cursor,
            ripples: self.ripples@,
            scrolls: self.scrolls@,
            trail: self.trail@,
            keys: self.keys@,
            buttons_down: self.buttons_down,
            last_left: self.last_left,
            last_render: self.last_render,
        }
    }
}

/// What is to be drawn again after an event.
#[derive(Clone, Copy, Debug, PartialEq, Eq, Structural)]
pub enum Redraw {
    Nothing,
    /// The highlight window.
    Highlight,
    /// The highlight window and the spotlight.
    HighlightAndSpot,
}

/// The time from `t` to `now`, 0 if `t` is later.
pub open spec fn elapsed(now: u64, t: u64) -> int {
    if now >= t {
        now - t
    } else {
        0
    }
}

pub open spec fn abs(v: int) -> int {
    if v < 0 {
        -v
    } else {
        v
    }
}

/// A left click at `(x, y)` and time `now` completes a double click: the last
/// single left click was at most `double_ms` whole milliseconds before and at
/// most 6 pixels away along each axis.
pub open spec fn double_click(
    last: Option<(u64, (i32, i32))>,
    now: u64,
    x: i32,
    y: i32,
    double_ms: u32,
) -> bool {
    match last {
        Some((t, (lx, ly))) => elapsed(now, t) / 1_000_000 <= double_ms && abs(x - lx) <= 6 && abs(
            y - ly,
        ) <= 6,
        None => false,
    }
}

/// The wheel turned away from the user: the signed high word of the event's
/// data is positive.
pub open spec fn wheel_up(mouse_data: u32) -> bool {
    let hi = mouse_data as int / 0x1_0000;
    0 < hi < 0x8000
}

/// The effects after a button went down at `(x, y)`, `now`, leaving a ripple of `color`.
pub open spec fn button_down(
    e: EffectsState,
    x: i32,
    y: i32,
    now: u64,
    color: Rgba,
    double: bool,
) -> EffectsState {
    EffectsState {
        cursor: (x, y),
        buttons_down: ((e.buttons_down + 1) % 256) as u8,
        ripples: e.ripples.push(Ripple { x, y, start: now, color, double }),
        ..e
    }
}

/// A mouse event while the overlay is on: the window message `msg` at
/// `(x, y)` with data `mouse_data`, at time `now`, where a double click may
/// last `double_ms` milliseconds; gives the effects after it and what to draw.
pub open spec fn mouse_step(
    e: EffectsState,
    cfg: Config,
    msg: u32,
    x: i32,
    y: i32,
    mouse_data: u32,
    now: u64,
    double_ms: u32,
) -> (EffectsState, Redraw) {
    if !e.enabled {
        (e, Redraw::Nothing)
    } else if msg == WM_MOUSEMOVE {
        let trail = if cfg.show_drag && e.buttons_down > 0 {
            e.trail.push(TrailDot { x, y, start: now })
        } else {
            e.trail
        };
        (
            EffectsState { cursor: (x, y), trail, ..e },
            if elapsed(now, e.last_render) >= MOVE_REDRAW_NS {
                Redraw::HighlightAndSpot
            } else {
                Redraw::Nothing
            },
        )
    } else if msg == WM_LBUTTONDOWN {
        let dbl = double_click(e.last_left, now, x, y, double_ms);
        let color = if dbl {
            cfg.double_color
        } else {
            cfg.left_color
        };
        let e1 = button_down(e, x, y, now, color, dbl);
        (
            EffectsState {
                last_left: if dbl {
                    None
                } else {
                    Some((now, (x, y)))
                },
                ..e1
            },
            Redraw::Highlight,
        )
    } else if msg == WM_RBUTTONDOWN {
        (button_down(e, x, y, now, cfg.right_color, false), Redraw::Highlight)
    } else if msg == WM_MBUTTONDOWN {
        (button_down(e, x, y, now, cfg.middle_color, false), Redraw::Highlight)
    } else if msg == WM_LBUTTONUP || msg == WM_RBUTTONUP || msg == WM_MBUTTONUP {
        (
            EffectsState {
                buttons_down: if e.buttons_down == 0 {
                    0
                } else {
                    (e.buttons_down - 1) as u8
                },
                ..e
            },
            Redraw::Nothing,
        )
    } else if msg == WM_MOUSEWHEEL && cfg.show_scroll {
        (
            EffectsState {
                scrolls: e.scrolls.push(ScrollHint { x, y, up: wheel_up(mouse_data), start: now }),
                ..e
            },
            Redraw::Highlight,
        )
    } else {
        (e, Redraw::Nothing)
    }
}

fn elapsed_exec(now: u64, t: u64) -> (r: u64)
    ensures
        r == elapsed(now, t),
{
    if now >= t {
        now - t
    } else {
        0
    }
}

fn within_slop(a: i32, b: i32) -> (r: bool)
    ensures
        r == (abs(a - b) <= 6),
{
    let d = a as i64 - b as i64;
    -DOUBLE_CLICK_SLOP <= d && d <= DOUBLE_CLICK_SLOP
}

impl Effects {
    /// The effects when the overlay starts, with the cursor at `cursor` at time `now`.
    pub fn new(cursor: (i32, i32), now: u64) -> (r: Effects)
        ensures
            r@.enabled,
            r@.cursor == cursor,
            r@.ripples.len() == 0,
            r@.scrolls.len() == 0,
            r@.trail.len() == 0,
            r@.keys.len() == 0,
            r@.buttons_down == 0,
            r@.last_left is None,
            r@.last_render == now,
    {
        Effects {
            enabled: true,
            cursor,
            ripples: Vec::new(),
            scrolls: Vec::new(),
            trail: Vec::new(),
            keys: Vec::new(),
            buttons_down: 0,
            last_left: None,
            last_render: now,
        }
    }

    fn button_down(&mut self, x: i32, y: i32, now: u64, color: Rgba, double: bool)
        ensures
            final(self)@ == button_down(old(self)@, x, y, now, color, double),
    {
        self.cursor = (x, y);
        self.buttons_down = if self.buttons_down == 255 {
            0
        } else {
            self.buttons_down + 1
        };
        self.ripples.push(Ripple { x, y, start: now, color, double });
    }

    /// A mouse event: the window message `msg` at `(x, y)` with data
    /// `mouse_data`, at time `now`, where a double click may last `double_ms`
    /// milliseconds. Answers what is to be drawn again.
    pub fn on_mouse(
        &mut self,
        cfg: &Config,
        msg: u32,
        x: i32,
        y: i32,
        mouse_data: u32,
        now: u64,
        double_ms: u32,
    ) -> (r: Redraw)
        ensures
            (final(self)@, r) == mouse_step(old(self)@, *cfg, msg, x, y, mouse_data, now, double_ms),
    {
        if !self.enabled {
            return Redraw::Nothing;
        }
        if msg == WM_MOUSEMOVE {
            self.cursor = (x, y);
            if cfg.show_drag && self.buttons_down > 0 {
                self.trail.push(TrailDot { x, y, start: now });
            }
            if elapsed_exec(now, self.last_render) >= MOVE_REDRAW_NS {
                Redraw::HighlightAndSpot
            } else {
                Redraw::Nothing
            }
        } else if msg == WM_LBUTTONDOWN {
            let dbl = match self.last_left {
                Some((t, (lx, ly))) => elapsed_exec(now, t) / 1_000_000 <= double_ms as u64
                    && within_slop(x, lx) && within_slop(y, ly),
                None => false,
            };
            if dbl {
                self.button_down(x, y, now, cfg.double_color, true);
                self.last_left = None;
            } else {
                self.button_down(x, y, now, cfg.left_color, false);
                self.last_left = Some((now, (x, y)));
            }
            Redraw::Highlight
        } else if msg == WM_RBUTTONDOWN {
            self.button_down(x, y, now, cfg.right_color, false);
            Redraw::Highlight
        } else if msg == WM_MBUTTONDOWN {
            self.button_down(x, y, now, cfg.middle_color, false);
            Redraw::Highlight
        } else if msg == WM_LBUTTONUP || msg == WM_RBUTTONUP || msg == WM_MBUTTONUP {
            if self.buttons_down > 0 {
                self.buttons_down = self.buttons_down - 1;
            }
            Redraw::Nothing
        } else if msg == WM_MOUSEWHEEL && cfg.show_scroll {
            let hi = mouse_data / 0x1_0000;
            let up = 0 < hi && hi < 0x8000;
            self.scrolls.push(ScrollHint { x, y, up, start: now });
            Redraw::Highlight
        } else {
            Redraw::Nothing
        }
    }

    /// Turns the overlay off or on. Off, the ripples, scroll hints, trail and
    /// key strokes go and no button counts as held; on, the cursor is taken to
    /// be at `cursor`. Answers whether the overlay is now on.
    pub fn toggle_enabled(&mut self, cursor: (i32, i32)) -> (on: bool)
        ensures
            on == !old(self)@.enabled,
            final(self)@ == toggled(old(self)@, cursor),
    {
        self.enabled = !self.enabled;
        if !self.enabled {
            self.ripples.clear();
            self.scrolls.clear();
            self.trail.clear();
            self.buttons_down = 0;
            self.keys.clear();
        } else {
            self.cursor = cursor;
        }
        self.enabled
    }
}

/// The effects after the overlay is turned off or on, with the cursor at
/// `cursor` if it is turned on.
pub open spec fn toggled(e: EffectsState, cursor: (i32, i32)) -> EffectsState {
    if e.enabled {
        EffectsState {
            enabled: false,
            ripples: Seq::empty(),
            scrolls: Seq::empty(),
            trail: Seq::empty(),
            keys: Seq::empty(),
            buttons_down: 0,
            ..e
        }
    } else {
        EffectsState { enabled: true, cursor, ..e }
    }
}

/// Turning the overlay off and on again leaves it on with nothing on show,
/// no button held and the cursor where it was given.
pub proof fn lemma_toggle_twice(e: EffectsState, c1: (i32, i32), c2: (i32, i32))
    ensures
        toggled(toggled(e, c1), c2).enabled == e.enabled,
        e.enabled ==> ({
            let t = toggled(toggled(e, c1), c2);
            &&& t.ripples.len() == 0
            &&& t.scrolls.len() == 0
            &&& t.trail.len() == 0
            &&& t.keys.len() == 0
            &&& t.buttons_down == 0
            &&& t.cursor == c2
        }),
{
}

/// While the overlay is off, mouse events change nothing and draw nothing.
pub proof fn lemma_off_ignores_mouse(
    e: EffectsState,
    cfg: Config,
    msg: u32,
    x: i32,
    y: i32,
    mouse_data: u32,
    now: u64,
    double_ms: u32,
)
    requires
        !e.enabled,
    ensures
        mouse_step(e, cfg, msg, x, y, mouse_data, now, double_ms) == (e, Redraw::Nothing),
{
}

pub open spec fn is_button_down(msg: u32) -> bool {
    msg == WM_LBUTTONDOWN || msg == WM_RBUTTONDOWN || msg == WM_MBUTTONDOWN
}

pub open spec fn is_button_up(msg: u32) -> bool {
    msg == WM_LBUTTONUP || msg == WM_RBUTTONUP || msg == WM_MBUTTONUP
}

/// A button going down and then up leaves as many buttons held as before,
/// and the press leaves one ripple more.
pub proof fn lemma_press_release(
    e: EffectsState,
    cfg: Config,
    down: u32,
    up: u32,
    x: i32,
    y: i32,
    d1: u32,
    d2: u32,
    t1: u64,
    t2: u64,
    double_ms: u32,
)
    requires
        e.enabled,
        e.buttons_down < 255,
        is_button_down(down),
        is_button_up(up),
    ensures
        ({
            let e1 = mouse_step(e, cfg, down, x, y, d1, t1, double_ms).0;
            let e2 = mouse_step(e1, cfg, up, x, y, d2, t2, double_ms).0;
            &&& e1.buttons_down == e.buttons_down + 1
            &&& e1.ripples.len() == e.ripples.len() + 1
            &&& e2.buttons_down == e.buttons_down
        }),
{
}

/// A left click close enough in time and place to the single left click
/// before it makes a double-click ripple and is not the first click of another
/// double click; the click after that is a single click again.
pub proof fn lemma_double_click(
    e: EffectsState,
    cfg: Config,
    x1: i32,
    y1: i32,
    t1: u64,
    x2: i32,
    y2: i32,
    t2: u64,
    x3: i32,
    y3: i32,
    t3: u64,
    data: u32,
    double_ms: u32,
)
    requires
        e.enabled,
        e.last_left is None,
        t1 <= t2,
        (t2 - t1) / 1_000_000 <= double_ms,
        abs(x2 - x1) <= 6,
        abs(y2 - y1) <= 6,
    ensures
        ({
            let e1 = mouse_step(e, cfg, WM_LBUTTONDOWN, x1, y1, data, t1, double_ms).0;
            let e2 = mouse_step(e1, cfg, WM_LBUTTONDOWN, x2, y2, data, t2, double_ms).0;
            let e3 = mouse_step(e2, cfg, WM_LBUTTONDOWN, x3, y3, data, t3, double_ms).0;
            &&& !e1.ripples.last().double
            &&& e1.ripples.last().color == cfg.left_color
            &&& e2.ripples.last().double
            &&& e2.ripples.last().color == cfg.double_color
            &&& e2.last_left is None
            &&& !e3.ripples.last().double
        }),
{
}

/// What the spotlight needs.
#[derive(Clone, Copy, Debug, PartialEq, Eq, Structural)]
pub enum SpotAction {
    /// Nothing: hidden and to stay so, or shown and unchanged.
    Nothing,
    /// Hide the spotlight.
    Hide,
    /// Draw the spotlight around the cursor.
    Draw,
}

/// The spotlight is on when the overlay and the spotlight setting are. When
/// off, it is hidden if shown. When on, it is drawn unless it is shown around
/// the same cursor position and the settings window, whose changes it
/// previews, is closed.
pub open spec fn spot_action_of(
    enabled: bool,
    spotlight: bool,
    visible: bool,
    cursor: (i32, i32),
    last: (i32, i32),
    settings_open: bool,
) -> SpotAction {
    if !(enabled && spotlight) {
        if visible {
            SpotAction::Hide
        } else {
            SpotAction::Nothing
        }
    } else if visible && cursor == last && !settings_open {
        SpotAction::Nothing
    } else {
        SpotAction::Draw
    }
}

/// What the spotlight needs now.
pub fn spot_action(
    enabled: bool,
    spotlight: bool,
    visible: bool,
    cursor: (i32, i32),
    last: (i32, i32),
    settings_open: bool,
) -> (r: SpotAction)
    ensures
        r == spot_action_of(enabled, spotlight, visible, cursor, last, settings_open),
{
    if !(enabled && spotlight) {
        if visible {
            SpotAction::Hide
        } else {
            SpotAction::Nothing
        }
    } else if visible && cursor.0 == last.0 && cursor.1 == last.1 && !settings_open {
        SpotAction::Nothing
    } else {
        SpotAction::Draw
    }
}

/// A mouse move leaves a dot of the drag trail, where and when it happened,
/// exactly when the overlay is on, the drag trail is turned on in the
/// settings and a button is held; otherwise the trail stays as it was. With
/// the drag trail turned off no mouse event changes the trail.
pub proof fn lemma_move_trail(
    e: EffectsState,
    cfg: Config,
    msg: u32,
    x: i32,
    y: i32,
    mouse_data: u32,
    now: u64,
    double_ms: u32,
)
    ensures
        ({
            let t = mouse_step(e, cfg, WM_MOUSEMOVE, x, y, mouse_data, now, double_ms).0.trail;
            if e.enabled && cfg.show_drag && e.buttons_down > 0 {
                &&& t.len() == e.trail.len() + 1
                &&& t.last() == (TrailDot { x, y, start: now })
                &&& t.drop_last() == e.trail
            } else {
                t == e.trail
            }
        }),
        !cfg.show_drag ==> mouse_step(e, cfg, msg, x, y, mouse_data, now, double_ms).0.trail
            == e.trail,
        msg != WM_MOUSEMOVE ==> mouse_step(e, cfg, msg, x, y, mouse_data, now, double_ms).0.trail
            == e.trail,
{
    let t = mouse_step(e, cfg, WM_MOUSEMOVE, x, y, mouse_data, now, double_ms).0.trail;
    if e.enabled && cfg.show_drag && e.buttons_down > 0 {
        assert(t.drop_last() =~= e.trail);
    }
}

/// With the overlay and the spotlight on, the spotlight is never hidden, and
/// it is left as it is exactly when it is shown, the cursor is where it was
/// last drawn (in both coordinates) and the settings window is closed; any
/// move of the cursor draws it again. With either off it is never drawn, and
/// it is hidden exactly when it is shown.
pub proof fn lemma_spot_redraw(
    enabled: bool,
    spotlight: bool,
    visible: bool,
    cursor: (i32, i32),
    last: (i32, i32),
    settings_open: bool,
)
    ensures
        enabled && spotlight ==> (spot_action_of(
            enabled,
            spotlight,
            visible,
            cursor,
            last,
            settings_open,
        ) == SpotAction::Nothing <==> (visible && cursor.0 == last.0 && cursor.1 == last.1
            && !settings_open)),
        enabled && spotlight ==> spot_action_of(
            enabled,
            spotlight,
            visible,
            cursor,
            last,
            settings_open,
        ) != SpotAction::Hide,
        enabled && spotlight && (cursor.0 != last.0 || cursor.1 != last.1) ==> spot_action_of(
            enabled,
            spotlight,
            visible,
            cursor,
            last,
            settings_open,
        ) == SpotAction::Draw,
        !(enabled && spotlight) ==> spot_action_of(
            enabled,
            spotlight,
            visible,
            cursor,
            last,
            settings_open,
        ) != SpotAction::Draw,
        !(enabled && spotlight) ==> (spot_action_of(
            enabled,
            spotlight,
            visible,
            cursor,
            last,
            settings_open,
        ) == SpotAction::Hide <==> visible),
{
}

/// While the overlay is on: a right or middle button going down at `(x, y)`
/// leaves one ripple more, there, at `now`, in that button's colour and not a
/// double click, and one button more held; a button going up leaves one
/// button fewer held (none when none was) and the ripples as they were; a
/// turn of the wheel leaves one scroll hint more, pointing up exactly when the
/// turn was away from the user, when scroll hints are turned on, and none
/// otherwise.
pub proof fn lemma_buttons_and_wheel(
    e: EffectsState,
    cfg: Config,
    msg: u32,
    x: i32,
    y: i32,
    mouse_data: u32,
    now: u64,
    double_ms: u32,
)
    requires
        e.enabled,
    ensures
        ({
            let r = mouse_step(e, cfg, msg, x, y, mouse_data, now, double_ms).0;
            &&& (msg == WM_RBUTTONDOWN || msg == WM_MBUTTONDOWN) ==> {
                &&& r.ripples.len() == e.ripples.len() + 1
                &&& r.ripples.drop_last() == e.ripples
                &&& r.ripples.last().x == x && r.ripples.last().y == y
                &&& r.ripples.last().start == now
                &&& !r.ripples.last().double
                &&& r.ripples.last().color == if msg == WM_RBUTTONDOWN {
                    cfg.right_color
                } else {
                    cfg.middle_color
                }
                &&& r.buttons_down as int == (e.buttons_down as int + 1) % 256
                &&& r.cursor == (x, y)
            }
            &&& (msg == WM_LBUTTONUP || msg == WM_RBUTTONUP || msg == WM_MBUTTONUP) ==> {
                &&& r.buttons_down as int == if e.buttons_down == 0 {
                    0
                } else {
                    e.buttons_down - 1
                }
                &&& r.ripples == e.ripples
                &&& r.scrolls == e.scrolls
            }
            &&& msg == WM_MOUSEWHEEL ==> if cfg.show_scroll {
                &&& r.scrolls.len() == e.scrolls.len() + 1
                &&& r.scrolls.drop_last() == e.scrolls
                &&& r.scrolls.last().x == x && r.scrolls.last().y == y
                &&& r.scrolls.last().start == now
                &&& r.scrolls.last().up == (0 < mouse_data as int / 0x1_0000 < 0x8000)
            } else {
                r.scrolls == e.scrolls
            }
            &&& msg != WM_MOUSEWHEEL ==> r.scrolls == e.scrolls
        }),
{
    let r = mouse_step(e, cfg, msg, x, y, mouse_data, now, double_ms).0;
    if msg == WM_RBUTTONDOWN || msg == WM_MBUTTONDOWN {
        assert(r.ripples.drop_last() =~= e.ripples);
    }
    if msg == WM_MOUSEWHEEL && cfg.show_scroll {
        assert(r.scrolls.drop_last() =~= e.scrolls);
    }
}

/// While the overlay is on, a mouse move puts the cursor where the mouse is
/// and redraws the highlight and the spotlight when at least 7 ms have passed
/// since they were last drawn, and draws nothing otherwise; a button going
/// down, or a turn of the wheel with scroll hints on, redraws the highlight.
pub proof fn lemma_move_redraw(
    e: EffectsState,
    cfg: Config,
    x: i32,
    y: i32,
    mouse_data: u32,
    now: u64,
    double_ms: u32,
)
    requires
        e.enabled,
    ensures
        mouse_step(e, cfg, WM_MOUSEMOVE, x, y, mouse_data, now, double_ms).0.cursor == (x, y),
        mouse_step(e, cfg, WM_MOUSEMOVE, x, y, mouse_data, now, double_ms).1 == if now
            >= e.last_render + 7_000_000 {
            Redraw::HighlightAndSpot
        } else {
            Redraw::Nothing
        },
        mouse_step(e, cfg, WM_LBUTTONDOWN, x, y, mouse_data, now, double_ms).1
            == Redraw::Highlight,
        mouse_step(e, cfg, WM_RBUTTONDOWN, x, y, mouse_data, now, double_ms).1
            == Redraw::Highlight,
        mouse_step(e, cfg, WM_MBUTTONDOWN, x, y, mouse_data, now, double_ms).1
            == Redraw::Highlight,
        cfg.show_scroll ==> mouse_step(e, cfg, WM_MOUSEWHEEL, x, y, mouse_data, now, double_ms).1
            == Redraw::Highlight,
{
}

/// While the overlay is on, a left click is a double click exactly when the
/// last single left click was at most `double_ms` whole milliseconds before it
/// and at most 6 pixels away along each axis; its ripple then has the double
/// click colour and no click waits to be doubled, and otherwise it has the
/// left colour and is the click that waits.
pub proof fn lemma_left_click(
    e: EffectsState,
    cfg: Config,
    x: i32,
    y: i32,
    mouse_data: u32,
    now: u64,
    double_ms: u32,
)
    requires
        e.enabled,
    ensures
        ({
            let r = mouse_step(e, cfg, WM_LBUTTONDOWN, x, y, mouse_data, now, double_ms).0;
            let d = match e.last_left {
                Some((t, (lx, ly))) => (if now >= t {
                    (now - t) / 1_000_000
                } else {
                    0
                }) <= double_ms && -6 <= x - lx <= 6 && -6 <= y - ly <= 6,
                None => false,
            };
            &&& r.ripples.len() == e.ripples.len() + 1
            &&& r.ripples.last().double == d
            &&& r.ripples.last().color == if d {
                cfg.double_color
            } else {
                cfg.left_color
            }
            &&& r.last_left == if d {
                None
            } else {
                Some((now, (x, y)))
            }
        }),
{
}

} // verus!
