//! The state of the visual command line: how far the text is scrolled, where
//! the caret stands, and what the scrollbar looks like. Drawing is left to the
//! program that embeds it; this module decides what is to be drawn where.

use vstd::prelude::*;
use vstd::string::*;

use crate::font::Font;
use crate::screen::Screen;

verus! {

/// The height of an arrow button of the scrollbar with the line under it.
pub const ARROW: u32 = 17;

/// How far one press on an arrow button of the scrollbar scrolls.
pub const ARROW_STEP: u32 = 20;

/// What the pointer does to the thumb of the scrollbar.
#[derive(Clone, Copy, Debug, PartialEq, Eq, Structural)]
pub enum ScrollbarState {
    /// The pointer is elsewhere.
    Blurred,
    /// The pointer is over the thumb.
    Hovered,
    /// The thumb is held.
    Pressed,
}

/// The visual command line.
pub struct VisualCommandLine {
    scroll_locked: bool,
    scrollbar_state: ScrollbarState,
    font: Font,
    ticks: usize,
    last_pos: (u32, u32),
    scroll: u32,
}

/// A visual command line as contracts see it.
pub struct VisualView {
    /// Whether the view follows the end of the text.
    pub scroll_locked: bool,
    pub scrollbar_state: ScrollbarState,
    pub font: Font,
    /// The number of frames since the view was made.
    pub ticks: usize,
    /// Where the text ended when it was last laid out.
    pub last_pos: (u32, u32),
    /// How far down the text is scrolled.
    pub scroll: u32,
}

/// The height of the window as the scrollbar sees it: at least the two arrow
/// buttons.
pub open spec fn track_height(window_height: u32) -> int {
    if window_height > 2 * ARROW {
        window_height as int
    } else {
        2 * ARROW
    }
}

/// `a` where it is not negative, and zero where it is.
pub open spec fn at_least_zero(a: int) -> int {
    if a < 0 {
        0
    } else {
        a
    }
}

/// The quotient of `a` by `b`, rounded towards zero.
pub open spec fn quotient(a: int, b: int) -> int {
    if a >= 0 {
        a / b
    } else {
        -((-a) / b)
    }
}

/// A quotient is no further from zero than what was divided.
proof fn quotient_is_no_larger(a: int, b: int)
    requires
        b != 0,
    ensures
        a >= 0 ==> -a <= quotient(a, b) <= a,
        a < 0 ==> a <= quotient(a, b) <= -a,
{
    let n = if a >= 0 {
        a
    } else {
        -a
    };
    assert(-n <= n / b <= n) by (nonlinear_arith)
        requires
            n >= 0,
            b != 0,
    ;
}

/// The number that the 32 bits of `v` stand for when they are read as signed.
pub open spec fn as_signed(v: u32) -> int {
    if v <= i32::MAX {
        v as int
    } else {
        v - 0x1_0000_0000
    }
}

/// A position as a rectangle of SDL holds it: no further from zero than half
/// the range of `i32`.
pub open spec fn clamped_position(v: int) -> int {
    if v > 0x3fff_ffff {
        0x3fff_ffff
    } else if v < -0x4000_0000 {
        -0x4000_0000
    } else {
        v
    }
}

/// A width or height as a rectangle of SDL holds it: at least one, and at
/// most half the range of `i32`.
pub open spec fn clamped_size(v: int) -> int {
    if v == 0 {
        1
    } else if v > 0x3fff_ffff {
        0x3fff_ffff
    } else {
        v
    }
}

/// Whether the rectangle of SDL that is made of `rect` (left, top, width,
/// height) holds `point`. The rectangle holds its left and top edge and not
/// its right and bottom edge.
pub open spec fn rect_hit(rect: (int, int, int, int), point: (int, int)) -> bool {
    let left = clamped_position(rect.0);
    let top = clamped_position(rect.1);
    &&& left <= point.0 < left + clamped_size(rect.2)
    &&& top <= point.1 < top + clamped_size(rect.3)
}

/// The rectangle `rect` with each of its numbers as an `int`.
pub open spec fn rect_ints(rect: (i32, i32, u32, u32)) -> (int, int, int, int) {
    (rect.0 as int, rect.1 as int, rect.2 as int, rect.3 as int)
}

/// Tells whether the rectangle of SDL that is made of `rect` holds `point`.
pub fn rect_contains_point(rect: (i32, i32, u32, u32), point: (i32, i32)) -> (hit: bool)
    ensures
        hit == rect_hit(rect_ints(rect), (point.0 as int, point.1 as int)),
{
    let left: i32 = if rect.0 > 0x3fff_ffff {
        0x3fff_ffff
    } else if rect.0 < -0x4000_0000 {
        -0x4000_0000
    } else {
        rect.0
    };
    let top: i32 = if rect.1 > 0x3fff_ffff {
        0x3fff_ffff
    } else if rect.1 < -0x4000_0000 {
        -0x4000_0000
    } else {
        rect.1
    };
    let width: i32 = if rect.2 == 0 {
        1
    } else if rect.2 > 0x3fff_ffff {
        0x3fff_ffff
    } else {
        rect.2 as i32
    };
    let height: i32 = if rect.3 == 0 {
        1
    } else if rect.3 > 0x3fff_ffff {
        0x3fff_ffff
    } else {
        rect.3 as i32
    };
    left <= point.0 && point.0 < left + width && top <= point.1 && point.1 < top + height
}

/// Reads the 32 bits of `v` as signed.
pub fn signed(v: u32) -> (r: i32)
    ensures
        r == as_signed(v),
{
    if v <= 0x7fff_ffff {
        v as i32
    } else {
        (v as i64 - 0x1_0000_0000) as i32
    }
}

/// The smaller of `a` and `b`.
pub open spec fn smaller(a: int, b: int) -> int {
    if a < b {
        a
    } else {
        b
    }
}

impl VisualView {
    /// Whether the caret is drawn in this frame: it is drawn for ten frames
    /// and hidden for the next ten.
    pub open spec fn caret_rendered(self) -> bool {
        (self.ticks / 10) % 2 == 0
    }

    /// The rectangle of the thumb of the scrollbar (left, top, width, height)
    /// in a window of the size `window`, while the text is `overflow` high.
    /// A text that is lower than the window has no scrollbar, and its thumb
    /// is the rectangle of zeros.
    pub open spec fn thumb_rect(self, window: (u32, u32), overflow: u32) -> (int, int, int, int) {
        let height = track_height(window.1);
        if height > overflow {
            (0, 0, 0, 0)
        } else {
            let scroll = smaller(self.scroll as int, overflow - height);
            (
                window.0 - 15,
                scroll * (height - 2 * ARROW) / (overflow as int) + ARROW,
                14,
                (height - 2 * ARROW) * height / (overflow as int),
            )
        }
    }

    /// Whether the rectangle of the thumb can be computed in 32-bit
    /// arithmetic.
    pub open spec fn thumb_fits(self, window: (u32, u32), overflow: u32) -> bool {
        let height = track_height(window.1);
        let scroll = smaller(self.scroll as int, overflow - height);
        height <= overflow ==> {
            &&& 15 <= window.0 <= i32::MAX + 15
            &&& (height - 2 * ARROW) * height <= u32::MAX
            &&& scroll * (height - 2 * ARROW) <= u32::MAX
            &&& scroll * (height - 2 * ARROW) / (overflow as int) + ARROW <= i32::MAX
        }
    }

    /// The view after the text was scrolled by `n`.
    pub open spec fn scroll_by(self, n: i32) -> Self {
        VisualView {
            scroll_locked: false,
            scroll: at_least_zero(self.scroll + n) as u32,
            ..self
        }
    }

    /// The view after the mouse was pressed: on the thumb, which is then
    /// held; on the arrow at the top, which scrolls up; on the arrow at the
    /// bottom, which scrolls down. Each of them unlocks the scrolling.
    pub open spec fn press_on(self, on_thumb: bool, on_top: bool, on_bottom: bool) -> Self {
        let up = if on_top {
            at_least_zero(self.scroll - ARROW_STEP)
        } else {
            self.scroll as int
        };
        let down = if on_bottom {
            up + ARROW_STEP
        } else {
            up
        };
        VisualView {
            scrollbar_state: if on_thumb {
                ScrollbarState::Pressed
            } else {
                self.scrollbar_state
            },
            scroll_locked: self.scroll_locked && !on_thumb && !on_top && !on_bottom,
            scroll: down as u32,
            ..self
        }
    }

    /// How far a held thumb that is moved by `delta` scrolls the text in a
    /// window that is `window_height` high.
    pub open spec fn drag(self, window_height: u32, delta: i32) -> int {
        quotient(delta * self.last_pos.1, window_height - 2 * ARROW)
    }

    /// The view after the mouse was moved. A held thumb scrolls the text;
    /// else the thumb is hovered or not.
    pub open spec fn move_on(self, window_height: u32, on_thumb: bool, delta: i32) -> Self {
        if self.scrollbar_state == ScrollbarState::Pressed {
            VisualView {
                scroll: at_least_zero(self.scroll + self.drag(window_height, delta)) as u32,
                ..self
            }
        } else {
            VisualView {
                scrollbar_state: if on_thumb {
                    ScrollbarState::Hovered
                } else {
                    ScrollbarState::Blurred
                },
                ..self
            }
        }
    }

    /// Whether a move of the mouse can be followed in 32-bit arithmetic
    /// while the thumb is held.
    pub open spec fn drag_fits(self, window_height: u32, delta: i32) -> bool {
        self.scrollbar_state == ScrollbarState::Pressed ==> {
            &&& window_height <= i32::MAX
            &&& window_height != 2 * ARROW
            &&& self.last_pos.1 <= i32::MAX
            &&& self.scroll <= i32::MAX
            &&& i32::MIN <= delta * self.last_pos.1 <= i32::MAX
            &&& i32::MIN <= self.drag(window_height, delta) <= i32::MAX
            &&& i32::MIN <= self.scroll + self.drag(window_height, delta) <= i32::MAX
        }
    }

    /// The squares of the arrow buttons of the scrollbar (left, top, width,
    /// height) in a window of the size `window`: the one at the top, then the
    /// one at the bottom. The size of the window is read as signed.
    pub open spec fn arrow_rects(window: (u32, u32)) -> ((int, int, int, int), (int, int, int, int)) {
        (
            (as_signed(window.0) - 16, 0, 16, 16),
            (as_signed(window.0) - 16, as_signed(window.1) - 16, 16, 16),
        )
    }

    /// Whether the squares of the arrow buttons can be computed in 32-bit
    /// arithmetic.
    pub open spec fn arrows_fit(window: (u32, u32)) -> bool {
        as_signed(window.0) - 16 >= i32::MIN && as_signed(window.1) - 16 >= i32::MIN
    }

    /// Whether the pointer at `pos` is over the thumb of the scrollbar in a
    /// window of the size `window`.
    pub open spec fn over_thumb(self, window: (u32, u32), pos: (i32, i32)) -> bool {
        rect_hit(self.thumb_rect(window, self.last_pos.1), (pos.0 as int, pos.1 as int))
    }

    /// The view after the mouse was pressed at `pos` in a window of the size
    /// `window`.
    pub open spec fn mouse_press(self, window: (u32, u32), pos: (i32, i32)) -> Self {
        let point = (pos.0 as int, pos.1 as int);
        self.press_on(
            self.over_thumb(window, pos),
            rect_hit(Self::arrow_rects(window).0, point),
            rect_hit(Self::arrow_rects(window).1, point),
        )
    }

    /// Whether a press of the mouse at `pos` can be followed in 32-bit
    /// arithmetic.
    pub open spec fn press_fits(self, window: (u32, u32), pos: (i32, i32)) -> bool {
        let point = (pos.0 as int, pos.1 as int);
        let on_top = rect_hit(Self::arrow_rects(window).0, point);
        let on_bottom = rect_hit(Self::arrow_rects(window).1, point);
        &&& Self::arrows_fit(window)
        &&& self.thumb_fits(window, self.last_pos.1)
        &&& on_top ==> self.scroll <= i32::MAX
        &&& on_bottom ==> self.press_on(self.over_thumb(window, pos), on_top, false).scroll
            + ARROW_STEP <= u32::MAX
    }

    /// The view after the mouse was moved by `delta` to `pos` in a window of
    /// the size `window`.
    pub open spec fn mouse_move(self, window: (u32, u32), pos: (i32, i32), delta: i32) -> Self {
        self.move_on(window.1, self.over_thumb(window, pos), delta)
    }

    /// Whether a move of the mouse can be followed in 32-bit arithmetic.
    pub open spec fn move_fits(self, window: (u32, u32), delta: i32) -> bool {
        self.thumb_fits(window, self.last_pos.1) && self.drag_fits(window.1, delta)
    }

    /// The right end of the lines of text in a window that is `width` wide:
    /// the scrollbar takes sixteen columns once the text is higher than the
    /// window.
    pub open spec fn right_bound(self, wsize: (u32, u32)) -> int {
        if self.last_pos.1 > wsize.1 {
            wsize.0 - 16
        } else {
            wsize.0 as int
        }
    }

    /// Where `text` ends when it is laid out in a window of the size `wsize`.
    pub open spec fn text_end(self, wsize: (u32, u32), text: Seq<char>) -> (int, int) {
        self.font.layout(0, 0, self.right_bound(wsize), text)
    }

    /// The view after a frame in which `text` was shown in a window of the
    /// size `wsize`. The text is laid out again; a locked view follows its
    /// end; and no view is scrolled further than to the point where the last
    /// line of the text stands at the bottom of the window.
    pub open spec fn update(self, wsize: (u32, u32), text: Seq<char>) -> Self {
        let end = self.text_end(wsize, text);
        let last = (at_least_zero(end.0), at_least_zero(end.1));
        let scroll = if self.scroll_locked {
            last.1
        } else {
            self.scroll as int
        };
        VisualView {
            ticks: (self.ticks + 1) as usize,
            last_pos: (last.0 as u32, last.1 as u32),
            scroll: smaller(scroll, at_least_zero(last.1 - wsize.1 + 16)) as u32,
            ..self
        }
    }

    /// Whether a frame can be computed in machine arithmetic.
    pub open spec fn update_fits(self, wsize: (u32, u32), text: Seq<char>) -> bool {
        let end = self.text_end(wsize, text);
        &&& self.ticks < usize::MAX
        &&& wsize.0 <= i32::MAX
        &&& wsize.1 <= i32::MAX
        &&& self.font.layout_fits(0, 0, self.right_bound(wsize), text)
        &&& at_least_zero(end.1) - wsize.1 + 16 <= i32::MAX
    }
}

impl View for VisualCommandLine {
    type V = VisualView;

    closed spec fn view(&self) -> VisualView {
        VisualView {
            scroll_locked: self.scroll_locked,
            scrollbar_state: self.scrollbar_state,
            font: self.font,
            ticks: self.ticks,
            last_pos: self.last_pos,
            scroll: self.scroll,
        }
    }
}

impl VisualCommandLine {
    /// A view of no text yet, which follows the end of the text.
    pub fn new(font: Font) -> (view: Self)
        ensures
            view@ == (VisualView {
                scroll_locked: true,
                scrollbar_state: ScrollbarState::Blurred,
                font,
                ticks: 0,
                last_pos: (0, 0),
                scroll: 0,
            }),
    {
        Self {
            ticks: 0,
            font,
            scroll: 0,
            scrollbar_state: ScrollbarState::Blurred,
            last_pos: (0, 0),
            scroll_locked: true,
        }
    }

    /// The font of the text.
    pub fn font(&self) -> (font: &Font)
        ensures
            *font == self@.font,
    {
        &self.font
    }

    /// How far down the text is scrolled.
    pub fn scroll(&self) -> (scroll: u32)
        ensures
            scroll == self@.scroll,
    {
        self.scroll
    }

    /// Where the text ended when it was last laid out.
    pub fn last_pos(&self) -> (pos: (u32, u32))
        ensures
            pos == self@.last_pos,
    {
        self.last_pos
    }

    /// What the pointer does to the thumb of the scrollbar.
    pub fn scrollbar_state(&self) -> (state: ScrollbarState)
        ensures
            state == self@.scrollbar_state,
    {
        self.scrollbar_state
    }

    /// Whether the caret is drawn in this frame.
    pub fn is_caret_rendered(&self) -> (rendered: bool)
        ensures
            rendered == self@.caret_rendered(),
    {
        (self.ticks / 10) % 2 == 0
    }

    /// The squares of the arrow buttons of the scrollbar (left, top, width,
    /// height) in a window of the size `window`: the one at the top, then the
    /// one at the bottom.
    pub fn arrow_rects(window: (u32, u32)) -> (rects: ((i32, i32, u32, u32), (i32, i32, u32, u32)))
        requires
            VisualView::arrows_fit(window),
        ensures
            (rect_ints(rects.0), rect_ints(rects.1)) == VisualView::arrow_rects(window),
    {
        let width = signed(window.0);
        let height = signed(window.1);
        ((width - 16, 0, 16, 16), (width - 16, height - 16, 16, 16))
    }

    /// Follows a press of the mouse at `mouse_pos` in a window of the size
    /// `window`: on the thumb of the scrollbar, which is then held, or on one
    /// of its arrows, which scrolls.
    pub fn mouse_press(&mut self, window: (u32, u32), mouse_pos: (i32, i32))
        requires
            old(self)@.press_fits(window, mouse_pos),
        ensures
            final(self)@ == old(self)@.mouse_press(window, mouse_pos),
    {
        let (top, bottom) = Self::arrow_rects(window);
        let thumb = self.get_scrollbar_thumb_rect(window, self.last_pos.1);
        let on_thumb = rect_contains_point(thumb, mouse_pos);
        let on_top = rect_contains_point(top, mouse_pos);
        let on_bottom = rect_contains_point(bottom, mouse_pos);
        self.press_on(on_thumb, on_top, on_bottom);
    }

    /// Does what [`VisualCommandLine::mouse_press`] does if the press can be
    /// followed in 32-bit arithmetic, and tells so; else leaves the view as
    /// it is.
    pub fn try_mouse_press(&mut self, window: (u32, u32), mouse_pos: (i32, i32)) -> (done: bool)
        ensures
            done == old(self)@.press_fits(window, mouse_pos),
            final(self)@ == (if done {
                old(self)@.mouse_press(window, mouse_pos)
            } else {
                old(self)@
            }),
    {
        if signed(window.0) < -0x8000_0000 + 16 || signed(window.1) < -0x8000_0000 + 16 {
            return false;
        }
        let (top, bottom) = Self::arrow_rects(window);
        let thumb = match self.checked_scrollbar_thumb_rect(window, self.last_pos.1) {
            Some(rect) => rect,
            None => {
                return false;
            },
        };
        let on_top = rect_contains_point(top, mouse_pos);
        let on_bottom = rect_contains_point(bottom, mouse_pos);
        if on_top && self.scroll > 0x7fff_ffff {
            return false;
        }
        let after_top: u32 = if on_top {
            if self.scroll > ARROW_STEP {
                self.scroll - ARROW_STEP
            } else {
                0
            }
        } else {
            self.scroll
        };
        if on_bottom && after_top > 0xffff_ffff - ARROW_STEP {
            return false;
        }
        self.mouse_press(window, mouse_pos);
        true
    }

    /// Follows a move of the mouse by `mouse_delta_y` to `mouse_pos` in a
    /// window of the size `window`, and tells whether the thumb is held.
    pub fn mouse_move(&mut self, window: (u32, u32), mouse_pos: (i32, i32), mouse_delta_y: i32) -> (held:
        bool)
        requires
            old(self)@.move_fits(window, mouse_delta_y),
        ensures
            held == (old(self)@.scrollbar_state == ScrollbarState::Pressed),
            final(self)@ == old(self)@.mouse_move(window, mouse_pos, mouse_delta_y),
    {
        let thumb = self.get_scrollbar_thumb_rect(window, self.last_pos.1);
        let on_thumb = rect_contains_point(thumb, mouse_pos);
        self.move_on(window.1, on_thumb, mouse_delta_y)
    }

    /// Does what [`VisualCommandLine::mouse_move`] does and returns what it
    /// returns if the move can be followed in 32-bit arithmetic; else leaves
    /// the view as it is and returns nothing.
    pub fn try_mouse_move(&mut self, window: (u32, u32), mouse_pos: (i32, i32), mouse_delta_y: i32) -> (held:
        Option<bool>)
        ensures
            held is Some <==> old(self)@.move_fits(window, mouse_delta_y),
            held matches Some(h) ==> h == (old(self)@.scrollbar_state == ScrollbarState::Pressed),
            final(self)@ == (if held is Some {
                old(self)@.mouse_move(window, mouse_pos, mouse_delta_y)
            } else {
                old(self)@
            }),
    {
        let thumb = match self.checked_scrollbar_thumb_rect(window, self.last_pos.1) {
            Some(rect) => rect,
            None => {
                return None;
            },
        };
        let on_thumb = rect_contains_point(thumb, mouse_pos);
        self.try_move_on(window.1, on_thumb, mouse_delta_y)
    }

    /// The right end of the lines of text in a window of the size `wsize`.
    pub fn right_bound(&self, wsize: (u32, u32)) -> (bound: i32)
        requires
            wsize.0 <= i32::MAX,
        ensures
            bound == self@.right_bound(wsize),
    {
        if self.last_pos.1 > wsize.1 {
            wsize.0 as i32 - 16
        } else {
            wsize.0 as i32
        }
    }

    /// Follows a press of the mouse on what the caller says was hit: the
    /// thumb of the scrollbar, the arrow at its top, the arrow at its bottom.
    pub fn press_on(&mut self, on_thumb: bool, on_top: bool, on_bottom: bool)
        requires
            on_top ==> old(self)@.scroll <= i32::MAX,
            on_bottom ==> old(self)@.press_on(on_thumb, on_top, false).scroll + ARROW_STEP
                <= u32::MAX,
        ensures
            final(self)@ == old(self)@.press_on(on_thumb, on_top, on_bottom),
    {
        if on_thumb {
            self.scrollbar_state = ScrollbarState::Pressed;
            self.scroll_locked = false;
        }
        if on_top {
            self.scroll = if self.scroll > ARROW_STEP {
                self.scroll - ARROW_STEP
            } else {
                0
            };
            self.scroll_locked = false;
        }
        if on_bottom {
            self.scroll = self.scroll + ARROW_STEP;
            self.scroll_locked = false;
        }
    }

    /// Follows a move of the mouse by `mouse_delta_y` in a window that is
    /// `window_height` high, and tells whether the thumb is held. The caller
    /// tells whether the pointer is over the thumb.
    pub fn move_on(&mut self, window_height: u32, on_thumb: bool, mouse_delta_y: i32) -> (held:
        bool)
        requires
            old(self)@.drag_fits(window_height, mouse_delta_y),
        ensures
            held == (old(self)@.scrollbar_state == ScrollbarState::Pressed),
            final(self)@ == old(self)@.move_on(window_height, on_thumb, mouse_delta_y),
    {
        match self.scrollbar_state {
            ScrollbarState::Pressed => {
                let height = window_height as i32;
                let overflow_height = self.last_pos.1 as i32;
                let travel = mouse_delta_y * overflow_height;
                let track = height - 2 * (ARROW as i32);
                assert(!(travel == i32::MIN && track == -1)) by {
                    assert((0x8000_0000int) / (-1int) == -0x8000_0000int);
                }
                let step = travel / track;
                let moved = self.scroll as i32 + step;
                self.scroll = if moved > 0 {
                    moved as u32
                } else {
                    0
                };
                true
            },
            _ => {
                if on_thumb {
                    self.scrollbar_state = ScrollbarState::Hovered;
                } else {
                    self.scrollbar_state = ScrollbarState::Blurred;
                }
                false
            },
        }
    }

    /// Makes the view follow the end of the text again.
    pub fn lock_scroll(&mut self)
        ensures
            final(self)@ == (VisualView { scroll_locked: true, ..old(self)@ }),
    {
        self.scroll_locked = true;
    }

    /// Follows the release of the mouse: the thumb is not held any more.
    pub fn mouse_release(&mut self)
        ensures
            final(self)@ == (VisualView {
                scrollbar_state: ScrollbarState::Blurred,
                ..old(self)@
            }),
    {
        self.scrollbar_state = ScrollbarState::Blurred;
    }

    /// The rectangle of the thumb of the scrollbar (left, top, width, height)
    /// in a window of the size `window`, while the text is `overflow_height`
    /// high.
    pub fn get_scrollbar_thumb_rect(&self, window: (u32, u32), overflow_height: u32) -> (rect: (
        i32,
        i32,
        u32,
        u32,
    ))
        requires
            self@.thumb_fits(window, overflow_height),
        ensures
            (rect.0 as int, rect.1 as int, rect.2 as int, rect.3 as int) == self@.thumb_rect(
                window,
                overflow_height,
            ),
    {
        let height = if window.1 > 2 * ARROW {
            window.1
        } else {
            2 * ARROW
        };
        if height > overflow_height {
            return (0, 0, 0, 0);
        }
        let scroll = if self.scroll < overflow_height - height {
            self.scroll
        } else {
            overflow_height - height
        };
        let starting_at = window.0 - 15;
        let thumb_height = (height - 2 * ARROW) * height / overflow_height;
        let top = scroll * (height - 2 * ARROW) / overflow_height;
        (starting_at as i32, top as i32 + ARROW as i32, 14, thumb_height)
    }

    /// Scrolls the text by `n`, and stops following its end.
    pub fn scroll_by(&mut self, n: i32)
        requires
            old(self)@.scroll <= i32::MAX,
            i32::MIN <= old(self)@.scroll + n <= i32::MAX,
        ensures
            final(self)@ == old(self)@.scroll_by(n),
    {
        self.scroll_locked = false;
        let moved = self.scroll as i32 + n;
        self.scroll = if moved > 0 {
            moved as u32
        } else {
            0
        };
    }

    /// Does what [`VisualCommandLine::scroll_by`] does if that can be done in
    /// 32-bit arithmetic, and tells so; else leaves the view as it is.
    pub fn try_scroll_by(&mut self, n: i32) -> (done: bool)
        ensures
            done == (old(self)@.scroll <= i32::MAX && i32::MIN <= old(self)@.scroll + n
                <= i32::MAX),
            final(self)@ == (if done {
                old(self)@.scroll_by(n)
            } else {
                old(self)@
            }),
    {
        if self.scroll > 0x7fff_ffff {
            return false;
        }
        let moved = self.scroll as i64 + n as i64;
        if moved > 0x7fff_ffff || moved < -0x8000_0000 {
            return false;
        }
        self.scroll_by(n);
        true
    }

    /// The height of the track of the scrollbar in a window that is
    /// `window_height` high, if the text is high enough for a scrollbar to be
    /// shown, and nothing if it is not.
    pub fn scrollbar_height(&self, window_height: u32) -> (height: Option<u32>)
        ensures
            height is Some <==> track_height(window_height) <= self@.last_pos.1,
            height matches Some(h) ==> h == track_height(window_height),
    {
        let height = if window_height > 2 * ARROW {
            window_height
        } else {
            2 * ARROW
        };
        if height > self.last_pos.1 {
            None
        } else {
            Some(height)
        }
    }

    /// One frame: counts it, lays out the text of `cmd` in a window of the
    /// size `wsize`, and scrolls after its end where the view is locked.
    pub fn update(&mut self, wsize: (u32, u32), cmd: &Screen)
        requires
            old(self)@.update_fits(wsize, cmd@.text),
        ensures
            final(self)@ == old(self)@.update(wsize, cmd@.text),
    {
        self.ticks = self.ticks + 1;
        let height = wsize.1;
        let right_bound = self.right_bound(wsize);
        let end = self.font.get_size_from_string(0, 0, right_bound, cmd.get_text());
        let x = if end.0 > 0 {
            end.0 as u32
        } else {
            0
        };
        let y = if end.1 > 0 {
            end.1 as u32
        } else {
            0
        };
        self.last_pos = (x, y);
        if self.scroll_locked {
            self.scroll = self.last_pos.1;
        }
        let furthest = y as i32 - height as i32 + 16;
        let furthest = if furthest > 0 {
            furthest as u32
        } else {
            0
        };
        if furthest < self.scroll {
            self.scroll = furthest;
        }
    }

    /// Does what [`VisualCommandLine::update`] does if the frame can be
    /// computed in machine arithmetic, and tells so; else leaves the view as
    /// it is.
    pub fn try_update(&mut self, wsize: (u32, u32), cmd: &Screen) -> (done: bool)
        ensures
            done == old(self)@.update_fits(wsize, cmd@.text),
            final(self)@ == (if done {
                old(self)@.update(wsize, cmd@.text)
            } else {
                old(self)@
            }),
    {
        if self.ticks == usize::MAX || wsize.0 > 0x7fff_ffff || wsize.1 > 0x7fff_ffff {
            return false;
        }
        let right_bound = self.right_bound(wsize);
        match self.font.checked_size_from_string(0, 0, right_bound, cmd.get_text()) {
            None => false,
            Some(end) => {
                let y: i64 = if end.1 > 0 {
                    end.1 as i64
                } else {
                    0
                };
                if y - wsize.1 as i64 + 16 > 0x7fff_ffff {
                    return false;
                }
                self.update(wsize, cmd);
                true
            },
        }
    }

    /// Does what [`VisualCommandLine::move_on`] does and returns what it
    /// returns if the move can be followed in 32-bit arithmetic; else leaves
    /// the view as it is and returns nothing.
    pub fn try_move_on(&mut self, window_height: u32, on_thumb: bool, mouse_delta_y: i32) -> (held:
        Option<bool>)
        ensures
            held is Some <==> old(self)@.drag_fits(window_height, mouse_delta_y),
            held matches Some(h) ==> h == (old(self)@.scrollbar_state == ScrollbarState::Pressed),
            final(self)@ == (if held is Some {
                old(self)@.move_on(window_height, on_thumb, mouse_delta_y)
            } else {
                old(self)@
            }),
    {
        match self.scrollbar_state {
            ScrollbarState::Pressed => {
                if window_height > 0x7fff_ffff || window_height == 2 * ARROW || self.last_pos.1
                    > 0x7fff_ffff || self.scroll > 0x7fff_ffff {
                    return None;
                }
                assert(-0x8000_0000 * 0x8000_0000 <= mouse_delta_y * self.last_pos.1 <= 0x8000_0000
                    * 0x8000_0000) by (nonlinear_arith)
                    requires
                        -0x8000_0000 <= mouse_delta_y <= 0x8000_0000,
                        0 <= self.last_pos.1 <= 0x8000_0000,
                ;
                let travel = mouse_delta_y as i64 * self.last_pos.1 as i64;
                if travel > 0x7fff_ffff || travel < -0x8000_0000 {
                    return None;
                }
                let track = window_height as i64 - 2 * (ARROW as i64);
                proof {
                    quotient_is_no_larger(travel as int, track as int);
                }
                let step = travel / track;
                if step > 0x7fff_ffff || step < -0x8000_0000 {
                    return None;
                }
                let moved = self.scroll as i64 + step;
                if moved > 0x7fff_ffff || moved < -0x8000_0000 {
                    return None;
                }
                assert(step == quotient(travel as int, track as int));
                assert(step == self@.drag(window_height, mouse_delta_y));
                assert(self@.drag_fits(window_height, mouse_delta_y));
            },
            _ => {
                assert(self@.drag_fits(window_height, mouse_delta_y));
            },
        }
        Some(self.move_on(window_height, on_thumb, mouse_delta_y))
    }

    /// The rectangle that [`VisualCommandLine::get_scrollbar_thumb_rect`]
    /// returns if it can be computed in 32-bit arithmetic, and nothing if not.
    pub fn checked_scrollbar_thumb_rect(&self, window: (u32, u32), overflow_height: u32) -> (rect:
        Option<(i32, i32, u32, u32)>)
        ensures
            rect is Some <==> self@.thumb_fits(window, overflow_height),
            rect matches Some(r) ==> (r.0 as int, r.1 as int, r.2 as int, r.3 as int)
                == self@.thumb_rect(window, overflow_height),
    {
        let height: u64 = if window.1 > 2 * ARROW {
            window.1 as u64
        } else {
            2 * ARROW as u64
        };
        if height <= overflow_height as u64 {
            let scroll: u64 = if (self.scroll as u64) < overflow_height as u64 - height {
                self.scroll as u64
            } else {
                overflow_height as u64 - height
            };
            let track = height - 2 * ARROW as u64;
            assert(track * height <= 0xffff_ffff * 0xffff_ffff && scroll * track <= 0xffff_ffff
                * 0xffff_ffff) by (nonlinear_arith)
                requires
                    0 <= track <= 0xffff_ffff,
                    0 <= height <= 0xffff_ffff,
                    0 <= scroll <= 0xffff_ffff,
            ;
            if window.0 < 15 || window.0 - 15 > 0x7fff_ffff || track * height > 0xffff_ffff
                || scroll * track > 0xffff_ffff || scroll * track / (overflow_height as u64)
                + ARROW as u64 > 0x7fff_ffff {
                return None;
            }
        }
        Some(self.get_scrollbar_thumb_rect(window, overflow_height))
    }
}

} // verus!
