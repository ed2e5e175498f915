//! The tab strip of a tabbed container: one slot per window, all equally
//! wide but for the last, which reaches to the strip's right edge.
use vstd::prelude::*;
use vstd::string::*;
use x11rb::protocol::xproto::Window;
use crate::color::ColorScheme;
use crate::font::Font;
use crate::strip::{StripSetup, strip_setup};
use crate::frame::{DrawOp, DrawOpView, frame_view, lemma_frame_view_push};

verus! {

/// The distance from the top of a tab strip to the top of its line of text.
pub const TAB_TEXT_TOP: i32 = 6;

/// The thickness of the underline of the focused tab.
pub const TAB_UNDERLINE_HEIGHT: i32 = 3;

/// A window in a tab strip: its handle, its title, and the measured width of
/// the label that stands for it (see `tab_label`).
#[derive(Clone, Debug, PartialEq, Eq)]
pub struct Tab {
    pub window: Window,
    pub title: String,
    pub label_width: u16,
}

/// What a `Tab` stands for.
pub struct TabView {
    pub window: u32,
    pub title: Seq<char>,
    pub label_width: u16,
}

impl View for Tab {
    type V = TabView;

    open spec fn view(&self) -> TabView {
        TabView { window: self.window, title: self.title@, label_width: self.label_width }
    }
}

/// What a list of tabs stands for, one by one.
pub open spec fn tabs_view(tabs: Seq<Tab>) -> Seq<TabView> {
    tabs.map_values(|t: Tab| t@)
}

/// The digit that stands for `d`, for `d` below ten.
pub open spec fn digit_char(d: int) -> char {
    if d == 0 {
        '0'
    } else if d == 1 {
        '1'
    } else if d == 2 {
        '2'
    } else if d == 3 {
        '3'
    } else if d == 4 {
        '4'
    } else if d == 5 {
        '5'
    } else if d == 6 {
        '6'
    } else if d == 7 {
        '7'
    } else if d == 8 {
        '8'
    } else {
        '9'
    }
}

/// `n` in decimal digits, without leading zeros.
pub open spec fn decimal(n: nat) -> Seq<char>
    decreases n,
{
    if n < 10 {
        seq![digit_char(n as int)]
    } else {
        decimal(n / 10).push(digit_char((n % 10) as int))
    }
}

/// The label of the window at `index`: its title, or "Window" and its
/// position, counted from one, if it has none.
pub open spec fn tab_label(index: int, title: Seq<char>) -> Seq<char> {
    if title.len() == 0 {
        "Window "@ + decimal((index + 1) as nat)
    } else {
        title
    }
}

fn digit_str(d: u8) -> (out: &'static str)
    requires
        d < 10,
    ensures
        out@ == seq![digit_char(d as int)],
{
    proof {
        reveal_strlit("0");
        reveal_strlit("1");
        reveal_strlit("2");
        reveal_strlit("3");
        reveal_strlit("4");
        reveal_strlit("5");
        reveal_strlit("6");
        reveal_strlit("7");
        reveal_strlit("8");
        reveal_strlit("9");
    }
    let out = if d == 0 {
        "0"
    } else if d == 1 {
        "1"
    } else if d == 2 {
        "2"
    } else if d == 3 {
        "3"
    } else if d == 4 {
        "4"
    } else if d == 5 {
        "5"
    } else if d == 6 {
        "6"
    } else if d == 7 {
        "7"
    } else if d == 8 {
        "8"
    } else {
        "9"
    };
    out
}

/// Writes a number in decimal digits.
pub fn decimal_string(n: u128) -> (out: String)
    ensures
        out@ == decimal(n as nat),
    decreases n,
{
    if n < 10 {
        String::from_str(digit_str(n as u8))
    } else {
        let mut out = decimal_string(n / 10);
        out.append(digit_str((n % 10) as u8));
        out
    }
}

/// The label that stands for the window at `index` in a tab strip.
pub fn tab_label_string(index: usize, title: &str) -> (out: String)
    ensures
        out@ == tab_label(index as int, title@),
{
    if title.is_empty() {
        let mut out = String::from_str("Window ");
        let position = decimal_string(index as u128 + 1);
        out.append(position.as_str());
        out
    } else {
        title.to_owned()
    }
}

/// The state of a tab strip.
pub struct TabBarView {
    pub window: u32,
    pub width: u16,
    pub height: u16,
    pub x_offset: i16,
    pub y_offset: i16,
    pub scheme_normal: ColorScheme,
    pub scheme_selected: ColorScheme,
}

impl TabBarView {
    /// The width of every slot but the last, for `count` windows.
    pub open spec fn tab_width(self, count: int) -> int {
        self.width as int / count
    }

    /// Where slot `i` starts.
    pub open spec fn slot_start(self, count: int, i: int) -> int {
        i * self.tab_width(count)
    }

    /// The width of slot `i`. The last slot ends at the strip's right edge,
    /// and so takes the pixels that the division left over.
    pub open spec fn slot_width(self, count: int, i: int) -> int {
        if i == count - 1 {
            self.width - self.slot_start(count, i)
        } else {
            self.tab_width(count)
        }
    }

    /// The slot that a click at `x` lands in, for `count` windows: the slot
    /// that the division by the tab width gives, or the last one where that
    /// is beyond it. None outside the strip, and none without windows.
    pub open spec fn clicked_index(self, count: int, x: int) -> Option<int> {
        if count > 0 && 0 <= x < self.width {
            if self.tab_width(count) > 0 && x / self.tab_width(count) < count {
                Some(x / self.tab_width(count))
            } else {
                Some(count - 1)
            }
        } else {
            None
        }
    }

    /// Whether a window is the focused one.
    pub open spec fn is_focused(window: u32, focused: Option<u32>) -> bool {
        focused == Some(window)
    }

    /// The scheme of a tab: the selected one for the focused window, else the normal one.
    pub open spec fn scheme_of(self, window: u32, focused: Option<u32>) -> ColorScheme {
        if Self::is_focused(window, focused) {
            self.scheme_selected
        } else {
            self.scheme_normal
        }
    }

    /// The label of tab `i`, centred in its slot; at the slot's start where
    /// the label is wider than the slot.
    pub open spec fn label_op(self, font: Font, tabs: Seq<TabView>, focused: Option<u32>, i: int) -> DrawOpView {
        let slot = self.slot_width(tabs.len() as int, i);
        DrawOpView::Text {
            color: self.scheme_of(tabs[i].window, focused).foreground,
            x: self.slot_start(tabs.len() as int, i) + (if slot > tabs[i].label_width {
                (slot - tabs[i].label_width) / 2
            } else {
                0
            }),
            y: TAB_TEXT_TOP + font.ascent,
            text: tab_label(i, tabs[i].title),
        }
    }

    /// The underline of tab `i`: the whole slot wide, at the bottom of the strip.
    pub open spec fn underline_op(self, tabs: Seq<TabView>, focused: Option<u32>, i: int) -> DrawOpView {
        DrawOpView::Fill {
            color: self.scheme_of(tabs[i].window, focused).underline,
            x: self.slot_start(tabs.len() as int, i),
            y: self.height - TAB_UNDERLINE_HEIGHT,
            width: self.slot_width(tabs.len() as int, i),
            height: TAB_UNDERLINE_HEIGHT as int,
        }
    }

    /// The operations for the first `upto` tabs: for each its label and, if
    /// its window is the focused one, its underline.
    pub open spec fn tab_ops(self, font: Font, tabs: Seq<TabView>, focused: Option<u32>, upto: int) -> Seq<
        DrawOpView,
    >
        decreases upto,
    {
        if upto <= 0 {
            Seq::empty()
        } else if Self::is_focused(tabs[upto - 1].window, focused) {
            self.tab_ops(font, tabs, focused, upto - 1).push(
                self.label_op(font, tabs, focused, upto - 1),
            ).push(self.underline_op(tabs, focused, upto - 1))
        } else {
            self.tab_ops(font, tabs, focused, upto - 1).push(
                self.label_op(font, tabs, focused, upto - 1),
            )
        }
    }

    /// The fill that clears the whole surface to the normal background.
    pub open spec fn clear_op(self) -> DrawOpView {
        DrawOpView::Fill {
            color: self.scheme_normal.background,
            x: 0,
            y: 0,
            width: self.width as int,
            height: self.height as int,
        }
    }

    /// The copy of the whole surface onto the window.
    pub open spec fn present_op(self) -> DrawOpView {
        DrawOpView::Present { width: self.width as int, height: self.height as int }
    }

    /// The frame of a tab strip: the clearing of the surface, the tabs from
    /// left to right, the copy onto the window. Without windows the frame
    /// still clears and copies.
    pub open spec fn frame(self, font: Font, tabs: Seq<TabView>, focused: Option<u32>) -> Seq<DrawOpView> {
        (seq![self.clear_op()] + self.tab_ops(font, tabs, focused, tabs.len() as int)).push(
            self.present_op(),
        )
    }
}

/// The slots of `count` windows lie side by side within the strip: slot `i`
/// starts where the slots before it end, and the last ends at the right edge.
pub proof fn lemma_slots(bar: TabBarView, count: int, i: int)
    requires
        0 <= i < count,
    ensures
        0 <= bar.tab_width(count) <= bar.width,
        0 <= bar.slot_start(count, i) <= bar.width,
        bar.tab_width(count) <= bar.slot_width(count, i),
        bar.slot_start(count, i) + bar.slot_width(count, i) <= bar.width,
        i == count - 1 ==> bar.slot_start(count, i) + bar.slot_width(count, i) == bar.width,
        i < count - 1 ==> bar.slot_start(count, i) + bar.slot_width(count, i) == bar.slot_start(
            count,
            i + 1,
        ),
{
    let w = bar.width as int;
    let t = w / count;
    assert(0 <= t * count <= w && t <= w) by (nonlinear_arith)
        requires
            t == w / count,
            count > 0,
            w >= 0,
    ;
    assert(0 <= i * t && (i + 1) * t <= count * t && (i + 1) * t == i * t + t) by (nonlinear_arith)
        requires
            0 <= i < count,
            t >= 0,
    ;
    assert(count * t == t * count) by (nonlinear_arith);
}

/// A tab strip: its window, its place and size, and its two schemes.
pub struct TabBar {
    window: Window,
    width: u16,
    height: u16,
    x_offset: i16,
    y_offset: i16,
    scheme_normal: ColorScheme,
    scheme_selected: ColorScheme,
}

impl View for TabBar {
    type V = TabBarView;

    closed spec fn view(&self) -> TabBarView {
        TabBarView {
            window: self.window,
            width: self.width,
            height: self.height,
            x_offset: self.x_offset,
            y_offset: self.y_offset,
            scheme_normal: self.scheme_normal,
            scheme_selected: self.scheme_selected,
        }
    }
}

impl TabBar {
    /// A tab strip shown by this window, at this place and of this size.
    pub fn new(
        window: Window,
        x: i16,
        y: i16,
        width: u16,
        height: u16,
        scheme_normal: ColorScheme,
        scheme_selected: ColorScheme,
    ) -> (bar: TabBar)
        ensures
            bar@ == (TabBarView {
                window,
                width,
                height,
                x_offset: x,
                y_offset: y,
                scheme_normal,
                scheme_selected,
            }),
    {
        TabBar { window, width, height, x_offset: x, y_offset: y, scheme_normal, scheme_selected }
    }

    /// The X window that shows this strip.
    pub fn window(&self) -> (id: Window)
        ensures
            id == self@.window,
    {
        self.window
    }

    /// The window and graphics context that the strip asks for.
    pub fn strip_setup(&self) -> (setup: StripSetup)
        ensures
            setup == strip_setup(
                self@.x_offset,
                self@.y_offset,
                self@.width,
                self@.height,
                self@.scheme_normal,
            ),
    {
        StripSetup::new(self.x_offset, self.y_offset, self.width, self.height, self.scheme_normal)
    }

    /// The width of the strip, and of the surface that it is drawn on.
    pub fn width(&self) -> (w: u16)
        ensures
            w == self@.width,
    {
        self.width
    }

    /// The height of the strip, and of the surface that it is drawn on.
    pub fn height(&self) -> (h: u16)
        ensures
            h == self@.height,
    {
        self.height
    }

    /// Moves the strip and gives it a new width, in one step. The next frame
    /// is laid out for, and fills, a surface of the new width.
    pub fn reposition(&mut self, x: i16, y: i16, width: u16)
        ensures
            final(self)@ == (TabBarView { x_offset: x, y_offset: y, width, ..old(self)@ }),
    {
        self.x_offset = x;
        self.y_offset = y;
        self.width = width;
    }

    /// The window whose slot holds a click at `click_x`, or `None` if the
    /// click is outside the strip or there are no windows.
    pub fn get_clicked_window(&self, windows: &[(Window, String)], click_x: i16) -> (hit: Option<Window>)
        ensures
            hit == match self@.clicked_index(windows@.len() as int, click_x as int) {
                Some(i) => Some(windows@[i].0),
                None => None,
            },
    {
        let count: usize = windows.len();
        if count == 0 || click_x < 0 || click_x as i32 >= self.width as i32 {
            return None;
        }
        let tab_width: usize = self.width as usize / count;
        let x: usize = click_x as usize;
        let index: usize = if tab_width > 0 && x / tab_width < count {
            x / tab_width
        } else {
            count - 1
        };
        Some(windows[index].0)
    }

    /// Draws the strip anew and returns the operations that do so: the
    /// surface is cleared, each window's label is centred in its slot, the
    /// focused window's slot is underlined, and the surface is copied to the
    /// window. A strip is redrawn on every call, with or without windows.
    pub fn draw(&self, font: &Font, tabs: &Vec<Tab>, focused_window: Option<Window>) -> (frame: Vec<DrawOp>)
        ensures
            frame_view(frame@) == self@.frame(*font, tabs_view(tabs@), focused_window),
    {
        let ghost shown = tabs_view(tabs@);
        let mut frame: Vec<DrawOp> = Vec::new();
        frame.push(
            DrawOp::Fill {
                color: self.scheme_normal.background,
                x: 0,
                y: 0,
                width: self.width as u32,
                height: self.height as u32,
            },
        );
        let count: usize = tabs.len();
        let tab_width: usize = if count == 0 {
            0
        } else {
            self.width as usize / count
        };
        let text_y: i32 = TAB_TEXT_TOP + font.ascent() as i32;
        let underline_y: i32 = self.height as i32 - TAB_UNDERLINE_HEIGHT;
        let mut x: usize = 0;
        let mut i: usize = 0;
        while i < count
            invariant
                count == tabs@.len(),
                shown == tabs_view(tabs@),
                i <= count,
                count > 0 ==> tab_width == self@.tab_width(count as int),
                text_y == TAB_TEXT_TOP + font.ascent,
                underline_y == self@.height - TAB_UNDERLINE_HEIGHT,
                i < count ==> x == self@.slot_start(count as int, i as int),
                frame_view(frame@) == seq![self@.clear_op()] + self@.tab_ops(
                    *font,
                    shown,
                    focused_window,
                    i as int,
                ),
            decreases count - i,
        {
            proof {
                lemma_slots(self@, count as int, i as int);
            }
            let tab = &tabs[i];
            let focused = match focused_window {
                Some(window) => window == tab.window,
                None => false,
            };
            let scheme = if focused {
                self.scheme_selected
            } else {
                self.scheme_normal
            };
            let slot: usize = if i == count - 1 {
                self.width as usize - x
            } else {
                tab_width
            };
            let inset: usize = if slot > tab.label_width as usize {
                (slot - tab.label_width as usize) / 2
            } else {
                0
            };
            let ghost before = frame@;
            let label = DrawOp::Text {
                color: scheme.foreground,
                x: (x + inset) as i32,
                y: text_y,
                text: tab_label_string(i, tab.title.as_str()),
            };
            frame.push(label);
            proof {
                lemma_frame_view_push(before, label);
            }
            if focused {
                let ghost before = frame@;
                let underline = DrawOp::Fill {
                    color: scheme.underline,
                    x: x as i32,
                    y: underline_y,
                    width: slot as u32,
                    height: TAB_UNDERLINE_HEIGHT as u32,
                };
                frame.push(underline);
                proof {
                    lemma_frame_view_push(before, underline);
                }
            }
            if i < count - 1 {
                x = x + tab_width;
            }
            i = i + 1;
        }
        let present = DrawOp::Present { width: self.width as u32, height: self.height as u32 };
        frame.push(present);
        frame
    }
}

} // verus!
