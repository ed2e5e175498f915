//! The bar as a mathematical value, and the frame that a draw makes of it:
//! which tags show, where each thing stands, in which colours.
use vstd::prelude::*;
use crate::block::{BlockAnswer, MeasuredBlockView, is_due};
use crate::color::ColorScheme;
use crate::font::{Font, horizontal_padding, strip_height, underline_height};
use crate::frame::DrawOpView;
use crate::text::{MeasuredTextView, MeasuredTitleView};

verus! {

/// The most tags a bar can have: one per bit of a tag mask.
pub const MAX_TAGS: usize = 32;

/// The most block texts one frame can hold.
pub const MAX_DRAWN_BLOCKS: usize = 0x4000;

/// The gap before the layout symbol, before the keychord indicator, after the
/// layout region and to the right of each block.
pub const GAP: i32 = 10;

/// The distance from the top of the strip to the top of a line of text.
pub const TEXT_TOP: i32 = 4;

/// The distance from the bottom of an underline to the bottom of the strip.
pub const UNDERLINE_BOTTOM_GAP: i32 = 3;

/// By how much a tag's underline is narrower than the tag, half on each side.
pub const TAG_UNDERLINE_INSET: i32 = 4;

/// By how much a block's underline is wider than the block's text, half on each side.
pub const BLOCK_UNDERLINE_OUTSET: i32 = 8;

/// Whether the mask holds the tag with this index. A mask has 32 bits; no
/// index beyond them is ever held.
pub open spec fn has_tag(mask: u32, index: int) -> bool {
    0 <= index < 32 && mask & (1u32 << (index as u32)) != 0
}

/// Half of `v`, rounded towards zero.
pub open spec fn half(v: int) -> int {
    if v >= 0 {
        v / 2
    } else {
        -((-v) / 2)
    }
}

/// The sum of a sequence of integers.
pub open spec fn seq_sum(s: Seq<int>) -> int
    decreases s.len(),
{
    if s.len() == 0 {
        0
    } else {
        seq_sum(s.drop_last()) + s.last()
    }
}

/// The x at which block `k` starts when the blocks are laid out from
/// `right_edge` leftwards, the last block first, each with a gap to its
/// right. For `k` past the last block this is `right_edge` itself.
pub open spec fn block_x(blocks: Seq<MeasuredBlockView>, right_edge: int, k: int) -> int
    decreases blocks.len() - k,
{
    if k >= blocks.len() {
        right_edge
    } else {
        block_x(blocks, right_edge, k + 1) - GAP - blocks[k].width
    }
}

/// Where a title starts: centred on the midpoint between the end of the
/// layout region and the start of the blocks, unless that would begin before
/// the layout region ends; then a gap after that end.
pub open spec fn title_start(layout_end: int, blocks_start: int, full_width: int) -> int {
    let centred = half(layout_end + blocks_start) - full_width / 2;
    if centred < layout_end {
        layout_end + GAP
    } else {
        centred
    }
}

/// The state of a bar.
pub struct BarView {
    pub window: u32,
    pub width: u16,
    pub height: u16,
    pub font: Font,
    /// The visible strip does not yet show the current state.
    pub needs_redraw: bool,
    /// For each block, whether its text is underlined.
    pub block_underlines: Seq<bool>,
    /// For each block, the time of its last successful refresh.
    pub block_last_updates: Seq<u64>,
    pub status_text: Seq<char>,
    pub tags: Seq<MeasuredTextView>,
    pub scheme_normal: ColorScheme,
    pub scheme_occupied: ColorScheme,
    pub scheme_selected: ColorScheme,
    pub scheme_urgent: ColorScheme,
    pub hide_vacant_tags: bool,
    /// The occupied tags as the last frame showed them.
    pub last_occupied_tags: u32,
    /// The selected tags as the last frame showed them.
    pub last_current_tags: u32,
}

impl BarView {
    /// No more tags than a mask has bits, a height that follows from the
    /// font, and one refresh time per block.
    pub open spec fn valid(self) -> bool {
        &&& self.tags.len() <= MAX_TAGS
        &&& self.height == strip_height(self.font.height as int)
        &&& self.block_underlines.len() == self.block_last_updates.len()
    }

    pub open spec fn block_count(self) -> nat {
        self.block_last_updates.len()
    }

    /// The padding left and right of each tag's label.
    pub open spec fn padding(self) -> int {
        horizontal_padding(self.font.height as int)
    }

    /// The full width of tag `i`: its label and the padding on both sides.
    pub open spec fn tag_width(self, i: int) -> int {
        self.tags[i].width + 2 * self.padding()
    }

    /// Whether tag `i` is shown under these masks: always, unless vacant tags
    /// are hidden and it is neither selected nor occupied.
    pub open spec fn shows(self, current: u32, occupied: u32, i: int) -> bool {
        !self.hide_vacant_tags || has_tag(current, i) || has_tag(occupied, i)
    }

    /// The x at which tag `i` starts: the widths of the shown tags before it.
    /// A hidden tag takes no room.
    pub open spec fn tag_start(self, current: u32, occupied: u32, i: int) -> int
        decreases i,
    {
        if i <= 0 {
            0
        } else if self.shows(current, occupied, i - 1) {
            self.tag_start(current, occupied, i - 1) + self.tag_width(i - 1)
        } else {
            self.tag_start(current, occupied, i - 1)
        }
    }

    /// The x reached after the last tag.
    pub open spec fn tags_end(self, current: u32, occupied: u32) -> int {
        self.tag_start(current, occupied, self.tags.len() as int)
    }

    /// Whether a click at `x` lands on tag `i` under these masks.
    pub open spec fn tag_hit(self, current: u32, occupied: u32, x: int, i: int) -> bool {
        &&& 0 <= i < self.tags.len()
        &&& self.shows(current, occupied, i)
        &&& self.tag_start(current, occupied, i) <= x < self.tag_start(current, occupied, i)
            + self.tag_width(i)
    }

    /// The scheme of tag `i`: selected before urgent before occupied before normal.
    pub open spec fn scheme_of(self, current: u32, occupied: u32, urgent: u32, i: int) -> ColorScheme {
        if has_tag(current, i) {
            self.scheme_selected
        } else if has_tag(urgent, i) {
            self.scheme_urgent
        } else if has_tag(occupied, i) {
            self.scheme_occupied
        } else {
            self.scheme_normal
        }
    }

    /// Whether tag `i` gets an underline: if it is selected or urgent.
    pub open spec fn underlined(self, current: u32, urgent: u32, i: int) -> bool {
        has_tag(current, i) || has_tag(urgent, i)
    }

    /// The baseline of every text in the bar.
    pub open spec fn text_y(self) -> int {
        TEXT_TOP + self.font.ascent
    }

    /// The thickness of every underline in the bar.
    pub open spec fn underline_height(self) -> int {
        underline_height(self.font.height as int)
    }

    /// The top of every underline in the bar.
    pub open spec fn underline_y(self) -> int {
        self.height - self.underline_height() - UNDERLINE_BOTTOM_GAP
    }

    /// The fill that clears the whole surface to the normal background.
    pub open spec fn clear_op(self) -> DrawOpView {
        DrawOpView::Fill {
            color: self.scheme_normal.background,
            x: 0,
            y: 0,
            width: self.width as int,
            height: self.height as int,
        }
    }

    /// The copy of the whole surface onto the window.
    pub open spec fn present_op(self) -> DrawOpView {
        DrawOpView::Present { width: self.width as int, height: self.height as int }
    }

    /// The label of tag `i`, centred in the tag's width.
    pub open spec fn tag_label(self, current: u32, occupied: u32, urgent: u32, i: int) -> DrawOpView {
        DrawOpView::Text {
            color: self.scheme_of(current, occupied, urgent, i).foreground,
            x: self.tag_start(current, occupied, i) + (self.tag_width(i) - self.tags[i].width) / 2,
            y: self.text_y(),
            text: self.tags[i].text,
        }
    }

    /// The underline of tag `i`, inset on both sides; of no width where the
    /// tag is narrower than the inset.
    pub open spec fn tag_underline(self, current: u32, occupied: u32, urgent: u32, i: int) -> DrawOpView {
        DrawOpView::Fill {
            color: self.scheme_of(current, occupied, urgent, i).underline,
            x: self.tag_start(current, occupied, i) + TAG_UNDERLINE_INSET / 2,
            y: self.underline_y(),
            width: if self.tag_width(i) >= TAG_UNDERLINE_INSET {
                self.tag_width(i) - TAG_UNDERLINE_INSET
            } else {
                0
            },
            height: self.underline_height(),
        }
    }

    /// The labels of the shown tags among the first `upto`, left to right.
    pub open spec fn tag_labels(self, current: u32, occupied: u32, urgent: u32, upto: int) -> Seq<
        DrawOpView,
    >
        decreases upto,
    {
        if upto <= 0 {
            Seq::empty()
        } else if self.shows(current, occupied, upto - 1) {
            self.tag_labels(current, occupied, urgent, upto - 1).push(
                self.tag_label(current, occupied, urgent, upto - 1),
            )
        } else {
            self.tag_labels(current, occupied, urgent, upto - 1)
        }
    }

    /// The underlines of the shown tags among the first `upto` that are
    /// selected or urgent, left to right.
    pub open spec fn tag_underlines(self, current: u32, occupied: u32, urgent: u32, upto: int) -> Seq<
        DrawOpView,
    >
        decreases upto,
    {
        if upto <= 0 {
            Seq::empty()
        } else if self.shows(current, occupied, upto - 1) && self.underlined(
            current,
            urgent,
            upto - 1,
        ) {
            self.tag_underlines(current, occupied, urgent, upto - 1).push(
                self.tag_underline(current, occupied, urgent, upto - 1),
            )
        } else {
            self.tag_underlines(current, occupied, urgent, upto - 1)
        }
    }

    /// Where the layout symbol starts: a gap after the tags.
    pub open spec fn symbol_x(self, current: u32, occupied: u32) -> int {
        self.tags_end(current, occupied) + GAP
    }

    /// Where a keychord indicator starts: a gap after the layout symbol.
    pub open spec fn keychord_x(self, current: u32, occupied: u32, symbol: MeasuredTextView) -> int {
        self.symbol_x(current, occupied) + symbol.width + GAP
    }

    /// The x reached after the layout symbol and the keychord indicator, if there is one.
    pub open spec fn layout_cursor(
        self,
        current: u32,
        occupied: u32,
        symbol: MeasuredTextView,
        keychord: Option<MeasuredTextView>,
    ) -> int {
        match keychord {
            Some(indicator) => self.keychord_x(current, occupied, symbol) + indicator.width,
            None => self.symbol_x(current, occupied) + symbol.width,
        }
    }

    /// The layout symbol, in the normal foreground.
    pub open spec fn symbol_op(self, current: u32, occupied: u32, symbol: MeasuredTextView) -> DrawOpView {
        DrawOpView::Text {
            color: self.scheme_normal.foreground,
            x: self.symbol_x(current, occupied),
            y: self.text_y(),
            text: symbol.text,
        }
    }

    /// The keychord indicator, in the normal foreground; nothing without one.
    pub open spec fn keychord_ops(
        self,
        current: u32,
        occupied: u32,
        symbol: MeasuredTextView,
        keychord: Option<MeasuredTextView>,
    ) -> Seq<DrawOpView> {
        match keychord {
            Some(indicator) => seq![
                DrawOpView::Text {
                    color: self.scheme_normal.foreground,
                    x: self.keychord_x(current, occupied, symbol),
                    y: self.text_y(),
                    text: indicator.text,
                },
            ],
            None => Seq::empty(),
        }
    }

    /// The blocks that a frame shows: all that were handed in, if blocks are
    /// to be drawn and there is status text; none otherwise.
    pub open spec fn drawn_blocks(self, draw_blocks: bool, blocks: Seq<MeasuredBlockView>) -> Seq<
        MeasuredBlockView,
    > {
        if draw_blocks && self.status_text.len() > 0 {
            blocks
        } else {
            Seq::empty()
        }
    }

    /// The text of block `k`, in the block's own colour.
    pub open spec fn block_label(self, blocks: Seq<MeasuredBlockView>, k: int) -> DrawOpView {
        DrawOpView::Text {
            color: blocks[k].color,
            x: block_x(blocks, self.width as int, k),
            y: self.text_y(),
            text: blocks[k].text,
        }
    }

    /// The underline of block `k`, in the block's own colour, reaching out
    /// beyond the text on both sides.
    pub open spec fn block_underline(self, blocks: Seq<MeasuredBlockView>, k: int) -> DrawOpView {
        DrawOpView::Fill {
            color: blocks[k].color,
            x: block_x(blocks, self.width as int, k) - BLOCK_UNDERLINE_OUTSET / 2,
            y: self.underline_y(),
            width: blocks[k].width + BLOCK_UNDERLINE_OUTSET,
            height: self.underline_height(),
        }
    }

    /// The texts of the blocks from `k` on, the last block first.
    pub open spec fn block_labels(self, blocks: Seq<MeasuredBlockView>, k: int) -> Seq<DrawOpView>
        decreases blocks.len() - k,
    {
        if k >= blocks.len() {
            Seq::empty()
        } else {
            self.block_labels(blocks, k + 1).push(self.block_label(blocks, k))
        }
    }

    /// The underlines of the underlined blocks from `k` on, the last block first.
    pub open spec fn block_underlines(self, blocks: Seq<MeasuredBlockView>, k: int) -> Seq<DrawOpView>
        decreases blocks.len() - k,
    {
        if k >= blocks.len() {
            Seq::empty()
        } else if blocks[k].underline {
            self.block_underlines(blocks, k + 1).push(self.block_underline(blocks, k))
        } else {
            self.block_underlines(blocks, k + 1)
        }
    }

    /// The title, in the selected foreground, cut down to what fits between
    /// where it starts and where the blocks start; nothing without a title.
    pub open spec fn title_ops(
        self,
        layout_end: int,
        blocks_start: int,
        title: Option<MeasuredTitleView>,
    ) -> Seq<DrawOpView> {
        match title {
            Some(t) => {
                let start = title_start(layout_end, blocks_start, t.full_width());
                seq![
                    DrawOpView::Text {
                        color: self.scheme_selected.foreground,
                        x: start,
                        y: self.text_y(),
                        text: t.fitted(blocks_start - start),
                    },
                ]
            },
            None => Seq::empty(),
        }
    }

    /// The fills of a frame: the clearing of the surface, then the tags'
    /// underlines, then the blocks'.
    pub open spec fn frame_fills(
        self,
        current: u32,
        occupied: u32,
        urgent: u32,
        shown_blocks: Seq<MeasuredBlockView>,
    ) -> Seq<DrawOpView> {
        seq![self.clear_op()] + self.tag_underlines(
            current,
            occupied,
            urgent,
            self.tags.len() as int,
        ) + self.block_underlines(shown_blocks, 0)
    }

    /// The texts of a frame: the tags, the layout symbol, the keychord
    /// indicator, the blocks, the title.
    pub open spec fn frame_texts(
        self,
        current: u32,
        occupied: u32,
        urgent: u32,
        symbol: MeasuredTextView,
        keychord: Option<MeasuredTextView>,
        title: Option<MeasuredTitleView>,
        shown_blocks: Seq<MeasuredBlockView>,
    ) -> Seq<DrawOpView> {
        self.tag_labels(current, occupied, urgent, self.tags.len() as int).push(
            self.symbol_op(current, occupied, symbol),
        ) + self.keychord_ops(current, occupied, symbol, keychord) + self.block_labels(
            shown_blocks,
            0,
        ) + self.title_ops(
            self.layout_cursor(current, occupied, symbol, keychord) + GAP,
            block_x(shown_blocks, self.width as int, 0),
            title,
        )
    }

    /// The frame that a draw makes of a bar in need of one: every fill, then
    /// every text, then the one copy onto the window.
    pub open spec fn frame(
        self,
        current: u32,
        occupied: u32,
        urgent: u32,
        draw_blocks: bool,
        symbol: MeasuredTextView,
        keychord: Option<MeasuredTextView>,
        title: Option<MeasuredTitleView>,
        blocks: Seq<MeasuredBlockView>,
    ) -> Seq<DrawOpView> {
        let shown_blocks = self.drawn_blocks(draw_blocks, blocks);
        (self.frame_fills(current, occupied, urgent, shown_blocks) + self.frame_texts(
            current,
            occupied,
            urgent,
            symbol,
            keychord,
            title,
            shown_blocks,
        )).push(self.present_op())
    }

    /// The bar after a draw with these masks: unchanged if it needed none;
    /// else clean, and remembering the masks that the frame showed.
    pub open spec fn drawn(self, current: u32, occupied: u32) -> BarView {
        if self.needs_redraw {
            BarView {
                needs_redraw: false,
                last_current_tags: current,
                last_occupied_tags: occupied,
                ..self
            }
        } else {
            self
        }
    }

    /// Whether, by these answers, block `i` has reached its interval at `now`
    /// and produced a text.
    pub open spec fn refreshed_at(self, answers: Seq<BlockAnswer>, now: u64, i: int) -> bool {
        &&& 0 <= i < self.block_count()
        &&& i < answers.len()
        &&& is_due(self.block_last_updates[i], answers[i].interval, now)
        &&& answers[i].succeeded
    }

    /// Whether, by these answers, any block has reached its interval at `now`
    /// and produced a text.
    pub open spec fn any_refreshed(self, answers: Seq<BlockAnswer>, now: u64) -> bool {
        exists|i: int| self.refreshed_at(answers, now, i)
    }

    /// The bar after a refresh at `now` in which the blocks gave these
    /// answers and, asked again, these texts. If no block has both reached
    /// its interval and produced a text, nothing changes. Else those blocks
    /// are noted as refreshed at `now`, the status text is the texts joined,
    /// and the bar needs a redraw.
    pub open spec fn refreshed(self, answers: Seq<BlockAnswer>, now: u64, texts: Seq<Seq<char>>) -> BarView {
        if self.any_refreshed(answers, now) {
            BarView {
                needs_redraw: true,
                status_text: texts.flatten(),
                block_last_updates: Seq::new(
                    self.block_count(),
                    |i: int|
                        if self.refreshed_at(answers, now, i) {
                            now
                        } else {
                            self.block_last_updates[i]
                        },
                ),
                ..self
            }
        } else {
            self
        }
    }
}

impl BarView {
    /// Whether two bars differ at most in whether they need a redraw and in
    /// the masks of their last frames: in nothing that a frame is made of.
    pub open spec fn same_layout(self, other: BarView) -> bool {
        other == (BarView {
            needs_redraw: other.needs_redraw,
            last_current_tags: other.last_current_tags,
            last_occupied_tags: other.last_occupied_tags,
            ..self
        })
    }
}

/// Bars of the same layout start their tags at the same places.
pub proof fn lemma_same_tag_start(a: BarView, b: BarView, current: u32, occupied: u32, i: int)
    requires
        a.same_layout(b),
    ensures
        a.tag_start(current, occupied, i) == b.tag_start(current, occupied, i),
    decreases i,
{
    if i > 0 {
        lemma_same_tag_start(a, b, current, occupied, i - 1);
    }
}

/// Bars of the same layout draw the same labels and underlines for their tags.
pub proof fn lemma_same_tag_ops(a: BarView, b: BarView, current: u32, occupied: u32, urgent: u32, i: int)
    requires
        a.same_layout(b),
    ensures
        a.tag_labels(current, occupied, urgent, i) == b.tag_labels(current, occupied, urgent, i),
        a.tag_underlines(current, occupied, urgent, i) == b.tag_underlines(
            current,
            occupied,
            urgent,
            i,
        ),
    decreases i,
{
    if i > 0 {
        lemma_same_tag_ops(a, b, current, occupied, urgent, i - 1);
        lemma_same_tag_start(a, b, current, occupied, i - 1);
    }
}

/// Bars of the same layout draw the same texts and underlines for the same blocks.
pub proof fn lemma_same_block_ops(a: BarView, b: BarView, blocks: Seq<MeasuredBlockView>, k: int)
    requires
        a.same_layout(b),
    ensures
        a.block_labels(blocks, k) == b.block_labels(blocks, k),
        a.block_underlines(blocks, k) == b.block_underlines(blocks, k),
    decreases blocks.len() - k,
{
    if k < blocks.len() {
        lemma_same_block_ops(a, b, blocks, k + 1);
    }
}

} // verus!
