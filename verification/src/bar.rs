//! The status bar: tags at the left, then the layout symbol and the keychord
//! indicator, the focused window's title in the middle, status blocks at the
//! right. A bar redraws only when something has changed, and answers clicks
//! by the frame it drew last.
use vstd::prelude::*;
use vstd::string::*;
use x11rb::protocol::xproto::Window;
use crate::bar_model::{
    BLOCK_UNDERLINE_OUTSET, BarView, GAP, MAX_DRAWN_BLOCKS, MAX_TAGS, TAG_UNDERLINE_INSET, TEXT_TOP,
    UNDERLINE_BOTTOM_GAP, block_x, has_tag, lemma_same_block_ops, lemma_same_tag_ops,
    lemma_same_tag_start,
};
use crate::block::{
    BlockAnswer, BlockText, MeasuredBlock, MeasuredBlockView, StatusBlock, block_is_due,
    blocks_view, contents_view, is_due, lemma_produced_len, produced,
};
use crate::frame::{DrawOp, DrawOpView, frame_view, lemma_frame_view_add, lemma_frame_view_push};
use crate::color::ColorScheme;
use crate::font::{Font, strip_height};
use crate::strip::{StripSetup, strip_setup};
use crate::text::{MeasuredText, MeasuredTextView, MeasuredTitle, MeasuredTitleView};

verus! {

/// What a bar is configured with: the tags with their measured labels, the
/// four schemes, whether vacant tags are hidden, and the status blocks.
pub struct BarConfig {
    pub tags: Vec<MeasuredText>,
    pub scheme_normal: ColorScheme,
    pub scheme_occupied: ColorScheme,
    pub scheme_selected: ColorScheme,
    pub scheme_urgent: ColorScheme,
    pub hide_vacant_tags: bool,
    pub status_blocks: Vec<StatusBlock>,
}

/// What a list of measured texts stands for, one by one.
pub open spec fn texts_view(texts: Seq<MeasuredText>) -> Seq<MeasuredTextView> {
    texts.map_values(|t: MeasuredText| t@)
}

/// What a list of strings stands for, one by one.
pub open spec fn strings_view(texts: Seq<String>) -> Seq<Seq<char>> {
    texts.map_values(|s: String| s@)
}

/// For each configured block, whether it is underlined.
pub open spec fn underlines_of(blocks: Seq<StatusBlock>) -> Seq<bool> {
    blocks.map_values(|b: StatusBlock| b.underline)
}

/// A status bar: its place in the display, its tags and blocks, whether its
/// strip is out of date, and the masks that its last frame showed.
pub struct Bar {
    window: Window,
    width: u16,
    height: u16,
    font: Font,
    tag_widths: Vec<u32>,
    needs_redraw: bool,
    blocks: Vec<StatusBlock>,
    block_last_updates: Vec<u64>,
    status_text: String,
    tags: Vec<MeasuredText>,
    scheme_normal: ColorScheme,
    scheme_occupied: ColorScheme,
    scheme_selected: ColorScheme,
    scheme_urgent: ColorScheme,
    hide_vacant_tags: bool,
    last_occupied_tags: u32,
    last_current_tags: u32,
}

impl View for Bar {
    type V = BarView;

    closed spec fn view(&self) -> BarView {
        BarView {
            window: self.window,
            width: self.width,
            height: self.height,
            font: self.font,
            needs_redraw: self.needs_redraw,
            block_underlines: underlines_of(self.blocks@),
            block_last_updates: self.block_last_updates@,
            status_text: self.status_text@,
            tags: texts_view(self.tags@),
            scheme_normal: self.scheme_normal,
            scheme_occupied: self.scheme_occupied,
            scheme_selected: self.scheme_selected,
            scheme_urgent: self.scheme_urgent,
            hide_vacant_tags: self.hide_vacant_tags,
            last_occupied_tags: self.last_occupied_tags,
            last_current_tags: self.last_current_tags,
        }
    }
}

/// Tests one bit of a tag mask.
pub fn mask_has_tag(mask: u32, index: usize) -> (held: bool)
    ensures
        held == has_tag(mask, index as int),
{
    if index < 32 {
        mask & (1u32 << (index as u32)) != 0
    } else {
        false
    }
}

impl Bar {
    /// The widths kept for the tags are those that the labels and the font give.
    pub closed spec fn widths_kept(&self) -> bool {
        &&& self.tag_widths@.len() == self.tags@.len()
        &&& forall|i: int|
            0 <= i < self.tags@.len() ==> #[trigger] self.tag_widths@[i] == self@.tag_width(i)
    }

    /// The state is valid and the tag widths kept are up to date.
    pub open spec fn wf(&self) -> bool {
        self@.valid() && self.widths_kept()
    }

    /// The X window that shows this bar.
    pub fn window(&self) -> (id: Window)
        ensures
            id == self@.window,
    {
        self.window
    }

    /// The window and graphics context that a bar with its left upper corner
    /// at (`x`, `y`) asks for.
    pub fn strip_setup(&self, x: i16, y: i16) -> (setup: StripSetup)
        ensures
            setup == strip_setup(x, y, self@.width, self@.height, self@.scheme_normal),
    {
        StripSetup::new(x, y, self.width, self.height, self.scheme_normal)
    }

    /// The height of the strip.
    pub fn height(&self) -> (h: u16)
        ensures
            h == self@.height,
    {
        self.height
    }

    /// Whether the visible strip is out of date.
    pub fn needs_redraw(&self) -> (dirty: bool)
        ensures
            dirty == self@.needs_redraw,
    {
        self.needs_redraw
    }

    /// The status text that the blocks produced at the last refresh, joined.
    pub fn status_text(&self) -> (text: &str)
        ensures
            text@ == self@.status_text,
    {
        self.status_text.as_str()
    }

    /// Marks the visible strip as out of date.
    pub fn invalidate(&mut self)
        ensures
            final(self)@ == (BarView { needs_redraw: true, ..old(self)@ }),
            old(self).wf() ==> final(self).wf(),
    {
        self.needs_redraw = true;
    }

    /// Tags carry no state of their own to bring up to date: nothing changes.
    pub fn update_tags(&mut self)
        ensures
            *final(self) == *old(self),
    {
    }

    /// Sets up a bar of this window and width, in this font, as the
    /// configuration says. The bar is as high as the font asks, every block
    /// counts as refreshed at `now`, there is no status text yet, and the
    /// strip needs its first frame.
    pub fn new(window: Window, width: u16, font: Font, config: BarConfig, now: u64) -> (bar: Bar)
        requires
            config.tags@.len() <= MAX_TAGS,
        ensures
            bar.wf(),
            bar@ == (BarView {
                window,
                width,
                height: strip_height(font.height as int) as u16,
                font,
                needs_redraw: true,
                block_underlines: underlines_of(config.status_blocks@),
                block_last_updates: Seq::new(config.status_blocks@.len(), |i: int| now),
                status_text: Seq::empty(),
                tags: texts_view(config.tags@),
                scheme_normal: config.scheme_normal,
                scheme_occupied: config.scheme_occupied,
                scheme_selected: config.scheme_selected,
                scheme_urgent: config.scheme_urgent,
                hide_vacant_tags: config.hide_vacant_tags,
                last_occupied_tags: 0,
                last_current_tags: 0,
            }),
    {
        let tag_widths = padded_widths(&config.tags, font.horizontal_padding());
        let block_last_updates = fresh_times(config.status_blocks.len(), now);
        Bar {
            window,
            width,
            height: font.strip_height(),
            font,
            tag_widths,
            needs_redraw: true,
            blocks: config.status_blocks,
            block_last_updates,
            status_text: String::new(),
            tags: config.tags,
            scheme_normal: config.scheme_normal,
            scheme_occupied: config.scheme_occupied,
            scheme_selected: config.scheme_selected,
            scheme_urgent: config.scheme_urgent,
            hide_vacant_tags: config.hide_vacant_tags,
            last_occupied_tags: 0,
            last_current_tags: 0,
        }
    }

    /// Replaces tags, schemes, blocks and the hiding of vacant tags in one
    /// step. The tag widths follow the new labels, every block counts as
    /// refreshed at `now`, the status text is gone, and the strip needs a
    /// redraw. Window, size, font and the masks of the last frame stay.
    pub fn update_from_config(&mut self, config: BarConfig, now: u64)
        requires
            old(self).wf(),
            config.tags@.len() <= MAX_TAGS,
        ensures
            final(self).wf(),
            final(self)@ == (BarView {
                needs_redraw: true,
                block_underlines: underlines_of(config.status_blocks@),
                block_last_updates: Seq::new(config.status_blocks@.len(), |i: int| now),
                status_text: Seq::empty(),
                tags: texts_view(config.tags@),
                scheme_normal: config.scheme_normal,
                scheme_occupied: config.scheme_occupied,
                scheme_selected: config.scheme_selected,
                scheme_urgent: config.scheme_urgent,
                hide_vacant_tags: config.hide_vacant_tags,
                ..old(self)@
            }),
    {
        let tag_widths = padded_widths(&config.tags, self.font.horizontal_padding());
        let block_last_updates = fresh_times(config.status_blocks.len(), now);
        *self = Bar {
            window: self.window,
            width: self.width,
            height: self.height,
            font: self.font,
            tag_widths,
            needs_redraw: true,
            blocks: config.status_blocks,
            block_last_updates,
            status_text: String::new(),
            tags: config.tags,
            scheme_normal: config.scheme_normal,
            scheme_occupied: config.scheme_occupied,
            scheme_selected: config.scheme_selected,
            scheme_urgent: config.scheme_urgent,
            hide_vacant_tags: config.hide_vacant_tags,
            last_occupied_tags: self.last_occupied_tags,
            last_current_tags: self.last_current_tags,
        };
    }

    /// The tag under a click at `click_x`, by the masks of the last frame
    /// drawn: the one shown tag whose span holds `click_x`, or `None` if the
    /// click is on no tag.
    pub fn handle_click(&self, click_x: i16) -> (hit: Option<usize>)
        requires
            self.wf(),
        ensures
            match hit {
                Some(i) => self@.tag_hit(
                    self@.last_current_tags,
                    self@.last_occupied_tags,
                    click_x as int,
                    i as int,
                ),
                None => forall|i: int|
                    !self@.tag_hit(
                        self@.last_current_tags,
                        self@.last_occupied_tags,
                        click_x as int,
                        i,
                    ),
            },
    {
        let mut x: i32 = 0;
        let mut i: usize = 0;
        while i < self.tag_widths.len()
            invariant
                self.wf(),
                i <= self.tags@.len(),
                x == self@.tag_start(self@.last_current_tags, self@.last_occupied_tags, i as int),
                0 <= x <= i * MAX_TAG_WIDTH,
                forall|j: int|
                    0 <= j < i ==> !self@.tag_hit(
                        self@.last_current_tags,
                        self@.last_occupied_tags,
                        click_x as int,
                        j,
                    ),
            decreases self.tag_widths.len() - i,
        {
            let selected = mask_has_tag(self.last_current_tags, i);
            let occupied = mask_has_tag(self.last_occupied_tags, i);
            if !self.hide_vacant_tags || occupied || selected {
                let tag_width: u32 = self.tag_widths[i];
                if click_x as i32 >= x && (click_x as i32) < x + tag_width as i32 {
                    return Some(i);
                }
                x = x + tag_width as i32;
            }
            i = i + 1;
        }
        None
    }

    /// Notes the outcome of one refresh at `now`, given what the blocks
    /// answered and what texts they then produced.
    ///
    /// The bar is marked as needing a redraw if and only if at least one
    /// block both reached its interval and produced a text; those blocks are
    /// then noted as refreshed at `now`, and the status text becomes the
    /// texts joined in their order. Otherwise nothing changes: a bar that
    /// needed a redraw before still does, one that did not still does not.
    /// Answers beyond the number of blocks are ignored; a block without an
    /// answer counts as not refreshed.
    pub fn apply_refresh(&mut self, now: u64, answers: &Vec<BlockAnswer>, texts: &Vec<String>)
        requires
            old(self).wf(),
        ensures
            final(self).wf(),
            final(self)@ == old(self)@.refreshed(answers@, now, strings_view(texts@)),
            final(self)@.needs_redraw == (old(self)@.needs_redraw || old(self)@.any_refreshed(
                answers@,
                now,
            )),
    {
        let ghost pre = self@;
        let mut changed = false;
        let mut i: usize = 0;
        while i < self.block_last_updates.len()
            invariant
                pre.valid(),
                self.widths_kept(),
                i <= pre.block_count(),
                self.block_last_updates@.len() == pre.block_count(),
                self@ == (BarView { block_last_updates: self.block_last_updates@, ..pre }),
                forall|j: int|
                    0 <= j < i ==> #[trigger] self.block_last_updates@[j] == (if pre.refreshed_at(
                        answers@,
                        now,
                        j,
                    ) {
                        now
                    } else {
                        pre.block_last_updates[j]
                    }),
                forall|j: int|
                    i <= j < pre.block_count() ==> #[trigger] self.block_last_updates@[j]
                        == pre.block_last_updates[j],
                changed <==> exists|j: int| 0 <= j < i && pre.refreshed_at(answers@, now, j),
            decreases self.block_last_updates.len() - i,
        {
            if i < answers.len() && answers[i].succeeded && block_is_due(
                self.block_last_updates[i],
                answers[i].interval,
                now,
            ) {
                assert(pre.refreshed_at(answers@, now, i as int));
                self.block_last_updates.set(i, now);
                changed = true;
            }
            i = i + 1;
        }
        if changed {
            assert(self.block_last_updates@ =~= pre.refreshed(
                answers@,
                now,
                strings_view(texts@),
            ).block_last_updates);
            self.status_text = joined(texts);
            self.needs_redraw = true;
        } else {
            assert(self.block_last_updates@ =~= pre.block_last_updates);
        }
    }

    /// Asks each block for its interval and, if the block has reached it at
    /// `now`, for a text. The answers come back one per block, in order.
    fn ask_due(&mut self, now: u64) -> (answers: Vec<BlockAnswer>)
        requires
            old(self).wf(),
        ensures
            final(self).wf(),
            final(self)@ == old(self)@,
            answers@.len() == old(self)@.block_count(),
            forall|i: int|
                0 <= i < answers@.len() && (#[trigger] answers@[i]).succeeded ==> is_due(
                    old(self)@.block_last_updates[i],
                    answers@[i].interval,
                    now,
                ),
    {
        let mut answers: Vec<BlockAnswer> = Vec::new();
        let mut i: usize = 0;
        while i < self.blocks.len()
            invariant
                self.wf(),
                self@ == old(self)@,
                self.blocks@.len() == self@.block_count(),
                i <= self.blocks@.len(),
                answers@.len() == i,
                forall|j: int|
                    0 <= j < i && (#[trigger] answers@[j]).succeeded ==> is_due(
                        self@.block_last_updates[j],
                        answers@[j].interval,
                        now,
                    ),
            decreases self.blocks.len() - i,
        {
            let interval: u64 = self.blocks[i].block.interval();
            let mut succeeded = false;
            if block_is_due(self.block_last_updates[i], interval, now) {
                let ghost before = self.blocks@;
                succeeded = self.blocks[i].block.content().is_ok();
                assert(underlines_of(self.blocks@) =~= underlines_of(before));
            }
            answers.push(BlockAnswer { interval, succeeded });
            i = i + 1;
        }
        answers
    }

    /// Asks every block for its text, once and in the order of the blocks,
    /// and returns what each answered: one entry per block, the text of a
    /// block that produced one, `None` for a block that failed.
    fn ask_all(&mut self) -> (contents: Vec<Option<String>>)
        requires
            old(self).wf(),
        ensures
            final(self).wf(),
            final(self)@ == old(self)@,
            contents@.len() == old(self)@.block_count(),
    {
        let mut contents: Vec<Option<String>> = Vec::new();
        let mut i: usize = 0;
        while i < self.blocks.len()
            invariant
                self.wf(),
                self@ == old(self)@,
                self.blocks@.len() == self@.block_count(),
                i <= self.blocks@.len(),
                contents@.len() == i,
            decreases self.blocks.len() - i,
        {
            let ghost before = self.blocks@;
            let answer = self.blocks[i].block.content();
            assert(underlines_of(self.blocks@) =~= underlines_of(before));
            match answer {
                Ok(text) => {
                    contents.push(Some(text));
                },
                Err(_) => {
                    contents.push(None);
                },
            }
            i = i + 1;
        }
        contents
    }

    /// Whether, by these answers, any block has reached its interval and produced a text.
    fn any_refreshed(&self, now: u64, answers: &Vec<BlockAnswer>) -> (any: bool)
        requires
            self.wf(),
        ensures
            any == self@.any_refreshed(answers@, now),
    {
        let mut i: usize = 0;
        while i < self.block_last_updates.len()
            invariant
                i <= self@.block_count(),
                self.block_last_updates@.len() == self@.block_count(),
                forall|j: int| 0 <= j < i ==> !self@.refreshed_at(answers@, now, j),
            decreases self.block_last_updates.len() - i,
        {
            if i < answers.len() && answers[i].succeeded && block_is_due(
                self.block_last_updates[i],
                answers[i].interval,
                now,
            ) {
                assert(self@.refreshed_at(answers@, now, i as int));
                return true;
            }
            i = i + 1;
        }
        false
    }

    /// Refreshes the blocks at `now`: asks each block that has reached its
    /// interval for a text and, if any of them produced one, asks all blocks
    /// again and makes the status text of what they produce.
    ///
    /// What the blocks answer is theirs to decide, so the outcome is stated
    /// for whatever they answered: the bar ends as `apply_refresh` leaves it
    /// for some answers, one per block, and some texts, no more than there
    /// are blocks. Window, size, font, tags, schemes and the masks of the
    /// last frame never change, and a bar that needed a redraw still does.
    pub fn update_blocks(&mut self, now: u64)
        requires
            old(self).wf(),
        ensures
            final(self).wf(),
            exists|answers: Seq<BlockAnswer>, texts: Seq<Seq<char>>|
                #![auto]
                answers.len() == old(self)@.block_count() && texts.len() <= old(
                    self,
                )@.block_count() && final(self)@ == old(self)@.refreshed(answers, now, texts),
    {
        let answers = self.ask_due(now);
        let texts = if self.any_refreshed(now, &answers) {
            let contents = self.ask_all();
            proof {
                lemma_produced_len(contents_view(contents@));
            }
            produced_texts(&contents)
        } else {
            Vec::new()
        };
        self.apply_refresh(now, &answers, &texts);
    }

    /// The texts that the blocks contribute to the next frame. If the bar
    /// needs a redraw, blocks are to be drawn and there is status text,
    /// every block is asked, and there is one entry per block, in order:
    /// the text it produced, with its colour and whether it is underlined,
    /// or `None` if it produced none. Otherwise no block is asked and there
    /// are no entries.
    pub fn block_contents(&mut self, draw_blocks: bool) -> (texts: Vec<Option<BlockText>>)
        requires
            old(self).wf(),
        ensures
            final(self).wf(),
            final(self)@ == old(self)@,
            texts@.len() == (if old(self)@.needs_redraw && draw_blocks && old(
                self,
            )@.status_text.len() > 0 {
                old(self)@.block_count()
            } else {
                0
            }),
            forall|i: int|
                0 <= i < texts@.len() ==> ((#[trigger] texts@[i]) matches Some(t) ==> t.underline
                    == old(self)@.block_underlines[i]),
    {
        let mut texts: Vec<Option<BlockText>> = Vec::new();
        if !(self.needs_redraw && draw_blocks && !self.status_text.as_str().is_empty()) {
            return texts;
        }
        let mut i: usize = 0;
        while i < self.blocks.len()
            invariant
                self.wf(),
                self@ == old(self)@,
                self.blocks@.len() == self@.block_count(),
                i <= self.blocks@.len(),
                texts@.len() == i,
                forall|j: int|
                    0 <= j < i ==> ((#[trigger] texts@[j]) matches Some(t) ==> t.underline
                        == self@.block_underlines[j]),
            decreases self.blocks.len() - i,
        {
            let ghost before = self.blocks@;
            let answer = self.blocks[i].block.content();
            assert(underlines_of(self.blocks@) =~= underlines_of(before));
            match answer {
                Ok(text) => {
                    let color: u32 = self.blocks[i].block.color();
                    let underline = self.blocks[i].underline;
                    texts.push(Some(BlockText { text, color, underline }));
                },
                Err(_) => {
                    texts.push(None);
                },
            }
            i = i + 1;
        }
        texts
    }

    /// Lays out the tags from the left edge: appends the underlines of the
    /// shown tags that are selected or urgent to `fills` and the labels of
    /// the shown tags to `texts`, and returns the x reached.
    fn layout_tags(
        &self,
        current: u32,
        occupied: u32,
        urgent: u32,
        fills: &mut Vec<DrawOp>,
        texts: &mut Vec<DrawOp>,
    ) -> (end: i32)
        requires
            self.wf(),
        ensures
            end == self@.tags_end(current, occupied),
            0 <= end <= MAX_TAGS * MAX_TAG_WIDTH,
            frame_view(final(fills)@) == frame_view(old(fills)@) + self@.tag_underlines(
                current,
                occupied,
                urgent,
                self@.tags.len() as int,
            ),
            frame_view(final(texts)@) == frame_view(old(texts)@) + self@.tag_labels(
                current,
                occupied,
                urgent,
                self@.tags.len() as int,
            ),
    {
        let text_y: i32 = TEXT_TOP + self.font.ascent() as i32;
        let underline_height: u16 = self.font.underline_height();
        let underline_y: i32 = self.height as i32 - underline_height as i32 - UNDERLINE_BOTTOM_GAP;
        let mut x: i32 = 0;
        let mut i: usize = 0;
        while i < self.tags.len()
            invariant
                self.wf(),
                i <= self.tags@.len(),
                text_y == self@.text_y(),
                underline_height == self@.underline_height(),
                underline_y == self@.underline_y(),
                x == self@.tag_start(current, occupied, i as int),
                0 <= x <= i * MAX_TAG_WIDTH,
                frame_view(fills@) == frame_view(old(fills)@) + self@.tag_underlines(
                    current,
                    occupied,
                    urgent,
                    i as int,
                ),
                frame_view(texts@) == frame_view(old(texts)@) + self@.tag_labels(
                    current,
                    occupied,
                    urgent,
                    i as int,
                ),
            decreases self.tags.len() - i,
        {
            let selected = mask_has_tag(current, i);
            let is_occupied = mask_has_tag(occupied, i);
            let is_urgent = mask_has_tag(urgent, i);
            let ghost fills_before = fills@;
            let ghost texts_before = texts@;
            if !self.hide_vacant_tags || is_occupied || selected {
                let tag_width: u32 = self.tag_widths[i];
                let scheme = if selected {
                    self.scheme_selected
                } else if is_urgent {
                    self.scheme_urgent
                } else if is_occupied {
                    self.scheme_occupied
                } else {
                    self.scheme_normal
                };
                let label = DrawOp::Text {
                    color: scheme.foreground,
                    x: x + ((tag_width - self.tags[i].width as u32) / 2) as i32,
                    y: text_y,
                    text: self.tags[i].text.clone(),
                };
                texts.push(label);
                proof {
                    lemma_frame_view_push(texts_before, label);
                }
                if selected || is_urgent {
                    let underline = DrawOp::Fill {
                        color: scheme.underline,
                        x: x + TAG_UNDERLINE_INSET / 2,
                        y: underline_y,
                        width: if tag_width >= TAG_UNDERLINE_INSET as u32 {
                            tag_width - TAG_UNDERLINE_INSET as u32
                        } else {
                            0
                        },
                        height: underline_height as u32,
                    };
                    fills.push(underline);
                    proof {
                        lemma_frame_view_push(fills_before, underline);
                    }
                }
                x = x + tag_width as i32;
            }
            i = i + 1;
        }
        x
    }

    /// Lays out the blocks from the right edge leftwards, the last block
    /// first: appends the underlines of the underlined blocks to `fills` and
    /// the texts of all blocks to `texts`, and returns the x at which the
    /// leftmost block starts; the right edge itself if there is no block.
    fn layout_blocks(&self, blocks: &Vec<MeasuredBlock>, fills: &mut Vec<DrawOp>, texts: &mut Vec<DrawOp>) -> (start: i32)
        requires
            self.wf(),
            blocks@.len() <= MAX_DRAWN_BLOCKS,
        ensures
            start == block_x(blocks_view(blocks@), self@.width as int, 0),
            self@.width - blocks@.len() * MAX_BLOCK_STEP <= start <= self@.width,
            frame_view(final(fills)@) == frame_view(old(fills)@) + self@.block_underlines(
                blocks_view(blocks@),
                0,
            ),
            frame_view(final(texts)@) == frame_view(old(texts)@) + self@.block_labels(
                blocks_view(blocks@),
                0,
            ),
    {
        let ghost shown = blocks_view(blocks@);
        let text_y: i32 = TEXT_TOP + self.font.ascent() as i32;
        let underline_height: u16 = self.font.underline_height();
        let underline_y: i32 = self.height as i32 - underline_height as i32 - UNDERLINE_BOTTOM_GAP;
        let mut x: i32 = self.width as i32;
        let mut k: usize = blocks.len();
        while k > 0
            invariant
                self.wf(),
                shown == blocks_view(blocks@),
                blocks@.len() <= MAX_DRAWN_BLOCKS,
                k <= blocks@.len(),
                text_y == self@.text_y(),
                underline_height == self@.underline_height(),
                underline_y == self@.underline_y(),
                x == block_x(shown, self@.width as int, k as int),
                self@.width - (blocks@.len() - k) * MAX_BLOCK_STEP <= x <= self@.width,
                frame_view(fills@) == frame_view(old(fills)@) + self@.block_underlines(
                    shown,
                    k as int,
                ),
                frame_view(texts@) == frame_view(old(texts)@) + self@.block_labels(shown, k as int),
            decreases k,
        {
            k = k - 1;
            let ghost fills_before = fills@;
            let ghost texts_before = texts@;
            let block = &blocks[k];
            x = x - GAP - block.width as i32;
            let label = DrawOp::Text { color: block.color, x, y: text_y, text: block.text.clone() };
            texts.push(label);
            proof {
                lemma_frame_view_push(texts_before, label);
            }
            if block.underline {
                let underline = DrawOp::Fill {
                    color: block.color,
                    x: x - BLOCK_UNDERLINE_OUTSET / 2,
                    y: underline_y,
                    width: block.width as u32 + BLOCK_UNDERLINE_OUTSET as u32,
                    height: underline_height as u32,
                };
                fills.push(underline);
                proof {
                    lemma_frame_view_push(fills_before, underline);
                }
            }
        }
        x
    }

    /// Places the title between the end of the layout region and the start
    /// of the blocks, cut down to what fits.
    fn layout_title(&self, layout_end: i32, blocks_start: i32, title: &MeasuredTitle) -> (op: DrawOp)
        requires
            self.wf(),
            title@.wf(),
            0 <= layout_end <= MAX_LAYOUT_END,
            self@.width - MAX_DRAWN_BLOCKS * MAX_BLOCK_STEP <= blocks_start <= self@.width,
        ensures
            seq![op@] == self@.title_ops(layout_end as int, blocks_start as int, Some(title@)),
    {
        let full_width: i32 = title.full_width() as i32;
        let centred: i32 = (layout_end + blocks_start) / 2 - full_width / 2;
        let start: i32 = if centred < layout_end {
            layout_end + GAP
        } else {
            centred
        };
        let kept: usize = title.fit(blocks_start - start);
        DrawOp::Text {
            color: self.scheme_selected.foreground,
            x: start,
            y: TEXT_TOP + self.font.ascent() as i32,
            text: title.prefix(kept),
        }
    }

    /// Brings the strip up to date and returns the operations that do so;
    /// none if the bar needs no redraw, and then nothing changes.
    ///
    /// Otherwise the frame clears the surface, underlines the shown tags
    /// that are selected or urgent and the blocks that ask for it, draws the
    /// labels of the shown tags, the layout symbol, the keychord indicator,
    /// the blocks from the right edge inwards and the title between the two,
    /// and at last copies the surface to the window: `frame` says where and
    /// in which colours. The bar remembers the selected and occupied tags
    /// that the frame shows, and needs no redraw any more.
    ///
    /// `blocks` are the texts that `block_contents` returned, measured; they
    /// are shown only if blocks are to be drawn and there is status text.
    #[verifier::rlimit(60)]
    pub fn draw(
        &mut self,
        current_tags: u32,
        occupied_tags: u32,
        urgent_tags: u32,
        draw_blocks: bool,
        layout_symbol: &MeasuredText,
        keychord_indicator: Option<&MeasuredText>,
        focused_title: Option<&MeasuredTitle>,
        blocks: &Vec<MeasuredBlock>,
    ) -> (frame: Vec<DrawOp>)
        requires
            old(self).wf(),
            focused_title matches Some(title) ==> title@.wf(),
            blocks@.len() <= MAX_DRAWN_BLOCKS,
        ensures
            final(self).wf(),
            final(self)@ == old(self)@.drawn(current_tags, occupied_tags),
            !old(self)@.needs_redraw ==> frame@.len() == 0,
            old(self)@.needs_redraw ==> frame_view(frame@) == old(self)@.frame(
                current_tags,
                occupied_tags,
                urgent_tags,
                draw_blocks,
                layout_symbol@,
                view_of(keychord_indicator),
                title_view_of(focused_title),
                blocks_view(blocks@),
            ),
    {
        let mut fills: Vec<DrawOp> = Vec::new();
        if !self.needs_redraw {
            return fills;
        }
        let ghost pre = self@;
        let ghost symbol = layout_symbol@;
        let ghost keychord = view_of(keychord_indicator);
        let mut texts: Vec<DrawOp> = Vec::new();
        let text_y: i32 = TEXT_TOP + self.font.ascent() as i32;

        let clear = DrawOp::Fill {
            color: self.scheme_normal.background,
            x: 0,
            y: 0,
            width: self.width as u32,
            height: self.height as u32,
        };
        fills.push(clear);
        assert(frame_view(fills@) =~= seq![pre.clear_op()]);
        assert(frame_view(texts@) =~= Seq::<DrawOpView>::empty());

        self.last_occupied_tags = occupied_tags;
        self.last_current_tags = current_tags;
        self.needs_redraw = false;
        assert(self@ == pre.drawn(current_tags, occupied_tags));
        proof {
            lemma_layout_unmoved(pre, self@, current_tags, occupied_tags, urgent_tags);
        }

        let tags_end: i32 = self.layout_tags(
            current_tags,
            occupied_tags,
            urgent_tags,
            &mut fills,
            &mut texts,
        );
        let mut cursor: i32 = tags_end + GAP;
        let symbol_op = DrawOp::Text {
            color: self.scheme_normal.foreground,
            x: cursor,
            y: text_y,
            text: layout_symbol.text.clone(),
        };
        let ghost texts_before = texts@;
        texts.push(symbol_op);
        proof {
            lemma_frame_view_push(texts_before, symbol_op);
        }
        cursor = cursor + layout_symbol.width as i32;
        match keychord_indicator {
            Some(indicator) => {
                cursor = cursor + GAP;
                let op = DrawOp::Text {
                    color: self.scheme_normal.foreground,
                    x: cursor,
                    y: text_y,
                    text: indicator.text.clone(),
                };
                let ghost texts_before = texts@;
                texts.push(op);
                proof {
                    lemma_frame_view_push(texts_before, op);
                }
                cursor = cursor + indicator.width as i32;
            },
            None => {},
        }
        assert(cursor == pre.layout_cursor(current_tags, occupied_tags, symbol, keychord));
        assert(frame_view(texts@) =~= pre.tag_labels(
            current_tags,
            occupied_tags,
            urgent_tags,
            pre.tags.len() as int,
        ).push(pre.symbol_op(current_tags, occupied_tags, symbol)) + pre.keychord_ops(
            current_tags,
            occupied_tags,
            symbol,
            keychord,
        ));

        let no_blocks: Vec<MeasuredBlock> = Vec::new();
        let shown: &Vec<MeasuredBlock> = if draw_blocks && !self.status_text.as_str().is_empty() {
            blocks
        } else {
            &no_blocks
        };
        assert(blocks_view(shown@) =~= pre.drawn_blocks(draw_blocks, blocks_view(blocks@)));
        let blocks_start: i32 = self.layout_blocks(shown, &mut fills, &mut texts);

        match focused_title {
            Some(title) => {
                let op = self.layout_title(cursor + GAP, blocks_start, title);
                let ghost texts_before = texts@;
                texts.push(op);
                proof {
                    lemma_frame_view_push(texts_before, op);
                    assert(frame_view(texts@) =~= frame_view(texts_before) + seq![op@]);
                }
            },
            None => {},
        }
        assert(frame_view(fills@) =~= pre.frame_fills(
            current_tags,
            occupied_tags,
            urgent_tags,
            blocks_view(shown@),
        ));
        assert(frame_view(texts@) =~= pre.frame_texts(
            current_tags,
            occupied_tags,
            urgent_tags,
            symbol,
            keychord,
            title_view_of(focused_title),
            blocks_view(shown@),
        ));

        let ghost fills_done = fills@;
        let ghost texts_done = texts@;
        fills.append(&mut texts);
        let present = DrawOp::Present { width: self.width as u32, height: self.height as u32 };
        fills.push(present);
        proof {
            lemma_frame_view_add(fills_done, texts_done);
            lemma_frame_view_push(fills_done + texts_done, present);
        }
        fills
    }
}

/// What an optional measured text stands for.
pub open spec fn view_of(text: Option<&MeasuredText>) -> Option<MeasuredTextView> {
    match text {
        Some(t) => Some(t@),
        None => None,
    }
}

/// What an optional measured title stands for.
pub open spec fn title_view_of(title: Option<&MeasuredTitle>) -> Option<MeasuredTitleView> {
    match title {
        Some(t) => Some(t@),
        None => None,
    }
}

/// Where things stand in a frame does not depend on whether the bar needs a
/// redraw, nor on the masks of the frame before.
proof fn lemma_layout_unmoved(a: BarView, b: BarView, current: u32, occupied: u32, urgent: u32)
    requires
        a.same_layout(b),
    ensures
        forall|i: int| a.tag_start(current, occupied, i) == b.tag_start(current, occupied, i),
        forall|i: int|
            a.tag_labels(current, occupied, urgent, i) == b.tag_labels(current, occupied, urgent, i),
        forall|i: int|
            a.tag_underlines(current, occupied, urgent, i) == b.tag_underlines(
                current,
                occupied,
                urgent,
                i,
            ),
        forall|blocks: Seq<MeasuredBlockView>, k: int|
            a.block_labels(blocks, k) == b.block_labels(blocks, k),
        forall|blocks: Seq<MeasuredBlockView>, k: int|
            a.block_underlines(blocks, k) == b.block_underlines(blocks, k),
{
    assert forall|i: int| a.tag_start(current, occupied, i) == b.tag_start(current, occupied, i) by {
        lemma_same_tag_start(a, b, current, occupied, i);
    }
    assert forall|i: int|
        a.tag_labels(current, occupied, urgent, i) == b.tag_labels(
            current,
            occupied,
            urgent,
            i,
        ) && a.tag_underlines(current, occupied, urgent, i) == b.tag_underlines(
            current,
            occupied,
            urgent,
            i,
        ) by {
        lemma_same_tag_ops(a, b, current, occupied, urgent, i);
    }
    assert forall|blocks: Seq<MeasuredBlockView>, k: int|
        a.block_labels(blocks, k) == b.block_labels(blocks, k) && a.block_underlines(blocks, k)
            == b.block_underlines(blocks, k) by {
        lemma_same_block_ops(a, b, blocks, k);
    }
}

/// No block moves the cursor further than this: the widest text and the gap.
const MAX_BLOCK_STEP: i32 = 65545;

/// The layout region ends no further right than this.
const MAX_LAYOUT_END: i32 = 4000000;

/// No tag is wider than this: the widest label and the widest padding on both sides.
const MAX_TAG_WIDTH: i32 = 117963;

/// The texts that the blocks produced, in the order of the blocks: of each
/// answer that holds a text that text, of an answer that holds none nothing.
pub fn produced_texts(contents: &Vec<Option<String>>) -> (texts: Vec<String>)
    ensures
        strings_view(texts@) == produced(contents_view(contents@)),
{
    let mut texts: Vec<String> = Vec::new();
    let mut i: usize = 0;
    assert(contents_view(contents@.take(0)) =~= Seq::<Option<Seq<char>>>::empty());
    assert(strings_view(texts@) =~= produced(contents_view(contents@.take(0))));
    while i < contents.len()
        invariant
            i <= contents@.len(),
            strings_view(texts@) == produced(contents_view(contents@.take(i as int))),
        decreases contents.len() - i,
    {
        let ghost done = contents_view(contents@.take(i as int));
        let ghost next = contents_view(contents@.take(i + 1));
        assert(next.drop_last() =~= done);
        let ghost before = texts@;
        match &contents[i] {
            Some(text) => {
                let copy = text.clone();
                texts.push(copy);
                assert(strings_view(texts@) =~= strings_view(before).push(copy@));
            },
            None => {},
        }
        i = i + 1;
    }
    assert(contents@.take(contents@.len() as int) =~= contents@);
    texts
}

/// The texts joined, in their order.
fn joined(texts: &Vec<String>) -> (out: String)
    ensures
        out@ == strings_view(texts@).flatten(),
{
    let mut out = String::new();
    let mut i: usize = 0;
    while i < texts.len()
        invariant
            i <= texts@.len(),
            out@ == strings_view(texts@.take(i as int)).flatten(),
        decreases texts.len() - i,
    {
        proof {
            let done = strings_view(texts@.take(i as int));
            assert(strings_view(texts@.take(i + 1)) =~= done.push(texts@[i as int]@));
            done.lemma_flatten_push(texts@[i as int]@);
        }
        out.append(texts[i].as_str());
        i = i + 1;
    }
    assert(texts@.take(texts@.len() as int) =~= texts@);
    out
}

/// The full width of each tag: the measured label and the padding on both sides.
fn padded_widths(tags: &Vec<MeasuredText>, padding: u16) -> (widths: Vec<u32>)
    ensures
        widths@.len() == tags@.len(),
        forall|i: int|
            0 <= i < tags@.len() ==> #[trigger] widths@[i] == tags@[i].width + 2 * padding,
{
    let mut widths: Vec<u32> = Vec::new();
    let mut i: usize = 0;
    while i < tags.len()
        invariant
            i <= tags@.len(),
            widths@.len() == i,
            forall|j: int| 0 <= j < i ==> #[trigger] widths@[j] == tags@[j].width + 2 * padding,
        decreases tags.len() - i,
    {
        widths.push(tags[i].width as u32 + 2 * (padding as u32));
        i = i + 1;
    }
    widths
}

/// One refresh time per block, each of them `now`.
fn fresh_times(count: usize, now: u64) -> (times: Vec<u64>)
    ensures
        times@ == Seq::new(count as nat, |i: int| now),
{
    let mut times: Vec<u64> = Vec::new();
    let mut i: usize = 0;
    while i < count
        invariant
            i <= count,
            times@ == Seq::new(i as nat, |j: int| now),
        decreases count - i,
    {
        times.push(now);
        assert(times@ =~= Seq::new((i + 1) as nat, |j: int| now));
        i = i + 1;
    }
    times
}

} // verus!
