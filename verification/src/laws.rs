//! What holds of every bar and every tab strip, proved from their models.
use vstd::prelude::*;
use crate::bar_model::{BarView, GAP, block_x, lemma_same_tag_start, seq_sum, title_start};
use crate::block::MeasuredBlockView;
use crate::text::{MeasuredTextView, MeasuredTitleView};
use crate::font::Font;
use crate::tab_bar::{TabBarView, TabView, lemma_slots};

verus! {

impl BarView {
    /// The widths of the shown tags among the first `upto`, left to right.
    pub open spec fn shown_widths(self, current: u32, occupied: u32, upto: int) -> Seq<int>
        decreases upto,
    {
        if upto <= 0 {
            Seq::empty()
        } else if self.shows(current, occupied, upto - 1) {
            self.shown_widths(current, occupied, upto - 1).push(self.tag_width(upto - 1))
        } else {
            self.shown_widths(current, occupied, upto - 1)
        }
    }

    /// The widths of all tags, left to right.
    pub open spec fn all_widths(self) -> Seq<int> {
        Seq::new(self.tags.len(), |i: int| self.tag_width(i))
    }
}

/// Tag `i` starts at the sum of the widths of the shown tags before it.
pub proof fn law_tag_start_is_sum(bar: BarView, current: u32, occupied: u32, i: int)
    ensures
        bar.tag_start(current, occupied, i) == seq_sum(bar.shown_widths(current, occupied, i)),
    decreases i,
{
    if i > 0 {
        law_tag_start_is_sum(bar, current, occupied, i - 1);
        if bar.shows(current, occupied, i - 1) {
            let before = bar.shown_widths(current, occupied, i - 1);
            assert(before.push(bar.tag_width(i - 1)).drop_last() =~= before);
        }
    }
}

proof fn lemma_all_shown(bar: BarView, current: u32, occupied: u32, i: int)
    requires
        !bar.hide_vacant_tags,
        0 <= i <= bar.tags.len(),
    ensures
        bar.shown_widths(current, occupied, i) == bar.all_widths().take(i),
    decreases i,
{
    if i > 0 {
        lemma_all_shown(bar, current, occupied, i - 1);
    }
}

/// While vacant tags are not hidden, every tag is shown, and the x reached
/// after the tags, a gap before the layout symbol, is the sum of all tag
/// widths, whatever the masks.
pub proof fn law_tags_end_without_hiding(bar: BarView, current: u32, occupied: u32)
    requires
        !bar.hide_vacant_tags,
    ensures
        bar.shown_widths(current, occupied, bar.tags.len() as int) == bar.all_widths(),
        bar.tags_end(current, occupied) == seq_sum(bar.all_widths()),
        bar.symbol_x(current, occupied) - GAP == seq_sum(bar.all_widths()),
{
    law_tag_start_is_sum(bar, current, occupied, bar.tags.len() as int);
    lemma_all_shown(bar, current, occupied, bar.tags.len() as int);
    assert(bar.all_widths().take(bar.tags.len() as int) =~= bar.all_widths());
}

/// A hidden tag is no part of a frame and cannot be clicked: it draws no
/// label and no underline, the tag after it starts where it starts, and no
/// click lands on it.
pub proof fn law_hidden_tag_is_absent(bar: BarView, current: u32, occupied: u32, urgent: u32, i: int)
    requires
        0 <= i < bar.tags.len(),
        !bar.shows(current, occupied, i),
    ensures
        bar.tag_labels(current, occupied, urgent, i + 1) == bar.tag_labels(
            current,
            occupied,
            urgent,
            i,
        ),
        bar.tag_underlines(current, occupied, urgent, i + 1) == bar.tag_underlines(
            current,
            occupied,
            urgent,
            i,
        ),
        bar.tag_start(current, occupied, i + 1) == bar.tag_start(current, occupied, i),
        forall|x: int| !bar.tag_hit(current, occupied, x, i),
{
}

/// A shown tag is part of a frame, and is clicked exactly in the span that
/// the frame gives it: its label is drawn, the tag after it starts where its
/// span ends, and a click lands on it if and only if it is in that span.
pub proof fn law_shown_tag_is_drawn(bar: BarView, current: u32, occupied: u32, urgent: u32, i: int)
    requires
        0 <= i < bar.tags.len(),
        bar.shows(current, occupied, i),
    ensures
        bar.tag_labels(current, occupied, urgent, i + 1) == bar.tag_labels(
            current,
            occupied,
            urgent,
            i,
        ).push(bar.tag_label(current, occupied, urgent, i)),
        bar.tag_labels(current, occupied, urgent, bar.tags.len() as int).contains(
            bar.tag_label(current, occupied, urgent, i),
        ),
        bar.tag_start(current, occupied, i + 1) == bar.tag_start(current, occupied, i)
            + bar.tag_width(i),
        forall|x: int|
            bar.tag_hit(current, occupied, x, i) <==> bar.tag_start(current, occupied, i) <= x
                < bar.tag_start(current, occupied, i + 1),
{
    lemma_label_stays(bar, current, occupied, urgent, i, bar.tags.len() as int);
}

proof fn lemma_label_stays(bar: BarView, current: u32, occupied: u32, urgent: u32, i: int, upto: int)
    requires
        0 <= i < upto,
        bar.shows(current, occupied, i),
    ensures
        bar.tag_labels(current, occupied, urgent, upto).contains(
            bar.tag_label(current, occupied, urgent, i),
        ),
    decreases upto,
{
    let label = bar.tag_label(current, occupied, urgent, i);
    if upto == i + 1 {
        let before = bar.tag_labels(current, occupied, urgent, i);
        assert(before.push(label)[before.len() as int] == label);
    } else {
        lemma_label_stays(bar, current, occupied, urgent, i, upto - 1);
        let before = bar.tag_labels(current, occupied, urgent, upto - 1);
        let k = choose|k: int| 0 <= k < before.len() && before[k] == label;
        if bar.shows(current, occupied, upto - 1) {
            assert(before.push(bar.tag_label(current, occupied, urgent, upto - 1))[k] == label);
        }
    }
}

proof fn lemma_tag_start_grows(bar: BarView, current: u32, occupied: u32, i: int, j: int)
    requires
        0 <= i <= j,
    ensures
        bar.tag_start(current, occupied, i) <= bar.tag_start(current, occupied, j),
    decreases j,
{
    if i < j {
        lemma_tag_start_grows(bar, current, occupied, i, j - 1);
    }
}

/// The spans of the tags do not overlap: a click lands on one tag at most.
pub proof fn law_click_lands_on_one_tag(bar: BarView, current: u32, occupied: u32, x: int, i: int, j: int)
    requires
        bar.tag_hit(current, occupied, x, i),
        bar.tag_hit(current, occupied, x, j),
    ensures
        i == j,
{
    if i < j {
        lemma_tag_start_grows(bar, current, occupied, i + 1, j);
    } else if j < i {
        lemma_tag_start_grows(bar, current, occupied, j + 1, i);
    }
}

/// After a frame was drawn, clicks are answered by the masks that the frame
/// showed: the bar remembers them, so a click lands on a tag exactly where
/// the frame put it; and a further draw, with whatever masks, finds nothing
/// to do and leaves them as they are.
pub proof fn law_click_follows_last_frame(
    bar: BarView,
    current: u32,
    occupied: u32,
    later_current: u32,
    later_occupied: u32,
)
    requires
        bar.needs_redraw,
    ensures
        ({
            let shown = bar.drawn(current, occupied);
            &&& shown.last_current_tags == current
            &&& shown.last_occupied_tags == occupied
            &&& forall|x: int, i: int|
                shown.tag_hit(shown.last_current_tags, shown.last_occupied_tags, x, i)
                    == bar.tag_hit(current, occupied, x, i)
            &&& shown.drawn(later_current, later_occupied) == shown
        }),
{
    let shown = bar.drawn(current, occupied);
    assert forall|x: int, i: int|
        shown.tag_hit(shown.last_current_tags, shown.last_occupied_tags, x, i) == bar.tag_hit(
            current,
            occupied,
            x,
            i,
        ) by {
        lemma_same_tag_start(bar, shown, current, occupied, i);
    }
}

/// A draw leaves a bar that needs no redraw, so a second draw with nothing
/// in between changes nothing; the frame it returns is empty.
pub proof fn law_second_draw_is_idle(
    bar: BarView,
    current: u32,
    occupied: u32,
    again_current: u32,
    again_occupied: u32,
)
    ensures
        !bar.drawn(current, occupied).needs_redraw,
        bar.drawn(current, occupied).drawn(again_current, again_occupied) == bar.drawn(
            current,
            occupied,
        ),
{
}

/// In a strip with windows, a click on the last pixel lands in the last
/// slot, and a click at or beyond the strip's width lands in none.
pub proof fn law_click_at_right_edge(bar: TabBarView, count: int, x: int)
    requires
        count > 0,
    ensures
        bar.width > 0 ==> bar.clicked_index(count, bar.width - 1) == Some(count - 1),
        x >= bar.width ==> bar.clicked_index(count, x) is None,
{
    if bar.width > 0 {
        let w = bar.width as int;
        let t = bar.tab_width(count);
        lemma_slots(bar, count, count - 1);
        if t > 0 {
            assert((w - 1) / t >= count - 1) by (nonlinear_arith)
                requires
                    t > 0,
                    (count - 1) * t + t <= w,
                    count > 0,
            ;
        }
    }
}

/// A click inside the slot that a frame gives to window `i` lands on window `i`.
pub proof fn law_click_lands_in_drawn_slot(bar: TabBarView, count: int, i: int, x: int)
    requires
        0 <= i < count,
        bar.slot_start(count, i) <= x < bar.slot_start(count, i) + bar.slot_width(count, i),
    ensures
        bar.clicked_index(count, x) == Some(i),
{
    let t = bar.tab_width(count);
    lemma_slots(bar, count, i);
    if t > 0 {
        if i < count - 1 {
            assert(x / t == i) by (nonlinear_arith)
                requires
                    t > 0,
                    i * t <= x < i * t + t,
            ;
        } else {
            assert(x / t >= i) by (nonlinear_arith)
                requires
                    t > 0,
                    i * t <= x,
            ;
        }
    }
}

/// A frame draws one label for each shown tag.
pub proof fn law_one_label_per_shown_tag(bar: BarView, current: u32, occupied: u32, urgent: u32, i: int)
    ensures
        bar.tag_labels(current, occupied, urgent, i).len() == bar.shown_widths(
            current,
            occupied,
            i,
        ).len(),
        forall|k: int|
            0 <= k < bar.tag_labels(current, occupied, urgent, i).len() ==> (#[trigger] bar.tag_labels(
                current,
                occupied,
                urgent,
                i,
            )[k]) is Text,
        forall|k: int|
            0 <= k < bar.tag_underlines(current, occupied, urgent, i).len()
                ==> (#[trigger] bar.tag_underlines(current, occupied, urgent, i)[k]) is Fill,
    decreases i,
{
    if i > 0 {
        law_one_label_per_shown_tag(bar, current, occupied, urgent, i - 1);
    }
}

proof fn lemma_block_ops_kinds(bar: BarView, blocks: Seq<MeasuredBlockView>, k: int)
    ensures
        forall|j: int|
            0 <= j < bar.block_labels(blocks, k).len() ==> (#[trigger] bar.block_labels(
                blocks,
                k,
            )[j]) is Text,
        forall|j: int|
            0 <= j < bar.block_underlines(blocks, k).len() ==> (#[trigger] bar.block_underlines(
                blocks,
                k,
            )[j]) is Fill,
    decreases blocks.len() - k,
{
    if k < blocks.len() {
        lemma_block_ops_kinds(bar, blocks, k + 1);
    }
}

/// In every frame of a bar all fills come first, the clearing of the surface
/// before the others, then all texts, and the copy onto the window comes
/// last and only once: nothing is shown before everything is drawn.
pub proof fn law_frame_fills_then_texts_then_presents(
    bar: BarView,
    current: u32,
    occupied: u32,
    urgent: u32,
    draw_blocks: bool,
    symbol: MeasuredTextView,
    keychord: Option<MeasuredTextView>,
    title: Option<MeasuredTitleView>,
    blocks: Seq<MeasuredBlockView>,
)
    ensures
        ({
            let frame = bar.frame(
                current,
                occupied,
                urgent,
                draw_blocks,
                symbol,
                keychord,
                title,
                blocks,
            );
            let fills = bar.frame_fills(
                current,
                occupied,
                urgent,
                bar.drawn_blocks(draw_blocks, blocks),
            ).len();
            &&& 1 <= fills < frame.len() - 1
            &&& frame[0] == bar.clear_op()
            &&& frame[frame.len() - 1] == bar.present_op()
            &&& forall|i: int| 0 <= i < fills ==> (#[trigger] frame[i]) is Fill
            &&& forall|i: int| fills <= i < frame.len() - 1 ==> (#[trigger] frame[i]) is Text
        }),
{
    let shown = bar.drawn_blocks(draw_blocks, blocks);
    law_one_label_per_shown_tag(bar, current, occupied, urgent, bar.tags.len() as int);
    lemma_block_ops_kinds(bar, shown, 0);
}

/// The title that a frame draws ends where the blocks start or before, as
/// far as its measured width says, unless nothing of it is drawn at all; and
/// a title that fits is drawn whole.
pub proof fn law_title_stays_clear_of_blocks(title: MeasuredTitleView, layout_end: int, blocks_start: int)
    requires
        title.wf(),
    ensures
        ({
            let start = title_start(layout_end, blocks_start, title.full_width());
            let kept = title.fitted_len(title.text.len(), blocks_start - start);
            &&& kept <= title.text.len()
            &&& title.fitted(blocks_start - start) == title.text.subrange(0, kept as int)
            &&& kept == 0 || start + title.prefix_widths[kept as int] <= blocks_start
            &&& start + title.full_width() <= blocks_start ==> kept == title.text.len()
            &&& forall|longer: int|
                kept < longer <= title.text.len() ==> start + #[trigger] title.prefix_widths[longer]
                    > blocks_start
        }),
{
    let start = title_start(layout_end, blocks_start, title.full_width());
    title.lemma_fitted_len(title.text.len(), blocks_start - start);
}

/// The blocks of a frame lie side by side: each starts a gap and its own
/// width left of where the next one starts, the last one left of the right
/// edge.
pub proof fn law_blocks_run_leftwards(blocks: Seq<MeasuredBlockView>, right_edge: int, k: int)
    requires
        0 <= k < blocks.len(),
    ensures
        block_x(blocks, right_edge, k) + blocks[k].width + GAP == block_x(
            blocks,
            right_edge,
            k + 1,
        ),
        block_x(blocks, right_edge, blocks.len() as int) == right_edge,
        block_x(blocks, right_edge, k) <= right_edge - GAP,
    decreases blocks.len() - k,
{
    if k + 1 < blocks.len() {
        law_blocks_run_leftwards(blocks, right_edge, k + 1);
    }
}

/// Every frame of a tab strip begins with the clearing of the surface and
/// ends with the copy onto the window, which occurs nowhere else.
pub proof fn law_strip_presents_once(
    bar: TabBarView,
    font: Font,
    tabs: Seq<TabView>,
    focused: Option<u32>,
)
    ensures
        ({
            let frame = bar.frame(font, tabs, focused);
            &&& frame.len() >= 2
            &&& frame[0] == bar.clear_op()
            &&& frame[frame.len() - 1] == bar.present_op()
            &&& forall|i: int| 0 <= i < frame.len() - 1 ==> !((#[trigger] frame[i]) is Present)
        }),
{
    lemma_tab_ops_kinds(bar, font, tabs, focused, tabs.len() as int);
}

proof fn lemma_tab_ops_kinds(bar: TabBarView, font: Font, tabs: Seq<TabView>, focused: Option<u32>, upto: int)
    ensures
        forall|i: int|
            0 <= i < bar.tab_ops(font, tabs, focused, upto).len() ==> !((#[trigger] bar.tab_ops(
                font,
                tabs,
                focused,
                upto,
            )[i]) is Present),
    decreases upto,
{
    if upto > 0 {
        lemma_tab_ops_kinds(bar, font, tabs, focused, upto - 1);
    }
}

} // verus!
