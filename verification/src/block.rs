//! Status blocks: the producers of the pieces of status text that a bar shows
//! at its right end, and what a bar notes of their answers.
use vstd::prelude::*;

verus! {

/// A block could not produce its text this time.
#[derive(Clone, Copy, Debug, PartialEq, Eq, Structural)]
pub struct BlockError;

/// A producer of status text, refreshed at an interval of its own choosing.
///
/// Nothing is promised of an implementation: a bar is correct whatever the
/// three methods return.
pub trait Block {
    /// The least time between two refreshes, in the ticks of the host's clock.
    fn interval(&self) -> u64;

    /// The current text. May block, and may fail.
    fn content(&mut self) -> Result<String, BlockError>;

    /// The packed RGB colour to show the text in.
    fn color(&self) -> u32;
}

/// A block as a configuration lists it: the producer, and whether its text is underlined.
pub struct StatusBlock {
    pub block: Box<dyn Block>,
    pub underline: bool,
}

/// What a block answered when a refresh came to it: the interval it gave,
/// and whether it then produced a text. A block that was not yet due is not
/// asked for one, and is noted as not having succeeded.
#[derive(Clone, Copy, Debug, PartialEq, Eq, Structural)]
pub struct BlockAnswer {
    pub interval: u64,
    pub succeeded: bool,
}

/// The text that one block produced for a frame, with the block's colour and
/// whether it is underlined.
#[derive(Clone, Debug, PartialEq, Eq)]
pub struct BlockText {
    pub text: String,
    pub color: u32,
    pub underline: bool,
}

/// A `BlockText` after the font engine has measured it.
#[derive(Clone, Debug, PartialEq, Eq)]
pub struct MeasuredBlock {
    pub text: String,
    pub width: u16,
    pub color: u32,
    pub underline: bool,
}

/// What a `MeasuredBlock` stands for.
pub struct MeasuredBlockView {
    pub text: Seq<char>,
    pub width: u16,
    pub color: u32,
    pub underline: bool,
}

impl View for MeasuredBlock {
    type V = MeasuredBlockView;

    open spec fn view(&self) -> MeasuredBlockView {
        MeasuredBlockView {
            text: self.text@,
            width: self.width,
            color: self.color,
            underline: self.underline,
        }
    }
}

/// What a list of measured blocks stands for, one by one.
pub open spec fn blocks_view(blocks: Seq<MeasuredBlock>) -> Seq<MeasuredBlockView> {
    blocks.map_values(|b: MeasuredBlock| b@)
}

/// What a list of answers stands for, one by one: the text of a block that
/// produced one, nothing for a block that failed.
pub open spec fn contents_view(contents: Seq<Option<String>>) -> Seq<Option<Seq<char>>> {
    contents.map_values(
        |c: Option<String>|
            match c {
                Some(text) => Some(text@),
                None => None,
            },
    )
}

/// The texts among the answers, in their order. A block that failed
/// contributes nothing.
pub open spec fn produced(contents: Seq<Option<Seq<char>>>) -> Seq<Seq<char>>
    decreases contents.len(),
{
    if contents.len() == 0 {
        Seq::empty()
    } else {
        match contents.last() {
            Some(text) => produced(contents.drop_last()).push(text),
            None => produced(contents.drop_last()),
        }
    }
}

/// There are no more texts than answers.
pub proof fn lemma_produced_len(contents: Seq<Option<Seq<char>>>)
    ensures
        produced(contents).len() <= contents.len(),
    decreases contents.len(),
{
    if contents.len() > 0 {
        lemma_produced_len(contents.drop_last());
    }
}

/// The time that has passed at `now` since `last_update`; none if the clock
/// reads earlier than it did then.
pub open spec fn elapsed(last_update: u64, now: u64) -> int {
    if now >= last_update {
        now - last_update
    } else {
        0
    }
}

/// Whether a block last refreshed at `last_update` has reached its interval at `now`.
pub open spec fn is_due(last_update: u64, interval: u64, now: u64) -> bool {
    elapsed(last_update, now) >= interval
}

/// Decides whether a block has reached its interval.
pub fn block_is_due(last_update: u64, interval: u64, now: u64) -> (due: bool)
    ensures
        due == is_due(last_update, interval, now),
{
    if now >= last_update {
        now - last_update >= interval
    } else {
        interval == 0
    }
}

} // verus!
