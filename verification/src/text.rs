//! Texts as the layout sees them: with their measured widths. The measuring
//! itself is the font engine's work and happens before a text gets here.
use vstd::prelude::*;
use vstd::string::*;

verus! {

/// A text and the width, in pixels, that the font engine measured for it.
#[derive(Clone, Debug, PartialEq, Eq)]
pub struct MeasuredText {
    pub text: String,
    pub width: u16,
}

/// What a `MeasuredText` stands for.
pub struct MeasuredTextView {
    pub text: Seq<char>,
    pub width: u16,
}

impl View for MeasuredText {
    type V = MeasuredTextView;

    open spec fn view(&self) -> MeasuredTextView {
        MeasuredTextView { text: self.text@, width: self.width }
    }
}

impl MeasuredText {
    pub fn new(text: String, width: u16) -> (out: MeasuredText)
        ensures
            out@ == (MeasuredTextView { text: text@, width }),
    {
        MeasuredText { text, width }
    }
}

/// A title with the measured width of each of its prefixes: entry `k` of the
/// table is the width of the first `k` characters, so the table has one entry
/// more than the title has characters.
#[derive(Clone, Debug, PartialEq, Eq)]
pub struct MeasuredTitle {
    text: String,
    prefix_widths: Vec<u16>,
}

/// What a `MeasuredTitle` stands for.
pub struct MeasuredTitleView {
    pub text: Seq<char>,
    pub prefix_widths: Seq<u16>,
}

impl MeasuredTitleView {
    /// The table covers every prefix, the empty one and the whole title included.
    pub open spec fn wf(self) -> bool {
        self.prefix_widths.len() == self.text.len() + 1
    }

    /// The measured width of the whole title.
    pub open spec fn full_width(self) -> int {
        self.prefix_widths[self.text.len() as int] as int
    }

    /// The length of the longest prefix of at most `len` characters that is
    /// no wider than `available`; 0 if none is, whatever the empty prefix measures.
    pub open spec fn fitted_len(self, len: nat, available: int) -> nat
        decreases len,
    {
        if len == 0 || self.prefix_widths[len as int] <= available {
            len
        } else {
            self.fitted_len((len - 1) as nat, available)
        }
    }

    /// The title cut down to what fits into `available` pixels.
    pub open spec fn fitted(self, available: int) -> Seq<char> {
        self.text.subrange(0, self.fitted_len(self.text.len(), available) as int)
    }

    /// `fitted_len` keeps no more than it was given, keeps only what fits
    /// (or nothing), and every longer prefix it passed over is too wide.
    pub proof fn lemma_fitted_len(self, len: nat, available: int)
        requires
            self.wf(),
            len <= self.text.len(),
        ensures
            self.fitted_len(len, available) <= len,
            self.fitted_len(len, available) == 0 || self.prefix_widths[self.fitted_len(
                len,
                available,
            ) as int] <= available,
            forall|k: int|
                self.fitted_len(len, available) < k <= len ==> #[trigger] self.prefix_widths[k]
                    > available,
        decreases len,
    {
        if len == 0 || self.prefix_widths[len as int] <= available {
        } else {
            self.lemma_fitted_len((len - 1) as nat, available);
        }
    }
}

impl View for MeasuredTitle {
    type V = MeasuredTitleView;

    closed spec fn view(&self) -> MeasuredTitleView {
        MeasuredTitleView { text: self.text@, prefix_widths: self.prefix_widths@ }
    }
}

impl MeasuredTitle {
    /// Pairs a title with its table of prefix widths; `None` if the table does
    /// not have exactly one entry per prefix.
    pub fn new(text: String, prefix_widths: Vec<u16>) -> (out: Option<MeasuredTitle>)
        ensures
            out.is_some() <==> prefix_widths@.len() == text@.len() + 1,
            out matches Some(title) ==> title@ == (MeasuredTitleView {
                text: text@,
                prefix_widths: prefix_widths@,
            }),
    {
        let chars: usize = text.as_str().unicode_len();
        let entries: usize = prefix_widths.len();
        if entries > 0 && entries - 1 == chars {
            Some(MeasuredTitle { text, prefix_widths })
        } else {
            None
        }
    }

    /// The number of characters in the title.
    pub fn len(&self) -> (n: usize)
        requires
            self@.wf(),
        ensures
            n == self@.text.len(),
    {
        self.prefix_widths.len() - 1
    }

    /// The measured width of the whole title.
    pub fn full_width(&self) -> (w: u16)
        requires
            self@.wf(),
        ensures
            w == self@.full_width(),
    {
        self.prefix_widths[self.prefix_widths.len() - 1]
    }

    /// Drops trailing characters until the rest is no wider than `available`,
    /// and returns how many characters stay. The whole title stays if it
    /// fits; nothing stays if no prefix fits.
    pub fn fit(&self, available: i32) -> (kept: usize)
        requires
            self@.wf(),
        ensures
            kept == self@.fitted_len(self@.text.len(), available as int),
            kept <= self@.text.len(),
            kept == 0 || self@.prefix_widths[kept as int] <= available,
            forall|k: int| kept < k <= self@.text.len() ==> #[trigger] self@.prefix_widths[k] > available,
    {
        let mut kept: usize = self.prefix_widths.len() - 1;
        while kept > 0 && self.prefix_widths[kept] as i32 > available
            invariant
                self@.wf(),
                kept <= self@.text.len(),
                self@.fitted_len(self@.text.len(), available as int) == self@.fitted_len(
                    kept as nat,
                    available as int,
                ),
            decreases kept,
        {
            kept = kept - 1;
        }
        proof {
            self@.lemma_fitted_len(self@.text.len(), available as int);
        }
        kept
    }

    /// The first `kept` characters of the title.
    pub fn prefix(&self, kept: usize) -> (out: String)
        requires
            kept <= self@.text.len(),
        ensures
            out@ == self@.text.subrange(0, kept as int),
    {
        self.text.as_str().substring_char(0, kept).to_owned()
    }
}

} // verus!
