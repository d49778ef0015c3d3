//! The segment composition model: an immutable colored text fragment, and the
//! assembler that owns the theme and the ordered, append-only sequence of
//! fragments that detectors contribute.

use vstd::prelude::*;

use crate::theme::Theme;

verus! {

/// One visual unit of the rendered prompt: a background color, a foreground
/// color, and the text shown in them.
#[derive(Debug, PartialEq, Eq)]
pub struct Segment {
    pub bg: (u8, u8, u8),
    pub fg: (u8, u8, u8),
    pub text: String,
}

/// The mathematical value of a segment: its two colors and its text.
pub struct SegView {
    pub bg: (u8, u8, u8),
    pub fg: (u8, u8, u8),
    pub text: Seq<char>,
}

impl View for Segment {
    type V = SegView;

    open spec fn view(&self) -> SegView {
        SegView { bg: self.bg, fg: self.fg, text: self.text@ }
    }
}

impl Segment {
    pub fn new(bg: (u8, u8, u8), fg: (u8, u8, u8), text: String) -> (s: Segment)
        ensures
            s@ == (SegView { bg, fg, text: text@ }),
    {
        Segment { bg, fg, text }
    }
}

/// The values of a sequence of segments.
pub open spec fn segs_view(s: Seq<Segment>) -> Seq<SegView> {
    s.map_values(|x: Segment| x@)
}

/// The prompt assembler: the active theme, shared read-only with every
/// detector, and the ordered segment sequence they append to. The sequence
/// only ever grows, in detector execution order.
pub struct Powerline {
    pub theme: Theme,
    pub segments: Vec<Segment>,
}

impl Powerline {
    /// An assembler for one render pass: the given theme and no segments yet.
    pub fn new(theme: Theme) -> (p: Powerline)
        ensures
            p.theme == theme,
            p.segments@ =~= Seq::<Segment>::empty(),
    {
        Powerline { theme, segments: Vec::new() }
    }

    /// The one mutation detectors have: appending a segment. Everything
    /// already collected, and the theme, stay as they were.
    pub fn add_segment(&mut self, s: Segment)
        ensures
            final(self).theme == old(self).theme,
            final(self).segments@ == old(self).segments@.push(s),
    {
        self.segments.push(s);
    }
}

} // verus!
