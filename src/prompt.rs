//! Printable structures: styled chunks of text and the segments made of them.

use vstd::prelude::*;
use vstd::string::*;
use crate::style::{Color, Style, TextWeight, styled};

verus! {

/// What a chunk is, as a value: its text, colors, weight and padding flag.
pub ghost struct ChunkView {
    pub value: Seq<char>,
    pub fg: Option<Color>,
    pub bg: Option<Color>,
    pub weight: Option<TextWeight>,
    pub padded: bool,
}

impl ChunkView {
    /// The style that the chunk's colors and weight make up.
    pub open spec fn style(self) -> Style {
        Style { fg: self.fg, bg: self.bg, weight: self.weight }
    }

    /// The text inside the styled region: the value, with one space on each
    /// side when padded, so that the spaces take the chunk's background.
    pub open spec fn body(self) -> Seq<char> {
        if self.padded {
            seq![' '] + self.value + seq![' ']
        } else {
            self.value
        }
    }

    /// The chunk as it is printed.
    pub open spec fn rendered(self) -> Seq<char> {
        styled(self.style(), self.body())
    }

    /// The same chunk with its padding flag flipped.
    pub open spec fn toggled(self) -> ChunkView {
        ChunkView { padded: !self.padded, ..self }
    }
}

/// A chunk with neither color nor weight nor padding.
pub open spec fn plain_chunk(value: Seq<char>) -> ChunkView {
    ChunkView { value, fg: None, bg: None, weight: None, padded: false }
}

/// One styled piece of text: a literal value with optional colors, an
/// optional weight (normal when `None`) and a padding flag.
#[derive(Debug)]
pub struct Chunk {
    /// The text.
    pub value: String,
    /// Bold, dimmed, or normal when `None`.
    pub weight: Option<TextWeight>,
    /// The color of the text itself.
    pub fg_color: Option<Color>,
    /// The background color of the text.
    pub bg_color: Option<Color>,
    /// Whether a space is added on each side of the text.
    pad: bool,
}

impl View for Chunk {
    type V = ChunkView;

    closed spec fn view(&self) -> ChunkView {
        ChunkView {
            value: self.value@,
            fg: self.fg_color,
            bg: self.bg_color,
            weight: self.weight,
            padded: self.pad,
        }
    }
}

impl Chunk {

    /// An unstyled, unpadded chunk holding `text`.
    pub fn new(text: &str) -> (r: Chunk)
        ensures
            r@ == plain_chunk(text@),
    {
        Chunk { value: String::from_str(text), weight: None, fg_color: None, bg_color: None, pad: false }
    }

    /// Sets the text color.
    pub fn fg(self, color: Color) -> (r: Chunk)
        ensures
            r@ == (ChunkView { fg: Some(color), ..self@ }),
    {
        let mut c = self;
        c.fg_color = Some(color);
        c
    }

    /// Sets the background color.
    pub fn bg(self, color: Color) -> (r: Chunk)
        ensures
            r@ == (ChunkView { bg: Some(color), ..self@ }),
    {
        let mut c = self;
        c.bg_color = Some(color);
        c
    }

    /// Sets the text weight.
    pub fn weight(self, weight: TextWeight) -> (r: Chunk)
        ensures
            r@ == (ChunkView { weight: Some(weight), ..self@ }),
    {
        let mut c = self;
        c.weight = Some(weight);
        c
    }

    /// Turns the spaces around the text on, or off if they were on.
    pub fn pad(self) -> (r: Chunk)
        ensures
            r@ == self@.toggled(),
    {
        let mut c = self;
        c.pad = !c.pad;
        c
    }

    /// The style that the chunk's colors and weight make up.
    pub fn style(&self) -> (r: Style)
        ensures
            r == self@.style(),
    {
        Style { fg: self.fg_color, bg: self.bg_color, weight: self.weight }
    }

    /// The chunk as it is printed: its (padded) text inside its style.
    pub fn render(&self) -> (r: String)
        ensures
            r@ == self@.rendered(),
    {
        let st = self.style();
        if self.pad {
            let mut body = String::new();
            body.push(' ');
            body.append(self.value.as_str());
            body.push(' ');
            st.apply(body.as_str())
        } else {
            st.apply(self.value.as_str())
        }
    }
}

/// What a segment is, as a value.
pub ghost struct SegmentView {
    pub left: Option<ChunkView>,
    pub center: ChunkView,
    pub right: Option<ChunkView>,
}

/// A chunk that may be absent, as printed: nothing when absent.
pub open spec fn rendered_cap(cap: Option<ChunkView>) -> Seq<char> {
    match cap {
        Some(c) => c.rendered(),
        None => Seq::empty(),
    }
}

impl SegmentView {
    /// The segment as it is printed: left cap, center, right cap.
    pub open spec fn rendered(self) -> Seq<char> {
        rendered_cap(self.left) + self.center.rendered() + rendered_cap(self.right)
    }
}

/// One element of the prompt: a center chunk between an optional left cap
/// and an optional right cap, usually one of the glyphs of `symbols`.
#[derive(Debug)]
pub struct Segment {
    pub left: Option<Chunk>,
    pub center: Chunk,
    pub right: Option<Chunk>,
}

/// The view of a chunk that may be absent.
pub open spec fn cap_view(cap: Option<Chunk>) -> Option<ChunkView> {
    match cap {
        Some(c) => Some(c@),
        None => None,
    }
}

impl View for Segment {
    type V = SegmentView;

    open spec fn view(&self) -> SegmentView {
        SegmentView { left: cap_view(self.left), center: self.center@, right: cap_view(self.right) }
    }
}

impl Segment {

    /// The segment as it is printed: the three parts in order, an absent cap
    /// giving no text at all.
    pub fn render(&self) -> (r: String)
        ensures
            r@ == self@.rendered(),
    {
        let mut out = match &self.left {
            Some(c) => c.render(),
            None => String::new(),
        };
        let center = self.center.render();
        out.append(center.as_str());
        match &self.right {
            Some(c) => {
                let right = c.render();
                out.append(right.as_str());
            },
            None => {},
        }
        out
    }
}

/// A segment with a center chunk and no caps prints exactly as that chunk.
pub proof fn lemma_bare_segment(center: ChunkView)
    ensures
        (SegmentView { left: None, center, right: None }).rendered() == center.rendered(),
{
    let seg = SegmentView { left: None, center, right: None };
    assert(seg.rendered() =~= center.rendered());
}

/// Flipping the padding flag twice gives back the same chunk, so it prints
/// as if the flag was never touched.
pub proof fn lemma_pad_twice(c: ChunkView)
    ensures
        c.toggled().toggled() == c,
        c.toggled().toggled().rendered() == c.rendered(),
{
}

} // verus!
