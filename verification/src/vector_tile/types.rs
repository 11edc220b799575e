//! Font stacks and glyph ranges of a vector tile service.

use vstd::prelude::*;
use crate::text::{dec_digits, u32_text};

verus! {

/// A comma-separated list of font names, as used in font URLs.
#[derive(Debug, Clone, PartialEq, Eq, Hash)]
pub struct FontStack(pub String);

impl FontStack {
    /// A font stack with the given name.
    pub fn new(name: String) -> (r: FontStack)
        ensures
            r.0@ == name@,
    {
        FontStack(name)
    }
}

impl From<String> for FontStack {
    fn from(s: String) -> (r: FontStack) {
        FontStack(s)
    }
}

impl vstd::std_specs::convert::FromSpecImpl<String> for FontStack {
    open spec fn obeys_from_spec() -> bool {
        true
    }

    open spec fn from_spec(s: String) -> FontStack {
        FontStack(s)
    }
}

/// A range of glyph code points.
#[derive(Debug, Clone, Copy, PartialEq, Eq, Hash, Structural)]
pub struct GlyphRange {
    start: u32,
    end: u32,
}

/// The text `<start>-<end>` of a glyph range.
pub open spec fn range_text(start: u32, end: u32) -> Seq<char> {
    dec_digits(start as nat) + "-"@ + dec_digits(end as nat)
}

impl GlyphRange {
    /// First code point of the range.
    pub closed spec fn first(self) -> u32 {
        self.start
    }

    /// Last code point of the range.
    pub closed spec fn last(self) -> u32 {
        self.end
    }

    /// The range from `start` to `end`.
    pub fn new(start: u32, end: u32) -> (r: GlyphRange)
        ensures
            r.first() == start,
            r.last() == end,
    {
        GlyphRange { start, end }
    }

    /// Code points 0 to 255.
    pub fn ascii() -> (r: GlyphRange)
        ensures
            r.first() == 0,
            r.last() == 255,
    {
        GlyphRange::new(0, 255)
    }

    /// Code points 0 to 127.
    pub fn basic_latin() -> (r: GlyphRange)
        ensures
            r.first() == 0,
            r.last() == 127,
    {
        GlyphRange::new(0, 127)
    }

    /// Code points 128 to 255.
    pub fn latin_1_supplement() -> (r: GlyphRange)
        ensures
            r.first() == 128,
            r.last() == 255,
    {
        GlyphRange::new(128, 255)
    }

    /// First code point of the range.
    pub fn start(&self) -> (r: u32)
        ensures
            r == self.first(),
    {
        self.start
    }

    /// Last code point of the range.
    pub fn end(&self) -> (r: u32)
        ensures
            r == self.last(),
    {
        self.end
    }

    /// The range as it appears in font URLs: `<start>-<end>`.
    pub fn format(&self) -> (r: String)
        ensures
            r@ == range_text(self.first(), self.last()),
    {
        let mut s = u32_text(self.start);
        s.append("-");
        let e = u32_text(self.end);
        s.append(e.as_str());
        s
    }

    /// The same text as `format`, as `Display` writes it.
    pub fn to_string(&self) -> (r: String)
        ensures
            r@ == range_text(self.first(), self.last()),
    {
        self.format()
    }
}

} // verus!
