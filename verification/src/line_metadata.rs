//! What is known of one logical line while it is being put together.

use vstd::prelude::*;

verus! {

/// The facts about one logical line: the span of tokens between two newlines,
/// or from the start of the stream to the first newline.
#[derive(Clone, Copy, Debug, PartialEq, Eq)]
pub struct LineMetadata {
    /// The line starts with `require`.
    pub has_require: bool,
    /// The line holds an `end`.
    pub has_end: bool,
    /// The line holds a `def`.
    pub has_def: bool,
    /// The line holds a conditional keyword.
    pub has_conditional: bool,
    /// The line holds a `do`.
    pub has_do_keyword: bool,
    /// The depth of the line's own indentation marker, once one was seen.
    pub indent_level: Option<u32>,
    /// The next line is indented more deeply than this one: this line opens
    /// a block. Set when the next line's indentation is seen.
    pub gets_indented: bool,
}

impl LineMetadata {
    /// The facts of a line of which nothing is known yet.
    pub open spec fn spec_new() -> LineMetadata {
        LineMetadata {
            has_require: false,
            has_end: false,
            has_def: false,
            has_conditional: false,
            has_do_keyword: false,
            indent_level: None,
            gets_indented: false,
        }
    }

    /// Whether the line closes a conditional or a `do` block that it also
    /// opened, so that what follows it is set apart by a blank line.
    pub open spec fn spec_wants_spacer_for_conditional(&self) -> bool {
        self.has_end && (self.has_conditional || self.has_do_keyword)
    }

    /// Whether both lines have a known depth and `current` is strictly deeper
    /// than `prev`.
    pub open spec fn spec_indent_level_increases_between(
        prev: &LineMetadata,
        current: &LineMetadata,
    ) -> bool {
        match (prev.indent_level, current.indent_level) {
            (Some(p), Some(c)) => p < c,
            _ => false,
        }
    }

    #[verifier::when_used_as_spec(spec_new)]
    pub fn new() -> (md: LineMetadata)
        ensures
            md == LineMetadata::spec_new(),
    {
        LineMetadata {
            has_require: false,
            has_end: false,
            has_def: false,
            has_conditional: false,
            has_do_keyword: false,
            indent_level: None,
            gets_indented: false,
        }
    }

    pub fn set_has_require(&mut self)
        ensures
            *final(self) == (LineMetadata { has_require: true, ..*old(self) }),
    {
        self.has_require = true;
    }

    pub fn set_has_end(&mut self)
        ensures
            *final(self) == (LineMetadata { has_end: true, ..*old(self) }),
    {
        self.has_end = true;
    }

    pub fn set_has_def(&mut self)
        ensures
            *final(self) == (LineMetadata { has_def: true, ..*old(self) }),
    {
        self.has_def = true;
    }

    pub fn set_has_conditional(&mut self)
        ensures
            *final(self) == (LineMetadata { has_conditional: true, ..*old(self) }),
    {
        self.has_conditional = true;
    }

    pub fn set_has_do_keyword(&mut self)
        ensures
            *final(self) == (LineMetadata { has_do_keyword: true, ..*old(self) }),
    {
        self.has_do_keyword = true;
    }

    pub fn set_gets_indented(&mut self)
        ensures
            *final(self) == (LineMetadata { gets_indented: true, ..*old(self) }),
    {
        self.gets_indented = true;
    }

    /// Records the depth of the line's indentation marker.
    pub fn observe_indent_level(&mut self, level: u32)
        ensures
            *final(self) == (LineMetadata { indent_level: Some(level), ..*old(self) }),
    {
        self.indent_level = Some(level);
    }

    pub fn has_require(&self) -> (r: bool)
        ensures
            r == self.has_require,
    {
        self.has_require
    }

    pub fn has_end(&self) -> (r: bool)
        ensures
            r == self.has_end,
    {
        self.has_end
    }

    pub fn has_def(&self) -> (r: bool)
        ensures
            r == self.has_def,
    {
        self.has_def
    }

    pub fn has_conditional(&self) -> (r: bool)
        ensures
            r == self.has_conditional,
    {
        self.has_conditional
    }

    pub fn has_do_keyword(&self) -> (r: bool)
        ensures
            r == self.has_do_keyword,
    {
        self.has_do_keyword
    }

    pub fn gets_indented(&self) -> (r: bool)
        ensures
            r == self.gets_indented,
    {
        self.gets_indented
    }

    pub fn indent_level(&self) -> (r: Option<u32>)
        ensures
            r == self.indent_level,
    {
        self.indent_level
    }

    #[verifier::when_used_as_spec(spec_wants_spacer_for_conditional)]
    pub fn wants_spacer_for_conditional(&self) -> (r: bool)
        ensures
            r == (self.has_end && (self.has_conditional || self.has_do_keyword)),
    {
        self.has_end && (self.has_conditional || self.has_do_keyword)
    }

    #[verifier::when_used_as_spec(spec_indent_level_increases_between)]
    pub fn indent_level_increases_between(prev: &LineMetadata, current: &LineMetadata) -> (r: bool)
        ensures
            r == LineMetadata::spec_indent_level_increases_between(prev, current),
    {
        match (prev.indent_level, current.indent_level) {
            (Some(p), Some(c)) => p < c,
            _ => false,
        }
    }
}

} // verus!
