//! The line buffer: it takes the tokens of a rendered program one at a time
//! and places the blank lines.

use vstd::prelude::*;
use crate::buffer_state::{
    filler_start,
    lemma_clear_breakable_garbage_wf,
    lemma_filler_start_bounds,
    lemma_insert_trailing_blankline_wf,
    lemma_push_wf,
    no_triple_newline,
    BufferState,
};
use crate::line_metadata::LineMetadata;
use crate::line_tokens::{text_equals, ConcreteLineToken};

verus! {

/// Why a blank line was asked for. The label has no effect on the buffer.
#[derive(Clone, Copy, Debug, PartialEq, Eq)]
pub enum BlanklineReason {
    ComesAfterEnd,
    Conditional,
    ClassOrModule,
    DoKeyword,
    EndOfRequireBlock,
    CommentAfterEnd,
}

/// The growing buffer of tokens, with the facts of the line that is being
/// put together and of the last finished line.
pub struct Intermediary {
    tokens: Vec<ConcreteLineToken>,
    index_of_last_hard_newline: usize,
    current_line_metadata: LineMetadata,
    previous_line_metadata: Option<LineMetadata>,
}

impl View for Intermediary {
    type V = BufferState;

    closed spec fn view(&self) -> BufferState {
        BufferState {
            tokens: self.tokens@,
            index_of_last_hard_newline: self.index_of_last_hard_newline as int,
            current_line_metadata: self.current_line_metadata,
            previous_line_metadata: self.previous_line_metadata,
        }
    }
}

impl Intermediary {
    /// The invariant of the buffer, which `new` establishes and every
    /// operation keeps.
    pub open spec fn wf(&self) -> bool {
        self@.wf()
    }

    /// An empty buffer.
    pub fn new() -> (r: Intermediary)
        ensures
            r@ == BufferState::empty(),
            r.wf(),
    {
        Intermediary {
            tokens: Vec::new(),
            current_line_metadata: LineMetadata::new(),
            previous_line_metadata: None,
            index_of_last_hard_newline: 0,
        }
    }

    /// The number of tokens in the buffer.
    pub fn len(&self) -> (n: usize)
        ensures
            n == self@.tokens.len(),
    {
        self.tokens.len()
    }

    /// The last four tokens of the buffer, the oldest first; `None` while
    /// the buffer holds fewer than four.
    pub fn last_4(&self) -> (r: Option<
        (&ConcreteLineToken, &ConcreteLineToken, &ConcreteLineToken, &ConcreteLineToken),
    >)
        ensures
            self@.tokens.len() < 4 ==> r is None,
            self@.tokens.len() >= 4 ==> r == Some(
                (
                    &self@.tokens[self@.tokens.len() - 4],
                    &self@.tokens[self@.tokens.len() - 3],
                    &self@.tokens[self@.tokens.len() - 2],
                    &self@.tokens[self@.tokens.len() - 1],
                ),
            ),
    {
        if self.len() < 4 {
            return None;
        }
        Some(
            (
                &self.tokens[self.len() - 4],
                &self.tokens[self.len() - 3],
                &self.tokens[self.len() - 2],
                &self.tokens[self.len() - 1],
            ),
        )
    }

    /// Hands out the finished tokens.
    pub fn into_tokens(self) -> (r: Vec<ConcreteLineToken>)
        ensures
            r@ == self@.tokens,
            self.wf() ==> no_triple_newline(r@),
    {
        self.tokens
    }

    /// Takes one token: notes what it says of the current line, sets the
    /// last finished line apart where the token asks for it, and adds the
    /// token to the buffer. A newline finishes the current line; it is
    /// dropped where the buffer ends in two newlines already.
    pub fn push(&mut self, lt: ConcreteLineToken)
        requires
            old(self).wf(),
        ensures
            final(self)@ == old(self)@.push(lt),
            final(self).wf(),
            no_triple_newline(final(self)@.tokens),
    {
        let ghost before = self@;
        proof {
            lemma_push_wf(before, lt);
        }
        let mut do_push = true;

        match &lt {
            ConcreteLineToken::HardNewLine => {
                if let Some(prev) = &self.previous_line_metadata {
                    if !self.current_line_metadata.has_require() && prev.has_require() {
                        self.insert_trailing_blankline(BlanklineReason::EndOfRequireBlock);
                    }
                }
                let mut md = LineMetadata::new();
                std::mem::swap(&mut md, &mut self.current_line_metadata);
                self.previous_line_metadata = Some(md);
                self.index_of_last_hard_newline = self.tokens.len();

                if self.tokens.len() >= 2 {
                    if self.tokens[self.index_of_last_hard_newline - 2].is_newline()
                        && self.tokens[self.index_of_last_hard_newline - 1].is_newline() {
                        do_push = false;
                        self.index_of_last_hard_newline = self.tokens.len() - 1;
                    }
                }
            },
            ConcreteLineToken::ModuleKeyword | ConcreteLineToken::ClassKeyword => {
                self.handle_class_or_module();
            },
            ConcreteLineToken::DoKeyword => {
                self.handle_do_keyword();
            },
            ConcreteLineToken::ConditionalKeyword { contents } => self.handle_conditional(
                contents.as_str(),
            ),
            ConcreteLineToken::End => self.handle_end(),
            ConcreteLineToken::DefKeyword => self.handle_def(),
            ConcreteLineToken::Indent { depth } => {
                self.current_line_metadata.observe_indent_level(*depth);

                if let Some(prev) = &mut self.previous_line_metadata {
                    if LineMetadata::indent_level_increases_between(
                        prev,
                        &self.current_line_metadata,
                    ) {
                        prev.set_gets_indented()
                    }
                }
            },
            ConcreteLineToken::DirectPart { part } => {
                if text_equals(part.as_str(), "require") && self.tokens.len() > 0
                    && self.tokens[self.tokens.len() - 1].is_indent() {
                    self.current_line_metadata.set_has_require();
                }
            },
            ConcreteLineToken::Comment { .. } => {
                if self.ends_in_end_and_newline() {
                    self.insert_trailing_blankline(BlanklineReason::CommentAfterEnd);
                }
            },
            _ => {},
        }

        if do_push {
            self.tokens.push(lt);
        }
    }

    /// Whether the buffer holds four tokens or more and ends in an `end`
    /// and the newline after it.
    fn ends_in_end_and_newline(&self) -> (r: bool)
        ensures
            r == self@.ends_in_end_and_newline(),
    {
        match self.last_4() {
            Some((_, _, ConcreteLineToken::End, ConcreteLineToken::HardNewLine)) => true,
            _ => false,
        }
    }

    fn handle_end(&mut self)
        ensures
            final(self)@ == old(self)@.handle_end(),
    {
        self.current_line_metadata.set_has_end();
    }

    fn handle_def(&mut self)
        ensures
            final(self)@ == old(self)@.handle_def(),
    {
        self.current_line_metadata.set_has_def();
    }

    fn handle_do_keyword(&mut self)
        requires
            old(self).wf(),
        ensures
            final(self)@ == old(self)@.handle_do_keyword(),
    {
        self.current_line_metadata.set_has_do_keyword();
        if let Some(prev) = &self.previous_line_metadata {
            if prev.wants_spacer_for_conditional() {
                self.insert_trailing_blankline(BlanklineReason::DoKeyword);
            }
        }
    }

    fn handle_class_or_module(&mut self)
        requires
            old(self).wf(),
        ensures
            final(self)@ == old(self)@.handle_class_or_module(),
    {
        if let Some(prev) = &self.previous_line_metadata {
            if !prev.gets_indented() {
                self.insert_trailing_blankline(BlanklineReason::ClassOrModule);
            }
        }
    }

    fn handle_conditional(&mut self, cond: &str)
        requires
            old(self).wf(),
        ensures
            final(self)@ == old(self)@.handle_conditional(cond@),
    {
        self.current_line_metadata.set_has_conditional();
        if let Some(prev) = &self.previous_line_metadata {
            if prev.wants_spacer_for_conditional() && text_equals(cond, "if") {
                self.insert_trailing_blankline(BlanklineReason::Conditional);
            }
        }
    }

    /// Whether a line has been finished, so that a blank line can be asked
    /// for behind it.
    pub fn has_closed_line(&self) -> (r: bool)
        ensures
            r == self@.has_closed_line(),
    {
        self.previous_line_metadata.is_some()
    }

    /// Whether the filler before the last token can be removed: the buffer
    /// holds two tokens or more, a token that is no filler stands before the
    /// run, and the run does not stand before the newline at the index.
    pub fn can_clear_breakable_garbage(&self) -> (r: bool)
        ensures
            r == self@.can_clear_breakable_garbage(),
    {
        let n = self.tokens.len();
        if n < 2 {
            return false;
        }
        let mut start = n - 1;
        while start > 0 && self.tokens[start - 1].is_single_line_breakable_garbage()
            invariant
                n == self.tokens.len(),
                start <= n - 1,
                filler_start(self.tokens@, n - 1) == filler_start(self.tokens@, start as int),
            decreases start,
        {
            start -= 1;
        }
        start > 0 && (start == n - 1 || !self.tokens[n - 1].is_newline())
    }

    /// Removes the run of filler that stands before the last token: what a
    /// bracketed construct leaves before its closing delimiter when it
    /// collapses onto one line.
    pub fn clear_breakable_garbage(&mut self)
        requires
            old(self).wf(),
            old(self)@.can_clear_breakable_garbage(),
        ensures
            final(self)@ == old(self)@.clear_breakable_garbage(),
            final(self).wf(),
    {
        let ghost before = self@;
        let ghost last = before.tokens.len() - 1;
        let ghost start = filler_start(before.tokens, last);
        proof {
            lemma_clear_breakable_garbage_wf(before);
            lemma_filler_start_bounds(before.tokens, last);
        }
        while self.tokens[self.tokens.len() - 2].is_single_line_breakable_garbage()
            invariant
                self.tokens.len() >= 2,
                0 < start <= self.tokens.len() - 1 <= last,
                last == before.tokens.len() - 1,
                filler_start(before.tokens, self.tokens.len() - 1) == start,
                self.tokens@ == before.tokens.subrange(0, self.tokens.len() - 1).push(
                    before.tokens[last],
                ),
                self.index_of_last_hard_newline == before.index_of_last_hard_newline,
                self.current_line_metadata == before.current_line_metadata,
                self.previous_line_metadata == before.previous_line_metadata,
            decreases self.tokens.len(),
        {
            proof {
                lemma_filler_start_bounds(before.tokens, self.tokens.len() - 2);
            }
            self.tokens.remove(self.tokens.len() - 2);
        }
    }

    /// Whether the index is 0 or addresses a newline. It does in every
    /// buffer that meets the invariant.
    pub fn index_addresses_newline(&self) -> (ok: bool)
        ensures
            ok == self@.index_addresses_newline(),
            self.wf() ==> ok,
    {
        if self.index_of_last_hard_newline == 0 {
            return true;
        }
        if self.index_of_last_hard_newline < self.tokens.len() {
            self.tokens[self.index_of_last_hard_newline].is_newline()
        } else {
            false
        }
    }

    /// Whether a blank line stands at the index already.
    fn blank_line_at_index(&self) -> (r: bool)
        ensures
            r == self@.blank_line_at_index(),
    {
        let n = self.index_of_last_hard_newline;
        if n < 1 || n >= self.tokens.len() || !self.tokens[n].is_newline() {
            return false;
        }
        if self.tokens[n - 1].is_newline() {
            return true;
        }
        n >= 2 && self.tokens[n - 1].is_indent() && self.tokens[n - 2].is_newline()
    }

    /// Sets the last finished line apart from what follows it: puts a
    /// newline at the index, unless a blank line stands there already. The
    /// index moves with the newline that it addressed. Called again at once,
    /// it changes nothing.
    pub fn insert_trailing_blankline(&mut self, _bl: BlanklineReason)
        requires
            old(self).wf(),
            old(self)@.has_closed_line(),
        ensures
            final(self)@ == old(self)@.insert_trailing_blankline(),
            final(self).wf(),
            final(self)@.has_closed_line(),
            final(self)@.blank_line_at_index(),
    {
        let ghost before = self@;
        proof {
            lemma_insert_trailing_blankline_wf(before);
        }
        if !self.blank_line_at_index() {
            self.tokens.insert(self.index_of_last_hard_newline, ConcreteLineToken::HardNewLine);
            assert(self.index_of_last_hard_newline < self.tokens.len());
            self.index_of_last_hard_newline += 1;
        }
    }
}

} // verus!
