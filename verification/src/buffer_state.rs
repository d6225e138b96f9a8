//! The mathematical model of the line buffer: its tokens, the position of the
//! newline that closes the last finished line, and the facts of the current
//! and the previous line. Each operation of the buffer is a function from
//! state to state here, and the invariant of the buffer is stated over it.

use vstd::prelude::*;
use crate::line_metadata::LineMetadata;
use crate::line_tokens::ConcreteLineToken;

verus! {

/// Whether three newlines in a row start at position `i`.
pub open spec fn newline_triple_at(tokens: Seq<ConcreteLineToken>, i: int) -> bool {
    &&& 0 <= i
    &&& i + 2 < tokens.len()
    &&& tokens[i] is HardNewLine
    &&& tokens[i + 1] is HardNewLine
    &&& tokens[i + 2] is HardNewLine
}

/// No three newlines stand in a row: between two pieces of content there is
/// at most one blank line.
pub open spec fn no_triple_newline(tokens: Seq<ConcreteLineToken>) -> bool {
    forall|i: int| !#[trigger] newline_triple_at(tokens, i)
}

/// Where the run of filler that ends just before position `end` begins;
/// `end` itself where the token before `end` is no filler.
pub open spec fn filler_start(tokens: Seq<ConcreteLineToken>, end: int) -> int
    decreases end,
{
    if 0 < end <= tokens.len() && tokens[end - 1].spec_is_single_line_breakable_garbage() {
        filler_start(tokens, end - 1)
    } else {
        end
    }
}

/// The state of the line buffer.
pub struct BufferState {
    /// The tokens taken so far, with the blank lines that were added.
    pub tokens: Seq<ConcreteLineToken>,
    /// The position of the newline that closes the last finished line; 0
    /// while no line is finished.
    pub index_of_last_hard_newline: int,
    /// The facts of the line that is being put together.
    pub current_line_metadata: LineMetadata,
    /// The facts of the last finished line.
    pub previous_line_metadata: Option<LineMetadata>,
}

impl BufferState {
    /// The state before any token.
    pub open spec fn empty() -> BufferState {
        BufferState {
            tokens: Seq::empty(),
            index_of_last_hard_newline: 0,
            current_line_metadata: LineMetadata::spec_new(),
            previous_line_metadata: None,
        }
    }

    /// Whether a line has been finished.
    pub open spec fn has_closed_line(self) -> bool {
        self.previous_line_metadata is Some
    }

    /// The invariant of the buffer. While no line is finished the buffer
    /// holds no newline. Afterwards the index addresses a newline, and no
    /// newline follows it: what stands behind the index is the current line.
    /// In either case no three newlines stand in a row.
    pub open spec fn wf(self) -> bool {
        let n = self.index_of_last_hard_newline;
        &&& !self.has_closed_line() ==> {
            &&& n == 0
            &&& forall|j: int|
                0 <= j < self.tokens.len() ==> !((#[trigger] self.tokens[j]) is HardNewLine)
        }
        &&& self.has_closed_line() ==> {
            &&& 0 <= n < self.tokens.len()
            &&& self.tokens[n] is HardNewLine
            &&& forall|j: int|
                n < j < self.tokens.len() ==> !((#[trigger] self.tokens[j]) is HardNewLine)
        }
        &&& no_triple_newline(self.tokens)
    }

    /// Whether the index is 0 or addresses a newline.
    pub open spec fn index_addresses_newline(self) -> bool {
        let n = self.index_of_last_hard_newline;
        n == 0 || (0 < n < self.tokens.len() && self.tokens[n] is HardNewLine)
    }

    /// Whether a blank line stands at the index already: the newline at the
    /// index follows a newline directly, or with only an indentation marker
    /// between the two.
    pub open spec fn blank_line_at_index(self) -> bool {
        let n = self.index_of_last_hard_newline;
        let t = self.tokens;
        ||| (2 <= n < t.len() && t[n - 2] is HardNewLine && t[n - 1] is Indent
            && t[n] is HardNewLine)
        ||| (1 <= n < t.len() && t[n - 1] is HardNewLine && t[n] is HardNewLine)
    }

    /// Puts a newline at the index and moves the index on to the newline
    /// that stood there, unless a blank line stands at the index already.
    pub open spec fn insert_trailing_blankline(self) -> BufferState {
        if self.blank_line_at_index() {
            self
        } else {
            BufferState {
                tokens: self.tokens.insert(
                    self.index_of_last_hard_newline,
                    ConcreteLineToken::HardNewLine,
                ),
                index_of_last_hard_newline: self.index_of_last_hard_newline + 1,
                ..self
            }
        }
    }

    /// The state with `lt` at the end of the buffer.
    pub open spec fn append(self, lt: ConcreteLineToken) -> BufferState {
        BufferState { tokens: self.tokens.push(lt), ..self }
    }

    /// The state with other facts for the current line.
    pub open spec fn with_current(self, md: LineMetadata) -> BufferState {
        BufferState { current_line_metadata: md, ..self }
    }

    /// Whether the last finished line asks for a blank line before a
    /// conditional or a `do` block.
    pub open spec fn previous_wants_spacer(self) -> bool {
        self.previous_line_metadata matches Some(prev) && prev.spec_wants_spacer_for_conditional()
    }

    /// Whether the current line is the first without a `require` after a
    /// line with one.
    pub open spec fn ends_require_block(self) -> bool {
        self.previous_line_metadata matches Some(prev) && prev.has_require
            && !self.current_line_metadata.has_require
    }

    /// Whether the buffer holds four tokens or more and ends in an `end`
    /// and the newline after it.
    pub open spec fn ends_in_end_and_newline(self) -> bool {
        let t = self.tokens;
        t.len() >= 4 && t[t.len() - 2] is End && t[t.len() - 1] is HardNewLine
    }

    /// A class or a module is set apart by a blank line, unless the last
    /// finished line opened the block that it stands first in.
    pub open spec fn handle_class_or_module(self) -> BufferState {
        if self.previous_line_metadata matches Some(prev) && !prev.gets_indented {
            self.insert_trailing_blankline()
        } else {
            self
        }
    }

    /// A `do` is noted on the current line, and set apart where the last
    /// finished line asks for it.
    pub open spec fn handle_do_keyword(self) -> BufferState {
        let s = self.with_current(
            LineMetadata { has_do_keyword: true, ..self.current_line_metadata },
        );
        if s.previous_wants_spacer() {
            s.insert_trailing_blankline()
        } else {
            s
        }
    }

    /// A conditional is noted on the current line. A fresh `if`, and no
    /// other conditional, is set apart where the last finished line asks for
    /// it.
    pub open spec fn handle_conditional(self, contents: Seq<char>) -> BufferState {
        let s = self.with_current(
            LineMetadata { has_conditional: true, ..self.current_line_metadata },
        );
        if s.previous_wants_spacer() && contents == "if"@ {
            s.insert_trailing_blankline()
        } else {
            s
        }
    }

    /// An `end` is noted on the current line.
    pub open spec fn handle_end(self) -> BufferState {
        self.with_current(LineMetadata { has_end: true, ..self.current_line_metadata })
    }

    /// A `def` is noted on the current line.
    pub open spec fn handle_def(self) -> BufferState {
        self.with_current(LineMetadata { has_def: true, ..self.current_line_metadata })
    }

    /// The depth is noted on the current line. Where the last finished line
    /// has a smaller depth, that line is marked as one that opens a block.
    pub open spec fn handle_indent(self, depth: u32) -> BufferState {
        let current = LineMetadata { indent_level: Some(depth), ..self.current_line_metadata };
        let previous = match self.previous_line_metadata {
            Some(prev) => if LineMetadata::spec_indent_level_increases_between(&prev, &current) {
                Some(LineMetadata { gets_indented: true, ..prev })
            } else {
                Some(prev)
            },
            None => None,
        };
        BufferState { current_line_metadata: current, previous_line_metadata: previous, ..self }
    }

    /// A `require` that follows the line's indentation marker directly is
    /// noted on the current line.
    pub open spec fn handle_direct_part(self, part: Seq<char>) -> BufferState {
        if part == "require"@ && self.tokens.len() > 0 && self.tokens.last() is Indent {
            self.with_current(LineMetadata { has_require: true, ..self.current_line_metadata })
        } else {
            self
        }
    }

    /// A comment that follows a line made of `end` is set apart from it.
    pub open spec fn handle_comment(self) -> BufferState {
        if self.ends_in_end_and_newline() {
            self.insert_trailing_blankline()
        } else {
            self
        }
    }

    /// What a newline does. The line before it is set apart where it is the
    /// first after a group of `require` lines. The current line becomes the
    /// last finished one. Where the buffer ends in two newlines already, the
    /// new one is dropped and the index addresses the last of the two;
    /// otherwise the newline is added and the index addresses it.
    pub open spec fn close_line(self) -> BufferState {
        let s = if self.ends_require_block() {
            self.insert_trailing_blankline()
        } else {
            self
        };
        let n = s.tokens.len() as int;
        let closed = BufferState {
            current_line_metadata: LineMetadata::spec_new(),
            previous_line_metadata: Some(s.current_line_metadata),
            ..s
        };
        if n >= 2 && s.tokens[n - 2] is HardNewLine && s.tokens[n - 1] is HardNewLine {
            BufferState { index_of_last_hard_newline: n - 1, ..closed }
        } else {
            BufferState {
                tokens: s.tokens.push(ConcreteLineToken::HardNewLine),
                index_of_last_hard_newline: n,
                ..closed
            }
        }
    }

    /// What a token other than a newline does before it is added.
    pub open spec fn before_append(self, lt: ConcreteLineToken) -> BufferState {
        match lt {
            ConcreteLineToken::ModuleKeyword | ConcreteLineToken::ClassKeyword => {
                self.handle_class_or_module()
            },
            ConcreteLineToken::DoKeyword => self.handle_do_keyword(),
            ConcreteLineToken::ConditionalKeyword { contents } => {
                self.handle_conditional(contents@)
            },
            ConcreteLineToken::End => self.handle_end(),
            ConcreteLineToken::DefKeyword => self.handle_def(),
            ConcreteLineToken::Indent { depth } => self.handle_indent(depth),
            ConcreteLineToken::DirectPart { part } => self.handle_direct_part(part@),
            ConcreteLineToken::Comment { .. } => self.handle_comment(),
            _ => self,
        }
    }

    /// The state after the buffer took `lt`.
    pub open spec fn push(self, lt: ConcreteLineToken) -> BufferState {
        if lt is HardNewLine {
            self.close_line()
        } else {
            self.before_append(lt).append(lt)
        }
    }

    /// Whether the filler before the last token can be removed: the buffer
    /// holds two tokens or more, a token that is no filler stands before the
    /// run, and the run does not stand before the newline at the index.
    pub open spec fn can_clear_breakable_garbage(self) -> bool {
        let last = self.tokens.len() - 1;
        &&& self.tokens.len() >= 2
        &&& filler_start(self.tokens, last) > 0
        &&& (self.tokens[last] is HardNewLine ==> filler_start(self.tokens, last) == last)
    }

    /// The state without the run of filler that stands before the last
    /// token.
    pub open spec fn clear_breakable_garbage(self) -> BufferState {
        let last = self.tokens.len() - 1;
        BufferState {
            tokens: self.tokens.subrange(0, filler_start(self.tokens, last)).push(
                self.tokens[last],
            ),
            ..self
        }
    }
}

/// The state after the buffer took the tokens of `stream` in order,
/// starting empty.
pub open spec fn process(stream: Seq<ConcreteLineToken>) -> BufferState
    decreases stream.len(),
{
    if stream.len() == 0 {
        BufferState::empty()
    } else {
        process(stream.drop_last()).push(stream.last())
    }
}

/// The guard keeps the invariant, and leaves a blank line at the index.
pub proof fn lemma_insert_trailing_blankline_wf(s: BufferState)
    requires
        s.wf(),
        s.has_closed_line(),
    ensures
        s.insert_trailing_blankline().wf(),
        s.insert_trailing_blankline().has_closed_line(),
        s.insert_trailing_blankline().blank_line_at_index(),
{
    let r = s.insert_trailing_blankline();
    let n = s.index_of_last_hard_newline;
    if !s.blank_line_at_index() {
        assert(r.tokens[n + 1] == s.tokens[n]);
        assert forall|j: int| n + 1 < j < r.tokens.len() implies !((#[trigger] r.tokens[j])
            is HardNewLine) by {
            assert(r.tokens[j] == s.tokens[j - 1]);
        }
        assert forall|i: int| !#[trigger] newline_triple_at(r.tokens, i) by {
            if newline_triple_at(r.tokens, i) {
                if i + 2 < n {
                    assert(newline_triple_at(s.tokens, i));
                } else if i + 2 == n {
                    assert(r.tokens[i + 1] == s.tokens[n - 1]);
                } else if i + 1 == n {
                    assert(r.tokens[i] == s.tokens[n - 1]);
                } else if i == n {
                    assert(r.tokens[i + 2] == s.tokens[n + 1]);
                } else {
                    assert(r.tokens[i + 2] == s.tokens[i + 1]);
                }
            }
        }
    }
}

/// A token that is no newline can be added behind a valid buffer.
pub proof fn lemma_append_wf(s: BufferState, lt: ConcreteLineToken)
    requires
        s.wf(),
        !(lt is HardNewLine),
    ensures
        s.append(lt).wf(),
        s.append(lt).has_closed_line() == s.has_closed_line(),
{
    let r = s.append(lt);
    assert forall|j: int|
        0 <= j < r.tokens.len() && #[trigger] r.tokens[j] is HardNewLine implies j
        < s.tokens.len() && s.tokens[j] is HardNewLine by {}
    assert forall|i: int| !#[trigger] newline_triple_at(r.tokens, i) by {
        if newline_triple_at(r.tokens, i) {
            assert(newline_triple_at(s.tokens, i));
        }
    }
}

/// A newline keeps the invariant, and a line is finished after it.
pub proof fn lemma_close_line_wf(s: BufferState)
    requires
        s.wf(),
    ensures
        s.close_line().wf(),
        s.close_line().has_closed_line(),
{
    let m = if s.ends_require_block() {
        s.insert_trailing_blankline()
    } else {
        s
    };
    if s.ends_require_block() {
        lemma_insert_trailing_blankline_wf(s);
    }
    let r = s.close_line();
    let n = m.tokens.len() as int;
    if n >= 2 && m.tokens[n - 2] is HardNewLine && m.tokens[n - 1] is HardNewLine {
        assert(m.has_closed_line());
    } else {
        assert forall|i: int| !#[trigger] newline_triple_at(r.tokens, i) by {
            if newline_triple_at(r.tokens, i) && i + 2 < n {
                assert(newline_triple_at(m.tokens, i));
            }
        }
    }
}

/// What a token does before it is added keeps the invariant.
pub proof fn lemma_before_append_wf(s: BufferState, lt: ConcreteLineToken)
    requires
        s.wf(),
    ensures
        s.before_append(lt).wf(),
        s.before_append(lt).has_closed_line() == s.has_closed_line(),
{
    if s.has_closed_line() {
        lemma_insert_trailing_blankline_wf(s);
        lemma_insert_trailing_blankline_wf(s.handle_end());
        let with_do = s.with_current(
            LineMetadata { has_do_keyword: true, ..s.current_line_metadata },
        );
        lemma_insert_trailing_blankline_wf(with_do);
        let with_conditional = s.with_current(
            LineMetadata { has_conditional: true, ..s.current_line_metadata },
        );
        lemma_insert_trailing_blankline_wf(with_conditional);
    } else {
        assert(!s.ends_in_end_and_newline()) by {
            if s.tokens.len() >= 4 {
                assert(!(s.tokens[s.tokens.len() - 1] is HardNewLine));
            }
        }
    }
}

/// The run of filler before `end` is as long as it can be: it starts at or
/// before `end`, holds filler only, and the token before it, if there is
/// one, is no filler.
pub proof fn lemma_filler_start_bounds(tokens: Seq<ConcreteLineToken>, end: int)
    requires
        0 <= end <= tokens.len(),
    ensures
        0 <= filler_start(tokens, end) <= end,
        forall|j: int|
            filler_start(tokens, end) <= j < end
                ==> (#[trigger] tokens[j]).spec_is_single_line_breakable_garbage(),
        filler_start(tokens, end) > 0 ==> !tokens[filler_start(tokens, end)
            - 1].spec_is_single_line_breakable_garbage(),
    decreases end,
{
    if 0 < end && tokens[end - 1].spec_is_single_line_breakable_garbage() {
        lemma_filler_start_bounds(tokens, end - 1);
    }
}

/// Removing the filler before the last token keeps the invariant of the
/// buffer.
pub proof fn lemma_clear_breakable_garbage_wf(s: BufferState)
    requires
        s.wf(),
        s.can_clear_breakable_garbage(),
    ensures
        s.clear_breakable_garbage().wf(),
        s.clear_breakable_garbage().has_closed_line() == s.has_closed_line(),
{
    let r = s.clear_breakable_garbage();
    let last = s.tokens.len() - 1;
    let start = filler_start(s.tokens, last);
    let n = s.index_of_last_hard_newline;
    lemma_filler_start_bounds(s.tokens, last);
    if start == last {
        assert(r.tokens =~= s.tokens);
    } else {
        assert(!(s.tokens[last] is HardNewLine));
        if s.has_closed_line() {
            assert(n < start) by {
                if n >= start {
                    assert(s.tokens[n].spec_is_single_line_breakable_garbage());
                }
            }
        }
        assert forall|j: int|
            0 <= j < r.tokens.len() && #[trigger] r.tokens[j] is HardNewLine implies j < start
            && s.tokens[j] is HardNewLine by {}
        assert forall|i: int| !#[trigger] newline_triple_at(r.tokens, i) by {
            if newline_triple_at(r.tokens, i) {
                assert(newline_triple_at(s.tokens, i));
            }
        }
    }
}

/// Every token keeps the invariant of the buffer.
pub proof fn lemma_push_wf(s: BufferState, lt: ConcreteLineToken)
    requires
        s.wf(),
    ensures
        s.push(lt).wf(),
{
    if lt is HardNewLine {
        lemma_close_line_wf(s);
    } else {
        lemma_before_append_wf(s, lt);
        lemma_append_wf(s.before_append(lt), lt);
    }
}

} // verus!
