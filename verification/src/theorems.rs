//! What holds of the line buffer whatever it is given, proved over its model.

use vstd::prelude::*;
use crate::buffer_state::{
    lemma_insert_trailing_blankline_wf,
    lemma_push_wf,
    no_triple_newline,
    process,
    BufferState,
};
use crate::line_metadata::LineMetadata;
use crate::line_tokens::ConcreteLineToken;

verus! {

/// The tokens of `tokens` that are no newlines, in their order.
pub open spec fn content(tokens: Seq<ConcreteLineToken>) -> Seq<ConcreteLineToken>
    decreases tokens.len(),
{
    if tokens.len() == 0 {
        Seq::empty()
    } else if tokens.last() is HardNewLine {
        content(tokens.drop_last())
    } else {
        content(tokens.drop_last()).push(tokens.last())
    }
}

/// The content of two sequences put together is their contents put
/// together.
pub proof fn lemma_content_add(a: Seq<ConcreteLineToken>, b: Seq<ConcreteLineToken>)
    ensures
        content(a + b) == content(a) + content(b),
    decreases b.len(),
{
    if b.len() == 0 {
        assert(a + b =~= a);
        assert(content(a) + content(b) =~= content(a));
    } else {
        lemma_content_add(a, b.drop_last());
        assert((a + b).drop_last() =~= a + b.drop_last());
        assert(content(a + b) =~= content(a) + content(b));
    }
}

/// A newline put anywhere into a sequence leaves its content as it was.
pub proof fn lemma_content_insert_newline(tokens: Seq<ConcreteLineToken>, i: int)
    requires
        0 <= i <= tokens.len(),
    ensures
        content(tokens.insert(i, ConcreteLineToken::HardNewLine)) == content(tokens),
{
    let head = tokens.subrange(0, i);
    let tail = tokens.subrange(i, tokens.len() as int);
    let with_newline = head.push(ConcreteLineToken::HardNewLine);
    assert(with_newline.drop_last() =~= head);
    assert(tokens.insert(i, ConcreteLineToken::HardNewLine) =~= with_newline + tail);
    assert(tokens =~= head + tail);
    lemma_content_add(with_newline, tail);
    lemma_content_add(head, tail);
}

/// Taking a token changes the content of the buffer as adding the token at
/// its end does: what the buffer puts in or leaves out is newlines only.
pub proof fn lemma_push_content(s: BufferState, lt: ConcreteLineToken)
    requires
        s.wf(),
    ensures
        content(s.push(lt).tokens) == content(s.tokens.push(lt)),
{
    let n = s.index_of_last_hard_newline;
    assert(s.tokens.push(lt).drop_last() =~= s.tokens);
    if s.has_closed_line() {
        lemma_content_insert_newline(s.tokens, n);
    }
    if lt is HardNewLine {
        let m = if s.ends_require_block() {
            s.insert_trailing_blankline()
        } else {
            s
        };
        assert(m.tokens.push(ConcreteLineToken::HardNewLine).drop_last() =~= m.tokens);
    } else {
        let m = s.before_append(lt);
        assert(content(m.tokens) == content(s.tokens)) by {
            if !s.has_closed_line() {
                assert(!s.ends_in_end_and_newline()) by {
                    if s.tokens.len() >= 4 {
                        assert(!(s.tokens[s.tokens.len() - 1] is HardNewLine));
                    }
                }
            }
        }
        assert(m.tokens.push(lt).drop_last() =~= m.tokens);
    }
}

/// The buffer keeps the content of its stream: whatever tokens it takes,
/// starting empty, the tokens in it that are no newlines are those of the
/// stream, in the order of the stream.
pub proof fn theorem_content_is_preserved(stream: Seq<ConcreteLineToken>)
    ensures
        content(process(stream).tokens) == content(stream),
    decreases stream.len(),
{
    if stream.len() > 0 {
        let before = process(stream.drop_last());
        theorem_content_is_preserved(stream.drop_last());
        theorem_no_triple_newline(stream.drop_last());
        lemma_push_content(before, stream.last());
        assert(before.tokens.push(stream.last()).drop_last() =~= before.tokens);
    }
}

/// Whatever stream of tokens the buffer takes, starting empty, it meets its
/// invariant afterwards, and so never holds three newlines in a row: runs
/// of newlines are capped at two, which is one blank line.
pub proof fn theorem_no_triple_newline(stream: Seq<ConcreteLineToken>)
    ensures
        process(stream).wf(),
        no_triple_newline(process(stream).tokens),
    decreases stream.len(),
{
    if stream.len() > 0 {
        theorem_no_triple_newline(stream.drop_last());
        lemma_push_wf(process(stream.drop_last()), stream.last());
    }
}

/// The guard against a missing blank line is idempotent: called twice in a
/// row it does what one call does, so the two calls together add at most
/// one newline.
pub proof fn theorem_insert_trailing_blankline_idempotent(s: BufferState)
    requires
        s.wf(),
        s.has_closed_line(),
    ensures
        s.insert_trailing_blankline().insert_trailing_blankline() == s.insert_trailing_blankline(),
        s.insert_trailing_blankline().insert_trailing_blankline().tokens.len() <= s.tokens.len()
            + 1,
{
    lemma_insert_trailing_blankline_wf(s);
}

/// A class or module keyword after a finished line that opens no block is
/// set apart: the guard runs before the keyword is added, and a blank line
/// stands at the index afterwards.
pub proof fn theorem_class_is_set_apart(s: BufferState, lt: ConcreteLineToken)
    requires
        s.wf(),
        lt is ClassKeyword || lt is ModuleKeyword,
        s.previous_line_metadata matches Some(prev) && !prev.gets_indented,
    ensures
        s.push(lt) == s.insert_trailing_blankline().append(lt),
        s.push(lt).blank_line_at_index(),
{
    lemma_insert_trailing_blankline_wf(s);
}

/// A class or module keyword that stands first in a block is not set
/// apart: where the last finished line has a smaller depth than the
/// current one, the indentation marker and the keyword are added and
/// nothing else.
pub proof fn theorem_class_first_in_block_is_not_set_apart(
    s: BufferState,
    depth: u32,
    lt: ConcreteLineToken,
)
    requires
        s.wf(),
        lt is ClassKeyword || lt is ModuleKeyword,
        s.previous_line_metadata matches Some(prev) && (prev.indent_level matches Some(p) && p
            < depth),
    ensures
        s.push(ConcreteLineToken::Indent { depth }).push(lt).tokens == s.tokens.push(
            ConcreteLineToken::Indent { depth },
        ).push(lt),
        s.push(ConcreteLineToken::Indent { depth }).push(lt).index_of_last_hard_newline
            == s.index_of_last_hard_newline,
{
}

/// After a line that asks for a spacer, a fresh `if` is set apart: the
/// guard runs before the keyword is added, and a blank line stands at the
/// index afterwards.
pub proof fn theorem_if_is_set_apart(s: BufferState, contents: String)
    requires
        s.wf(),
        s.previous_wants_spacer(),
        contents@ == "if"@,
    ensures
        s.push(ConcreteLineToken::ConditionalKeyword { contents }).tokens
            == s.insert_trailing_blankline().tokens.push(
            ConcreteLineToken::ConditionalKeyword { contents },
        ),
        s.push(ConcreteLineToken::ConditionalKeyword { contents }).blank_line_at_index(),
{
    lemma_insert_trailing_blankline_wf(
        s.with_current(LineMetadata { has_conditional: true, ..s.current_line_metadata }),
    );
}

/// Any other conditional keyword is added and nothing else, whatever the
/// last finished line asks for.
pub proof fn theorem_other_conditional_is_not_set_apart(s: BufferState, contents: String)
    requires
        s.wf(),
        contents@ != "if"@,
    ensures
        s.push(ConcreteLineToken::ConditionalKeyword { contents }).tokens == s.tokens.push(
            ConcreteLineToken::ConditionalKeyword { contents },
        ),
        s.push(ConcreteLineToken::ConditionalKeyword { contents }).index_of_last_hard_newline
            == s.index_of_last_hard_newline,
{
}

/// A comment that follows a line made of `end` is set apart from it: a
/// newline is added between the `end` and the comment, besides the one that
/// closes the line of the `end`.
pub proof fn theorem_comment_after_end_is_set_apart(s: BufferState, contents: String)
    requires
        s.wf(),
        s.ends_in_end_and_newline(),
    ensures
        s.push(ConcreteLineToken::Comment { contents }).tokens == s.tokens.push(
            ConcreteLineToken::HardNewLine,
        ).push(ConcreteLineToken::Comment { contents }),
        s.push(ConcreteLineToken::Comment { contents }).index_of_last_hard_newline
            == s.tokens.len(),
{
    let n = s.tokens.len() as int;
    assert(s.has_closed_line());
    assert(s.index_of_last_hard_newline == n - 1);
    assert(!s.blank_line_at_index());
    assert(s.tokens.insert(n - 1, ConcreteLineToken::HardNewLine) =~= s.tokens.push(
        ConcreteLineToken::HardNewLine,
    ));
}

} // verus!
