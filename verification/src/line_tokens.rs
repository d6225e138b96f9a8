//! The tokens that the line buffer is made of.

use vstd::prelude::*;

verus! {

/// One formatting primitive of a rendered line.
#[derive(Clone, Debug, PartialEq, Eq)]
pub enum ConcreteLineToken {
    /// Ends a logical line.
    HardNewLine,
    /// The indentation of the line that starts here.
    Indent { depth: u32 },
    /// A keyword without a rule of its own.
    Keyword { keyword: String },
    DefKeyword,
    ClassKeyword,
    ModuleKeyword,
    DoKeyword,
    /// `if`, `elsif`, `unless` and their kin; `contents` tells them apart.
    ConditionalKeyword { contents: String },
    /// A fragment of literal text.
    DirectPart { part: String },
    CommaSpace,
    Comma,
    Space,
    Dot,
    ColonColon,
    LonelyOperator,
    OpenSquareBracket,
    CloseSquareBracket,
    OpenCurlyBracket,
    CloseCurlyBracket,
    OpenParen,
    CloseParen,
    Op { op: String },
    DoubleQuote,
    LTStringContent { content: String },
    SingleSlash,
    Comment { contents: String },
    Delim { contents: String },
    End,
    HeredocClose { symbol: String },
}

impl ConcreteLineToken {
    /// Whether the token ends a logical line.
    pub open spec fn spec_is_newline(&self) -> bool {
        self is HardNewLine
    }

    /// Whether the token is an indentation marker.
    pub open spec fn spec_is_indent(&self) -> bool {
        self is Indent
    }

    /// Whether the token is filler that a bracketed construct leaves behind
    /// when it collapses onto one line: a comma, a space, or an empty
    /// fragment of text.
    pub open spec fn spec_is_single_line_breakable_garbage(&self) -> bool {
        match self {
            ConcreteLineToken::DirectPart { part } => part@.len() == 0,
            ConcreteLineToken::Comma => true,
            ConcreteLineToken::Space => true,
            _ => false,
        }
    }

    #[verifier::when_used_as_spec(spec_is_newline)]
    pub fn is_newline(&self) -> (r: bool)
        ensures
            r == (self is HardNewLine),
    {
        match self {
            ConcreteLineToken::HardNewLine => true,
            _ => false,
        }
    }

    #[verifier::when_used_as_spec(spec_is_indent)]
    pub fn is_indent(&self) -> (r: bool)
        ensures
            r == (self is Indent),
    {
        match self {
            ConcreteLineToken::Indent { .. } => true,
            _ => false,
        }
    }

    #[verifier::when_used_as_spec(spec_is_single_line_breakable_garbage)]
    pub fn is_single_line_breakable_garbage(&self) -> (r: bool)
        ensures
            r == self.spec_is_single_line_breakable_garbage(),
    {
        match self {
            ConcreteLineToken::DirectPart { part } => part.as_str().is_empty(),
            ConcreteLineToken::Comma => true,
            ConcreteLineToken::Space => true,
            _ => false,
        }
    }
}

/// Compares two pieces of text character by character.
pub fn text_equals(a: &str, b: &str) -> (r: bool)
    ensures
        r == (a@ == b@),
{
    let x = a.as_bytes();
    let y = b.as_bytes();
    proof {
        vstd::utf8::encode_utf8_decode_utf8(a@);
        vstd::utf8::encode_utf8_decode_utf8(b@);
    }
    if x.len() != y.len() {
        return false;
    }
    let mut i: usize = 0;
    while i < x.len()
        invariant
            i <= x.len(),
            x.len() == y.len(),
            x@ == vstd::utf8::encode_utf8(a@),
            y@ == vstd::utf8::encode_utf8(b@),
            forall|j: int| 0 <= j < i ==> x@[j] == y@[j],
        decreases x.len() - i,
    {
        if x[i] != y[i] {
            return false;
        }
        i += 1;
    }
    assert(x@ =~= y@);
    true
}

} // verus!
