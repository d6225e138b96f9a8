use librubyfmt::line_tokens::{text_equals, ConcreteLineToken};

fn direct(text: &str) -> ConcreteLineToken {
    ConcreteLineToken::DirectPart { part: text.to_string() }
}

#[test]
fn hard_newline_is_a_newline_and_nothing_else_is() {
    assert!(ConcreteLineToken::HardNewLine.is_newline());
    assert!(!ConcreteLineToken::Indent { depth: 0 }.is_newline());
    assert!(!ConcreteLineToken::End.is_newline());
    assert!(!direct("\n").is_newline());
}

#[test]
fn indent_is_an_indentation_marker_whatever_its_depth() {
    assert!(ConcreteLineToken::Indent { depth: 0 }.is_indent());
    assert!(ConcreteLineToken::Indent { depth: 8 }.is_indent());
    assert!(ConcreteLineToken::Indent { depth: u32::MAX }.is_indent());
}

#[test]
fn other_tokens_are_no_indentation_markers() {
    assert!(!ConcreteLineToken::HardNewLine.is_indent());
    assert!(!ConcreteLineToken::Space.is_indent());
    assert!(!direct("  ").is_indent());
    assert!(!ConcreteLineToken::Comment { contents: "# x".to_string() }.is_indent());
}

#[test]
fn comma_space_and_empty_fragment_are_filler() {
    assert!(ConcreteLineToken::Comma.is_single_line_breakable_garbage());
    assert!(ConcreteLineToken::Space.is_single_line_breakable_garbage());
    assert!(direct("").is_single_line_breakable_garbage());
}

#[test]
fn content_and_delimiters_are_no_filler() {
    assert!(!direct("a").is_single_line_breakable_garbage());
    assert!(!direct(" ").is_single_line_breakable_garbage());
    assert!(!ConcreteLineToken::CommaSpace.is_single_line_breakable_garbage());
    assert!(!ConcreteLineToken::CloseParen.is_single_line_breakable_garbage());
    assert!(!ConcreteLineToken::CloseSquareBracket.is_single_line_breakable_garbage());
    assert!(!ConcreteLineToken::HardNewLine.is_single_line_breakable_garbage());
    assert!(!ConcreteLineToken::Indent { depth: 2 }.is_single_line_breakable_garbage());
    assert!(!ConcreteLineToken::Comment { contents: String::new() }
        .is_single_line_breakable_garbage());
    assert!(!ConcreteLineToken::Delim { contents: String::new() }
        .is_single_line_breakable_garbage());
}

#[test]
fn text_equals_compares_whole_texts() {
    assert!(text_equals("", ""));
    assert!(text_equals("require", "require"));
    assert!(text_equals("if", "if"));
    assert!(!text_equals("if", "elsif"));
    assert!(!text_equals("require", "require_relative"));
    assert!(!text_equals("require", "requirf"));
    assert!(!text_equals("Require", "require"));
    assert!(!text_equals("", "x"));
}

#[test]
fn text_equals_compares_text_beyond_ascii() {
    assert!(text_equals("caf\u{e9}", "caf\u{e9}"));
    assert!(!text_equals("caf\u{e9}", "cafe"));
    assert!(!text_equals("\u{3b1}", "\u{3b2}"));
}

#[test]
fn tokens_compare_by_kind_and_contents() {
    assert_eq!(direct("a"), direct("a"));
    assert_ne!(direct("a"), direct("b"));
    assert_ne!(ConcreteLineToken::Indent { depth: 1 }, ConcreteLineToken::Indent { depth: 2 });
    assert_ne!(ConcreteLineToken::ClassKeyword, ConcreteLineToken::ModuleKeyword);
    assert_eq!(ConcreteLineToken::End.clone(), ConcreteLineToken::End);
}
