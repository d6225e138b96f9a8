use librubyfmt::line_metadata::LineMetadata;

#[test]
fn new_metadata_knows_nothing() {
    let md = LineMetadata::new();
    assert!(!md.has_require());
    assert!(!md.has_end());
    assert!(!md.has_def());
    assert!(!md.has_conditional());
    assert!(!md.has_do_keyword());
    assert!(!md.gets_indented());
    assert_eq!(md.indent_level(), None);
    assert!(!md.wants_spacer_for_conditional());
}

#[test]
fn each_setter_sets_its_own_fact_only() {
    let mut md = LineMetadata::new();
    md.set_has_require();
    assert_eq!(md, LineMetadata { has_require: true, ..LineMetadata::new() });

    let mut md = LineMetadata::new();
    md.set_has_end();
    assert_eq!(md, LineMetadata { has_end: true, ..LineMetadata::new() });

    let mut md = LineMetadata::new();
    md.set_has_def();
    assert_eq!(md, LineMetadata { has_def: true, ..LineMetadata::new() });

    let mut md = LineMetadata::new();
    md.set_has_conditional();
    assert_eq!(md, LineMetadata { has_conditional: true, ..LineMetadata::new() });

    let mut md = LineMetadata::new();
    md.set_has_do_keyword();
    assert_eq!(md, LineMetadata { has_do_keyword: true, ..LineMetadata::new() });

    let mut md = LineMetadata::new();
    md.set_gets_indented();
    assert_eq!(md, LineMetadata { gets_indented: true, ..LineMetadata::new() });
}

#[test]
fn setters_keep_what_was_set_before() {
    let mut md = LineMetadata::new();
    md.set_has_end();
    md.set_has_def();
    md.observe_indent_level(4);
    md.set_has_end();
    assert!(md.has_end());
    assert!(md.has_def());
    assert_eq!(md.indent_level(), Some(4));
    assert!(!md.has_require());
}

#[test]
fn observe_indent_level_keeps_the_last_depth() {
    let mut md = LineMetadata::new();
    md.observe_indent_level(2);
    assert_eq!(md.indent_level(), Some(2));
    md.observe_indent_level(0);
    assert_eq!(md.indent_level(), Some(0));
    md.observe_indent_level(u32::MAX);
    assert_eq!(md.indent_level(), Some(u32::MAX));
}

#[test]
fn spacer_is_wanted_after_an_end_with_a_conditional_or_a_do() {
    for bits in 0u8..8 {
        let has_end = bits & 1 != 0;
        let has_conditional = bits & 2 != 0;
        let has_do_keyword = bits & 4 != 0;
        let md = LineMetadata { has_end, has_conditional, has_do_keyword, ..LineMetadata::new() };
        assert_eq!(
            md.wants_spacer_for_conditional(),
            has_end && (has_conditional || has_do_keyword)
        );
    }
}

#[test]
fn spacer_does_not_depend_on_the_other_facts() {
    let mut md = LineMetadata::new();
    md.set_has_require();
    md.set_has_def();
    md.set_gets_indented();
    md.observe_indent_level(2);
    assert!(!md.wants_spacer_for_conditional());
    md.set_has_end();
    assert!(!md.wants_spacer_for_conditional());
    md.set_has_do_keyword();
    assert!(md.wants_spacer_for_conditional());
}

#[test]
fn indent_level_increases_only_when_strictly_deeper() {
    let at = |depth: u32| LineMetadata { indent_level: Some(depth), ..LineMetadata::new() };
    assert!(LineMetadata::indent_level_increases_between(&at(0), &at(2)));
    assert!(LineMetadata::indent_level_increases_between(&at(2), &at(3)));
    assert!(!LineMetadata::indent_level_increases_between(&at(2), &at(2)));
    assert!(!LineMetadata::indent_level_increases_between(&at(4), &at(2)));
    assert!(LineMetadata::indent_level_increases_between(&at(0), &at(u32::MAX)));
}

#[test]
fn indent_level_does_not_increase_without_both_depths() {
    let unknown = LineMetadata::new();
    let known = LineMetadata { indent_level: Some(2), ..LineMetadata::new() };
    assert!(!LineMetadata::indent_level_increases_between(&unknown, &known));
    assert!(!LineMetadata::indent_level_increases_between(&known, &unknown));
    assert!(!LineMetadata::indent_level_increases_between(&unknown, &unknown));
}
