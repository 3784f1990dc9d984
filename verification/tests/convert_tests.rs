use wptext2html::convert;

#[test]
fn converts_empty_to_single_newline() {
    assert_eq!(convert(String::from("")), "\n");
}

#[test]
fn plain_text_gains_only_trailing_newline() {
    assert_eq!(convert(String::from("abc")), "abc\n");
}

#[test]
fn double_break_collapses_to_two_newlines() {
    assert_eq!(convert(String::from("a<br><br>b")), "a\n\nb\n");
}

#[test]
fn double_break_matches_spaced_spellings() {
    assert_eq!(convert(String::from("a<br /> <br/>b")), "a\n\nb\n");
}

#[test]
fn paragraph_and_breaks_golden() {
    assert_eq!(
        convert(String::from("<p>Hello</p><br/><br/>World")),
        "\n\n<p>\n\nHello</p>\n\nWorld\n"
    );
}

#[test]
fn closing_tags_are_untouched() {
    assert_eq!(convert(String::from("</p>")), "</p>\n");
}

#[test]
fn block_tag_with_attributes_drops_delimiter() {
    assert_eq!(convert(String::from("<div class=x>")), "\n\n<div>\n\nclass=x>\n");
}

#[test]
fn longer_tag_name_is_not_cut_short() {
    assert_eq!(
        convert(String::from("<colgroup><col>")),
        "\n\n<colgroup>\n\n\n\n<col>\n\n\n"
    );
}

#[test]
fn pre_is_distinguished_from_p() {
    assert_eq!(convert(String::from("<pre>code</pre>")), "\n\n<pre>\n\ncode</pre>\n");
}

#[test]
fn horizontal_rule_gets_trailing_breaks() {
    assert_eq!(convert(String::from("x<hr>y")), "x\n\n<hr>\n\n\n\ny\n");
}

#[test]
fn literal_backslash_r_backslash_n_becomes_newline() {
    assert_eq!(convert(String::from("a\\r\\nb")), "a\nb\n");
}

#[test]
fn literal_backslash_r_becomes_newline() {
    assert_eq!(convert(String::from("a\\rb")), "a\nb\n");
}

#[test]
fn unicode_whitespace_counts_inside_break_tags() {
    assert_eq!(convert(String::from("a<br\u{A0}><br>b")), "a\n\nb\n");
}

#[test]
fn unicode_whitespace_counts_as_tag_delimiter() {
    assert_eq!(convert(String::from("x<div\u{2003}rest")), "x\n\n<div>\n\nrest\n");
}

#[test]
fn convert_is_not_idempotent() {
    let once = convert(String::from("<p>x"));
    assert_eq!(once, "\n\n<p>\n\nx\n");
    let twice = convert(once.clone());
    assert_eq!(twice, "\n\n\n\n<p>\n\n\n\nx\n\n");
    assert_ne!(once, twice);
}
