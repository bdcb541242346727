use agplatform::utils::unquote;

#[test]
fn test_unquote() {
    assert_eq!(unquote("test"), "test");
    assert_eq!(unquote("'test'"), "test");
    assert_eq!(unquote("\"test\""), "test");
    assert_eq!(unquote("'\"test\"'"), "\"test\"");
    assert_eq!(unquote("\"'test'\""), "'test'");
    assert_eq!(unquote("'test"), "'test");
    assert_eq!(unquote("test\""), "test\"");
    assert_eq!(unquote(" 'test' "), "test");
}

#[test]
fn unquote_edge_cases() {
    assert_eq!(unquote(""), "");
    assert_eq!(unquote("   "), "");
    assert_eq!(unquote("'"), "'");
    assert_eq!(unquote("\""), "\"");
    assert_eq!(unquote("''"), "");
    assert_eq!(unquote("\"\""), "");
    assert_eq!(unquote("'test\""), "'test\"");
    assert_eq!(unquote("\"test'"), "\"test'");
    assert_eq!(unquote("' inner '"), " inner ");
    assert_eq!(unquote("''test''"), "'test'");
}

#[test]
fn unquote_trims_each_side() {
    assert_eq!(unquote("  test"), "test");
    assert_eq!(unquote("test  "), "test");
    assert_eq!(unquote("\t'test'\n"), "test");
    assert_eq!(unquote("\u{3000}\"wide\"\u{2003}"), "wide");
    assert_eq!(unquote("  'a b'  "), "a b");
}

#[test]
fn unquote_non_ascii() {
    assert_eq!(unquote("'héllo'"), "héllo");
    assert_eq!(unquote("\"日本\""), "日本");
    assert_eq!(unquote("'é"), "'é");
}
