use narrator_console::text::split_lines;
use narrator_console::text::split_paragraphs;
use narrator_console::text::trim;
use narrator_console::text::u16_to_dec;

#[test]
fn trim_removes_surrounding_whitespace() {
    assert_eq!(trim("  hello  "), "hello");
    assert_eq!(trim("\t\n hi there \r\n"), "hi there");
    assert_eq!(trim("inner  space"), "inner  space");
}

#[test]
fn trim_of_all_whitespace_is_empty() {
    assert_eq!(trim("   "), "");
    assert_eq!(trim("\n\t\r"), "");
    assert_eq!(trim(""), "");
}

#[test]
fn trim_handles_unicode_whitespace() {
    assert_eq!(trim("\u{a0}x\u{3000}"), "x");
}

#[test]
fn split_lines_basic() {
    assert_eq!(split_lines("a\nb"), vec!["a".to_string(), "b".to_string()]);
    assert_eq!(split_lines("a\n"), vec!["a".to_string()]);
    assert_eq!(split_lines(""), Vec::<String>::new());
    assert_eq!(split_lines("\n"), vec!["".to_string()]);
    assert_eq!(split_lines("a\r\nb"), vec!["a".to_string(), "b".to_string()]);
}

#[test]
fn split_lines_matches_std() {
    for s in ["", "a", "a\nb\nc", "\n\n", "x\r\ny\n", "tail\n\nblank"] {
        let expected: Vec<String> = s.lines().map(|l| l.to_string()).collect();
        assert_eq!(split_lines(s), expected, "case {:?}", s);
    }
}

#[test]
fn split_paragraphs_basic() {
    assert_eq!(split_paragraphs("a\n\nb"), vec!["a".to_string(), "b".to_string()]);
    assert_eq!(split_paragraphs(""), vec!["".to_string()]);
    assert_eq!(split_paragraphs("a\n\n\nb"), vec!["a".to_string(), "\nb".to_string()]);
    assert_eq!(split_paragraphs("a\n\n"), vec!["a".to_string(), "".to_string()]);
    assert_eq!(split_paragraphs("plain"), vec!["plain".to_string()]);
}

#[test]
fn split_paragraphs_matches_std() {
    for s in ["", "a\n\nb\n\nc", "\n\n", "no breaks here", "x\ny\n\nz"] {
        let expected: Vec<String> = s.split("\n\n").map(|p| p.to_string()).collect();
        assert_eq!(split_paragraphs(s), expected, "case {:?}", s);
    }
}

#[test]
fn decimal_rendering() {
    assert_eq!(u16_to_dec(0), "0");
    assert_eq!(u16_to_dec(7), "7");
    assert_eq!(u16_to_dec(500), "500");
    assert_eq!(u16_to_dec(65535), "65535");
}
