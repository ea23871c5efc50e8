use feedmee::text::{
    append_chars, chars_of, collapse, has_substring, join, same_chars, same_text, split,
    string_of, strip, strip_trailing, to_ascii_upper, Delimiter,
};

fn text(s: &str) -> Vec<char> {
    chars_of(s)
}

fn shown(v: &Vec<char>) -> String {
    string_of(v)
}

#[test]
fn chars_and_back() {
    let v = chars_of("héllo");
    assert_eq!(v, vec!['h', 'é', 'l', 'l', 'o']);
    assert_eq!(string_of(&v), "héllo");
    assert_eq!(string_of(&Vec::new()), "");
}

#[test]
fn same_text_compares_characters() {
    assert!(same_text("alternate", "alternate"));
    assert!(!same_text("alternate", "Alternate"));
    assert!(!same_text("abc", "abcd"));
    assert!(same_text("", ""));
    assert!(same_chars(&text("ab"), &text("ab")));
    assert!(!same_chars(&text("ab"), &text("ba")));
}

#[test]
fn append_keeps_order() {
    let mut out = text("ab");
    append_chars(&mut out, &text("cd"));
    assert_eq!(shown(&out), "abcd");
    append_chars(&mut out, &Vec::new());
    assert_eq!(shown(&out), "abcd");
}

#[test]
fn whitespace_is_the_unicode_property() {
    for c in ['\t', '\n', '\u{b}', '\u{c}', '\r', ' ', '\u{85}', '\u{a0}', '\u{1680}', '\u{2000}',
        '\u{200a}', '\u{2028}', '\u{2029}', '\u{202f}', '\u{205f}', '\u{3000}'] {
        assert!(Delimiter::Whitespace.test(c));
        assert!(c.is_whitespace());
    }
    for c in ['a', '/', '\u{200b}', '\u{8}', '\u{e}', '\u{1f}', '\u{feff}'] {
        assert!(!Delimiter::Whitespace.test(c));
        assert!(!c.is_whitespace());
    }
}

#[test]
fn whitespace_agrees_with_std_on_every_character() {
    let mut n: u32 = 0;
    while n <= 0x10ffff {
        if let Some(c) = char::from_u32(n) {
            assert_eq!(Delimiter::Whitespace.test(c), c.is_whitespace());
        }
        n += 1;
    }
}

#[test]
fn slash_delimits_paths_only() {
    assert!(Delimiter::Slash.test('/'));
    assert!(!Delimiter::Slash.test('\\'));
    assert!(!Delimiter::Slash.test(' '));
}

#[test]
fn split_gives_the_runs() {
    let parts = split(&text("/blog//my-post/"), Delimiter::Slash);
    let parts: Vec<String> = parts.iter().map(string_of).collect();
    assert_eq!(parts, vec!["blog".to_string(), "my-post".to_string()]);
    assert!(split(&text("///"), Delimiter::Slash).is_empty());
    assert!(split(&text(""), Delimiter::Slash).is_empty());
    let words = split(&text("  a\tbc \n d"), Delimiter::Whitespace);
    let words: Vec<String> = words.iter().map(string_of).collect();
    assert_eq!(words, vec!["a".to_string(), "bc".to_string(), "d".to_string()]);
}

#[test]
fn join_puts_the_separator_between() {
    assert_eq!(shown(&join(&vec![text("a"), text("bc"), text("d")], ' ')), "a bc d");
    assert_eq!(shown(&join(&vec![text("a")], ' ')), "a");
    assert_eq!(shown(&join(&Vec::new(), ' ')), "");
}

#[test]
fn collapse_agrees_with_split_whitespace() {
    for s in ["", "   ", "Read more", "  Read \n\t more  ", "a\u{a0}b", "one", " x", "x ", "a  b   c"] {
        let expected = s.split_whitespace().collect::<Vec<_>>().join(" ");
        assert_eq!(shown(&collapse(&text(s))), expected);
    }
}

#[test]
fn strip_removes_both_ends() {
    assert_eq!(shown(&strip(&text("  My Site \n"), Delimiter::Whitespace)), "My Site");
    assert_eq!(shown(&strip(&text(" \t "), Delimiter::Whitespace)), "");
    assert_eq!(shown(&strip(&text(""), Delimiter::Whitespace)), "");
    assert_eq!(shown(&strip(&text("a b"), Delimiter::Whitespace)), "a b");
    assert_eq!(shown(&strip(&text("//a/b//"), Delimiter::Slash)), "a/b");
}

#[test]
fn strip_trailing_removes_the_end_only() {
    assert_eq!(shown(&strip_trailing(&text("https://example.com/feed//"), Delimiter::Slash)), "https://example.com/feed");
    assert_eq!(shown(&strip_trailing(&text("/a"), Delimiter::Slash)), "/a");
    assert_eq!(shown(&strip_trailing(&text("///"), Delimiter::Slash)), "");
    assert_eq!(shown(&strip_trailing(&text(""), Delimiter::Slash)), "");
}

#[test]
fn substring_search_is_exact() {
    let hay = text("application/rss+xml; charset=utf-8");
    assert!(has_substring(&hay, &text("application/rss+xml")));
    assert!(has_substring(&hay, &text("utf-8")));
    assert!(has_substring(&hay, &text("")));
    assert!(!has_substring(&hay, &text("application/atom+xml")));
    assert!(!has_substring(&hay, &text("Application/rss+xml")));
    assert!(!has_substring(&text("ab"), &text("abc")));
    assert!(has_substring(&text(""), &text("")));
    assert!(has_substring(&text("aab"), &text("ab")));
    assert!(has_substring(&text("abab"), &text("bab")));
    assert!(!has_substring(&text("abab"), &text("bb")));
}

#[test]
fn ascii_upper_touches_ascii_letters_only() {
    assert_eq!(to_ascii_upper('a'), 'A');
    assert_eq!(to_ascii_upper('z'), 'Z');
    assert_eq!(to_ascii_upper('m'), 'M');
    assert_eq!(to_ascii_upper('A'), 'A');
    assert_eq!(to_ascii_upper('1'), '1');
    assert_eq!(to_ascii_upper('é'), 'é');
    assert_eq!(to_ascii_upper('`'), '`');
    assert_eq!(to_ascii_upper('{'), '{');
}
