use superrepo::text::{
    ascii_lowercase, append_chars, char_is_space, chars_of, decode, escape_ascii, lines,
    lowercase, strip_suffix, text_of, trim,
};

#[test]
fn lowercase_touches_only_ascii_capitals() {
    assert_eq!(ascii_lowercase(b"Main\n"), b"main\n".to_vec());
    assert_eq!(ascii_lowercase(b"@AZ[`az{"), b"@az[`az{".to_vec());
    assert_eq!(ascii_lowercase(&[0xc3, 0x84, 0x41]), vec![0xc3, 0x84, 0x61]);
    assert_eq!(ascii_lowercase(b""), Vec::<u8>::new());
}

#[test]
fn decode_reads_utf8_and_replaces_the_rest() {
    assert_eq!(decode(b"main"), "main");
    assert_eq!(decode("héllo ✓".as_bytes()), "héllo ✓");
    assert_eq!(decode(b""), "");
    assert_eq!(decode(&[b'a', 0xff, b'b']), "a\u{fffd}b");
    assert_eq!(decode(&[0xe2, 0x9c]), "\u{fffd}");
}

#[test]
fn append_chars_adds_a_range() {
    let mut text = String::from("ab");
    append_chars(&mut text, &vec!['x', 'y', 'z'], 1, 3);
    assert_eq!(text, "abyz");
    append_chars(&mut text, &vec!['x'], 1, 1);
    assert_eq!(text, "abyz");
}

#[test]
fn white_space_is_what_unicode_says() {
    for c in ['\t', '\n', '\u{b}', '\u{c}', '\r', ' ', '\u{85}', '\u{a0}', '\u{1680}', '\u{2000}', '\u{200a}', '\u{2028}', '\u{2029}', '\u{202f}', '\u{205f}', '\u{3000}'] {
        assert!(char_is_space(c));
    }
    for c in ['a', '\0', '\u{8}', '\u{e}', '\u{1f}', '\u{200b}', '\u{feff}', '\u{180e}'] {
        assert!(!char_is_space(c));
    }
}

#[test]
fn white_space_agrees_with_std() {
    let mut n: u32 = 0;
    while n <= 0x10ffff {
        if let Some(c) = char::from_u32(n) {
            assert_eq!(char_is_space(c), c.is_whitespace());
        }
        n += 1;
    }
}

#[test]
fn lowercase_of_text_touches_only_ascii_capitals() {
    assert_eq!(lowercase("Main"), "main");
    assert_eq!(lowercase("@AZ[`az{"), "@az[`az{");
    assert_eq!(lowercase("\u{c4}B \u{3a9}"), "\u{c4}b \u{3a9}");
    assert_eq!(lowercase(""), "");
    for text in ["Feature/X-1", "MAIN", "already", "\u{130}I"] {
        assert_eq!(lowercase(text), text.to_ascii_lowercase());
    }
}

#[test]
fn chars_and_back() {
    let chars = chars_of("héllo");
    assert_eq!(chars, vec!['h', 'é', 'l', 'l', 'o']);
    assert_eq!(text_of(&chars, 1, 4), "éll");
    assert_eq!(text_of(&chars, 2, 2), "");
}

#[test]
fn trim_removes_white_space_at_both_ends() {
    assert_eq!(trim("  main \n"), "main");
    assert_eq!(trim("\t\r\n"), "");
    assert_eq!(trim(""), "");
    assert_eq!(trim("a b"), "a b");
    assert_eq!(trim("\u{a0}\u{3000}x y\u{2028}\u{85}"), "x y");
    assert_eq!(trim("\u{200b}x"), "\u{200b}x");
}

#[test]
fn trim_agrees_with_std() {
    for s in ["", " ", " a", "a ", "\u{1680}a\u{205f}", "\u{2000}\u{200a}b\u{202f}", "\u{1c}a"] {
        assert_eq!(trim(s), s.trim());
    }
}

#[test]
fn escape_shows_every_byte() {
    assert_eq!(escape_ascii(b"0123abcd"), "0123abcd");
    assert_eq!(escape_ascii(b"a\tb\r\n"), "a\\tb\\r\\n");
    assert_eq!(escape_ascii(b"'\"\\"), "\\'\\\"\\\\");
    assert_eq!(escape_ascii(&[0x00, 0x1f, 0x7f, 0x9d, 0xff]), "\\x00\\x1f\\x7f\\x9d\\xff");
    assert_eq!(escape_ascii(b" ~"), " ~");
    assert_eq!(escape_ascii(b""), "");
}

#[test]
fn escape_agrees_with_std() {
    let all: Vec<u8> = (0u8..=255).collect();
    assert_eq!(escape_ascii(&all), all.escape_ascii().to_string());
}

#[test]
fn lines_split_at_line_feeds() {
    assert_eq!(lines("./a/.git\n./b/.git"), vec!["./a/.git", "./b/.git"]);
    assert_eq!(lines("one\r\ntwo\n"), vec!["one", "two"]);
    assert_eq!(lines("\n\nx"), vec!["", "", "x"]);
    assert_eq!(lines(""), Vec::<String>::new());
    assert_eq!(lines("\n"), vec![""]);
    assert_eq!(lines("a\r"), vec!["a\r"]);
    assert_eq!(lines("a\r\n"), vec!["a"]);
    assert_eq!(lines("a\rb\n\r"), vec!["a\rb", "\r"]);
    assert_eq!(lines("\r\n\r\n"), vec!["", ""]);
}

#[test]
fn lines_agree_with_std() {
    for text in ["", "a", "a\n", "a\r", "a\r\n", "a\n\nb", "\n", "\r", "\r\n", "a\r\r\n", "a\rb\n\r", "x\ny\r\nz\r"] {
        let expected: Vec<String> = text.lines().map(|line| line.to_string()).collect();
        assert_eq!(lines(text), expected);
    }
}

#[test]
fn strip_suffix_only_at_the_end() {
    assert_eq!(strip_suffix("./a/.git", "/.git"), "./a");
    assert_eq!(strip_suffix("./.git", "/.git"), ".");
    assert_eq!(strip_suffix("./.gitx/.git", "/.git"), "./.gitx");
    assert_eq!(strip_suffix("./a", "/.git"), "./a");
    assert_eq!(strip_suffix("git", "/.git"), "git");
    assert_eq!(strip_suffix("/.git", "/.git"), "");
    assert_eq!(strip_suffix("abc", ""), "abc");
}
