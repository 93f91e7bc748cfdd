use phantomftp::text::{
    chars_of, decimal_string, file_name_or, join_from, lowercase_chars, parse_decimal_u64,
    split_words, str_eq,
};

fn parse(s: &str) -> Option<u64> {
    parse_decimal_u64(&chars_of(s))
}

#[test]
fn decimal_numbers_read_as_std_does() {
    assert_eq!(parse("0"), Some(0));
    assert_eq!(parse("+42"), Some(42));
    assert_eq!(parse("18446744073709551615"), Some(u64::MAX));
    assert_eq!(parse("18446744073709551616"), None);
    assert_eq!(parse(""), None);
    assert_eq!(parse("+"), None);
    assert_eq!(parse("-1"), None);
    assert_eq!(parse("12a"), None);
    assert_eq!(parse("٣"), None);
    for s in ["7", "+7", "", "+", "-3", "99999999999999999999", "00012"] {
        assert_eq!(parse(s), s.parse::<u64>().ok());
    }
}

#[test]
fn decimal_numerals() {
    assert_eq!(decimal_string(0), "0");
    assert_eq!(decimal_string(4096), "4096");
    assert_eq!(decimal_string(u64::MAX), "18446744073709551615");
    assert_eq!(parse(&decimal_string(987654321)), Some(987654321));
}

#[test]
fn words_split_like_split_whitespace() {
    for line in ["  a  b\tc\n", "", "   ", "x", "a\u{2003}b\u{85}c", "é ü"] {
        let words = split_words(&chars_of(line));
        let got: Vec<String> = words.iter().map(|w| w.iter().collect()).collect();
        let want: Vec<String> = line.split_whitespace().map(|w| w.to_string()).collect();
        assert_eq!(got, want);
    }
}

#[test]
fn joining_words() {
    let words = split_words(&chars_of("a b  c d"));
    assert_eq!(join_from(&words, 1), "b c d");
    assert_eq!(join_from(&words, 4), "");
}

#[test]
fn file_names_of_paths() {
    assert_eq!(file_name_or("/pub/file.txt", "x"), "file.txt");
    assert_eq!(file_name_or("dir/sub/", "x"), "sub");
    assert_eq!(file_name_or("a/.", "x"), "a");
    assert_eq!(file_name_or("a/..", "x"), "x");
    assert_eq!(file_name_or("/", "x"), "x");
    assert_eq!(file_name_or("", "x"), "x");
    assert_eq!(file_name_or(".", "x"), "x");
    for p in ["/pub/file.txt", "dir/sub/", "a/.", "a/..", "/", "", ".", "./a", "a//b", "..."] {
        let want = std::path::Path::new(p)
            .file_name()
            .and_then(|n| n.to_str())
            .unwrap_or("x")
            .to_string();
        assert_eq!(file_name_or(p, "x"), want);
    }
}

#[test]
fn lowercase_matches_std() {
    let got: String = lowercase_chars("ÀBİ").into_iter().collect();
    assert_eq!(got, "ÀBİ".to_lowercase());
    assert_ne!(got, "ÀBİ");
}

#[test]
fn string_equality() {
    assert!(str_eq("abc", "abc"));
    assert!(!str_eq("abc", "abd"));
    assert!(!str_eq("ab", "abc"));
}
