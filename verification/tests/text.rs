use rscoop::text::{
    eq_ignore_ascii_case, join_strings, sort_strings, str_eq, str_le, to_ascii_lowercase,
    to_decimal,
};

fn tx_strings(items: &[&str]) -> Vec<String> {
    items.iter().map(|s| s.to_string()).collect()
}

#[test]
fn decimal_of_numbers() {
    assert_eq!(to_decimal(0), "0");
    assert_eq!(to_decimal(7), "7");
    assert_eq!(to_decimal(10), "10");
    assert_eq!(to_decimal(1_700_000_000_123), "1700000000123");
    assert_eq!(to_decimal(u128::MAX), "340282366920938463463374607431768211455");
}

#[test]
fn lowercase_folds_ascii_only() {
    assert_eq!(to_ascii_lowercase("Git-LFS_2"), "git-lfs_2");
    assert_eq!(to_ascii_lowercase("ÄBC"), "Äbc");
    assert_eq!(to_ascii_lowercase(""), "");
    assert_eq!(to_ascii_lowercase("AZ[@`"), "az[@`");
}

#[test]
fn equality_ignoring_case() {
    assert!(eq_ignore_ascii_case("Current", "cURRENT"));
    assert!(!eq_ignore_ascii_case("current", "currents"));
    assert!(!eq_ignore_ascii_case("ä", "Ä"));
}

#[test]
fn string_equality() {
    assert!(str_eq("abc", "abc"));
    assert!(str_eq("", ""));
    assert!(!str_eq("abc", "abd"));
    assert!(!str_eq("abc", "ab"));
}

#[test]
fn order_is_bytewise() {
    assert!(str_le("", ""));
    assert!(str_le("", "a"));
    assert!(!str_le("a", ""));
    assert!(str_le("a", "ab"));
    assert!(!str_le("ab", "a"));
    assert!(str_le("Z", "a"));
    assert!(str_le("1.10", "1.9"));
    assert!(str_le("z", "é"));
    assert!(str_le("abc", "abc"));
}

#[test]
fn order_agrees_with_the_standard_library() {
    let samples = ["", "a", "A", "ab", "b", "1.0", "1.10", "é", "日本", "z:1", "z;1"];
    for x in samples {
        for y in samples {
            assert_eq!(str_le(x, y), x <= y);
        }
    }
}

#[test]
fn sorting_strings() {
    assert_eq!(sort_strings(tx_strings(&["b", "a", "c"])), tx_strings(&["a", "b", "c"]));
    assert_eq!(sort_strings(tx_strings(&["b", "a", "b", ""])), tx_strings(&["", "a", "b", "b"]));
    assert_eq!(sort_strings(tx_strings(&[])), tx_strings(&[]));
    let mut expected = tx_strings(&["x:10", "X:9", "é", "a;b", "a", "10", "9"]);
    expected.sort();
    assert_eq!(sort_strings(tx_strings(&["x:10", "X:9", "é", "a;b", "a", "10", "9"])), expected);
}

#[test]
fn joining_strings() {
    assert_eq!(join_strings(&tx_strings(&[]), ";"), "");
    assert_eq!(join_strings(&tx_strings(&["a"]), ";"), "a");
    assert_eq!(join_strings(&tx_strings(&["a", "b", "c"]), ";"), "a;b;c");
    assert_eq!(join_strings(&tx_strings(&["a", "", "c"]), ", "), "a, , c");
}

#[test]
fn lines_agree_with_the_standard_library() {
    let texts = [
        "",
        "\n",
        "\r\n",
        "a",
        "a\n",
        "a\r\n",
        "a\r",
        "a\rb",
        "a\n\nb",
        "a\r\n\r\nb\r\n",
        "\n\n",
        "one\ntwo\nthree",
        "one\r\ntwo\rthree\n\r",
        "\r",
        "\r\r\n",
        "x\n\r",
        "tab\there\n  spaced  \n",
    ];
    for text in texts {
        let expected: Vec<String> = text.lines().map(String::from).collect();
        assert_eq!(rscoop::strings::lines_of(text), expected, "lines of {text:?}");
    }
}

#[test]
fn lines_exact() {
    assert_eq!(rscoop::strings::lines_of("a\r\nb\n\nc\r"), vec!["a", "b", "", "c\r"]);
    assert!(rscoop::strings::lines_of("").is_empty());
    assert_eq!(rscoop::strings::lines_of("\n"), vec![""]);
}
