use pivot_api::text::{
    chars_of, decimal_string, double_single_quotes, ends_with, join_strings, passes, retain_chars,
    same_text, split_at, starts_with, trim, Charset,
};

#[test]
fn charsets_admit_what_they_name() {
    let probes = ['0', '9', 'a', 'Z', 'é', '١', '-', '_', ' ', '\'', ';', '"', '\\', '`', '\n', '\u{0}', '中', '🙂'];
    for c in probes {
        assert_eq!(Charset::DateLike.accepts(c), c.is_ascii_digit() || c == '-');
        assert_eq!(Charset::Word.accepts(c), c.is_alphanumeric() || c == '_');
        assert_eq!(Charset::Identifier.accepts(c), c.is_alphanumeric() || c == '-' || c == '_');
        assert_eq!(
            Charset::Label.accepts(c),
            c.is_alphanumeric() || c == '-' || c == '_' || c == ' '
        );
    }
    for c in ['\'', ';', '"', '\\', '`'] {
        for set in [Charset::DateLike, Charset::Word, Charset::Identifier, Charset::Label] {
            assert!(!set.accepts(c));
        }
    }
}

#[test]
fn filters_keep_the_admitted_characters_in_order() {
    assert_eq!(retain_chars("a-b c_d;e", Charset::DateLike), "-");
    assert_eq!(retain_chars("a-b c_d;e", Charset::Word), "abc_de");
    assert_eq!(retain_chars("a-b c_d;e", Charset::Identifier), "a-bc_de");
    assert_eq!(retain_chars("a-b c_d;e", Charset::Label), "a-b c_de");
    assert_eq!(retain_chars("", Charset::Label), "");
    assert!(passes("2024-01-15", Charset::DateLike));
    assert!(passes("", Charset::DateLike));
    assert!(!passes("2024/01/15", Charset::DateLike));
    assert!(!passes("١٢", Charset::DateLike));
    assert!(passes("١٢", Charset::Word));
}

#[test]
fn quotes_are_doubled() {
    assert_eq!(double_single_quotes(""), "");
    assert_eq!(double_single_quotes("O'Brien"), "O''Brien");
    assert_eq!(double_single_quotes("''"), "''''");
    assert_eq!(double_single_quotes("\"x\""), "\"x\"");
    for text in ["", "O'Brien", "''", "a'b'c'", "plain"] {
        assert_eq!(double_single_quotes(text), text.replace('\'', "''"));
    }
}

#[test]
fn numbers_are_written_in_decimal() {
    for n in [0u64, 1, 9, 10, 11, 99, 100, 101, 4294967295, 4294967296, u64::MAX] {
        assert_eq!(decimal_string(n), n.to_string());
    }
}

#[test]
fn parts_are_joined_with_the_separator_between_them() {
    assert_eq!(join_strings(&vec![], ", "), "");
    assert_eq!(join_strings(&vec!["a".to_string()], ", "), "a");
    assert_eq!(join_strings(&vec!["a".to_string(), "".to_string(), "c".to_string()], ", "), "a, , c");
    assert_eq!(join_strings(&vec!["a".to_string(), "b".to_string()], ""), "ab");
}

#[test]
fn prefixes_suffixes_and_equality() {
    assert!(starts_with("total_pnl", "total_"));
    assert!(starts_with("total_", "total_"));
    assert!(starts_with("x", ""));
    assert!(!starts_with("tota", "total_"));
    assert!(!starts_with("xtotal_", "total_"));
    assert!(ends_with("trade_count", "_count"));
    assert!(ends_with("_count", "_count"));
    assert!(ends_with("", ""));
    assert!(!ends_with("count", "_count"));
    assert!(!ends_with("_counts", "_count"));
    assert!(same_text("é", "é"));
    assert!(!same_text("a", "A"));
    assert!(!same_text("a", "ab"));
    assert_eq!(chars_of("aé中"), vec!['a', 'é', '中']);
}

#[test]
fn white_space_is_trimmed_as_the_standard_library_trims_it() {
    for text in ["", " ", "a", "  a b  ", "\t\n\u{b}\u{c}\r x \u{a0}\u{2003}\u{3000}", "\u{85}y\u{1680}", "\u{200b}z\u{200b}", " \u{feff} "] {
        assert_eq!(trim(text), text.trim());
    }
}

#[test]
fn text_is_split_as_the_standard_library_splits_it() {
    for text in ["", ",", "a", "a,b", ",a,,b,", "desk, book", "é,中"] {
        let expected: Vec<String> = text.split(',').map(|piece| piece.to_string()).collect();
        assert_eq!(split_at(text, ','), expected);
    }
}
