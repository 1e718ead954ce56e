use persona_proxy::text::{i128_to_dec, split_args, str_eq, strip_prefix_str, trim};

#[test]
fn trim_removes_surrounding_whitespace() {
    assert_eq!(trim("  hello  "), "hello");
    assert_eq!(trim("\t\n x \r\n"), "x");
    assert_eq!(trim("   "), "");
    assert_eq!(trim(""), "");
    assert_eq!(trim("inner  space"), "inner  space");
}

#[test]
fn str_eq_compares_contents() {
    assert!(str_eq("abc", "abc"));
    assert!(!str_eq("abc", "abd"));
    assert!(!str_eq("abc", "ab"));
    assert!(str_eq("", ""));
}

#[test]
fn strip_prefix_str_removes_literal_prefix() {
    assert_eq!(strip_prefix_str("koko: hello", "koko:"), Some(" hello"));
    assert_eq!(strip_prefix_str("koko", "koko:"), None);
    assert_eq!(strip_prefix_str("hello", "koko:"), None);
}

#[test]
fn split_args_splits_on_whitespace() {
    let toks = split_args("a bc  def", '"');
    assert_eq!(toks, vec!["a", "bc", "def"]);
}

#[test]
fn split_args_keeps_quoted_spans_together() {
    let toks = split_args("Kokoro \"Hata no Kokoro\" koko:", '"');
    assert_eq!(toks, vec!["Kokoro", "Hata no Kokoro", "koko:"]);
}

#[test]
fn split_args_unclosed_quote_takes_rest() {
    let toks = split_args("\"unclosed rest", '"');
    assert_eq!(toks, vec!["unclosed rest"]);
}

#[test]
fn split_args_empty_input_gives_no_tokens() {
    assert!(split_args("", '"').is_empty());
    assert!(split_args("   ", '"').is_empty());
}

#[test]
fn decimal_rendering_is_exact() {
    assert_eq!(i128_to_dec(0), "0");
    assert_eq!(i128_to_dec(1234), "1234");
    assert_eq!(i128_to_dec(-500), "-500");
    assert_eq!(i128_to_dec(10), "10");
    assert_eq!(i128_to_dec(-1), "-1");
}
