use ast_narrator::text::{bracketed_list, decimal_text, join, push_line, quote_all};

fn strings(items: &[&str]) -> Vec<String> {
    items.iter().map(|item| item.to_string()).collect()
}

#[test]
fn join_puts_the_separator_between_parts() {
    assert_eq!(join(&strings(&[]), ", "), "");
    assert_eq!(join(&strings(&["a"]), ", "), "a");
    assert_eq!(join(&strings(&["a", "b"]), ", "), "a, b");
    assert_eq!(join(&strings(&["a", "b", "c"]), " | "), "a | b | c");
    assert_eq!(join(&strings(&["", "", ""]), "-"), "--");
    assert_eq!(join(&strings(&["a", "b"]), ""), "ab");
}

#[test]
fn bracketed_list_of_items() {
    assert_eq!(bracketed_list(&strings(&[])), "[]");
    assert_eq!(bracketed_list(&strings(&["x"])), "[x]");
    assert_eq!(bracketed_list(&strings(&["x", "y", "z"])), "[x, y, z]");
}

#[test]
fn quote_all_gives_each_item_its_debug_form() {
    assert!(quote_all(&strings(&[])).is_empty());
    assert_eq!(
        quote_all(&strings(&["a", "", "say \"hi\"", "new\nline", "it's"])),
        strings(&["\"a\"", "\"\"", "\"say \\\"hi\\\"\"", "\"new\\nline\"", "\"it's\""])
    );
}

#[test]
fn quoted_list_reads_like_a_list_of_strings() {
    let tokens = strings(&["1", "+", "x"]);
    assert_eq!(bracketed_list(&quote_all(&tokens)), format!("{:?}", tokens));
}

#[test]
fn push_line_appends() {
    let mut lines = Vec::new();
    push_line(&mut lines, "one".to_string());
    push_line(&mut lines, "two".to_string());
    assert_eq!(lines, strings(&["one", "two"]));
}

#[test]
fn decimal_text_of_numbers() {
    assert_eq!(decimal_text(0), "0");
    assert_eq!(decimal_text(9), "9");
    assert_eq!(decimal_text(10), "10");
    assert_eq!(decimal_text(99), "99");
    assert_eq!(decimal_text(100), "100");
    assert_eq!(decimal_text(1234567890), "1234567890");
    for value in [0u32, 5, 17, 300, 65535, 1000000, u32::MAX] {
        assert_eq!(decimal_text(value), value.to_string());
    }
}
