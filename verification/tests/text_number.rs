use bcp::number::parse_uint;
use bcp::text::{chars_of, decimal2_chars, decimal_chars, replace_all, string_of, trim, words};

fn cs(s: &str) -> Vec<char> {
    s.chars().collect()
}

#[test]
fn plain_numbers() {
    assert_eq!(parse_uint(&cs("0")), Some(0));
    assert_eq!(parse_uint(&cs("18446744073709551615")), Some(u64::MAX));
    assert_eq!(parse_uint(&cs("18446744073709551616")), None);
    assert_eq!(parse_uint(&cs("")), None);
    assert_eq!(parse_uint(&cs("1.0")), None);
    assert_eq!(parse_uint(&cs("-1")), None);
}

#[test]
fn text_helpers() {
    assert_eq!(string_of(&chars_of("héllo")), "héllo");
    assert_eq!(string_of(&trim(&cs(" \t x y \n"))), "x y");
    let w: Vec<String> = words(&cs("  a bb\tccc  ")).iter().map(|v| string_of(v)).collect();
    assert_eq!(w, vec!["a", "bb", "ccc"]);
    assert_eq!(string_of(&replace_all(&cs("aXbXXc"), &cs("X"), &cs("--"))), "a--b----c");
    assert_eq!(string_of(&replace_all(&cs("aaa"), &cs("aa"), &cs("b"))), "ba");
    assert_eq!(string_of(&decimal_chars(1234567890)), "1234567890");
    assert_eq!(string_of(&decimal2_chars(7)), "07");
    assert_eq!(string_of(&decimal2_chars(42)), "42");
}

#[test]
fn values_without_entities_decode_to_themselves() {
    let plain = cs("{\"a\": 1, 'b' <c>}");
    assert_eq!(bcp::album_page::decode_entities_exec(plain.clone()), plain);
    assert_eq!(
        bcp::album_page::decode_entities_exec(cs("&quot;x&quot;:&amp;lt;&#39;")),
        cs("\"x\":<'")
    );
}
