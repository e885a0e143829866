use kafka_view::search::decode_search_text;
use kafka_view::search::percent_decode;
use kafka_view::search::OmnisearchFormParams;

fn pairs(items: &[(&str, &str)]) -> Vec<(String, String)> {
    items.iter().map(|(k, v)| (k.to_string(), v.to_string())).collect()
}

#[test]
fn empty_query_gives_empty_search() {
    let p = OmnisearchFormParams::from_pairs(&pairs(&[]));
    assert_eq!(p.string, "");
    assert!(!p.regex);
}

#[test]
fn string_and_regex_are_read() {
    let p = OmnisearchFormParams::from_pairs(&pairs(&[("string", "orders"), ("regex", "on")]));
    assert_eq!(p.string, "orders");
    assert!(p.regex);
    let q = OmnisearchFormParams::from_pairs(&pairs(&[("regex", "true")]));
    assert!(q.regex);
    let r = OmnisearchFormParams::from_pairs(&pairs(&[("regex", "yes")]));
    assert!(!r.regex);
}

#[test]
fn later_pairs_win_and_unknown_keys_are_ignored() {
    let p = OmnisearchFormParams::from_pairs(&pairs(&[
        ("string", "a"),
        ("other", "x"),
        ("regex", "on"),
        ("string", "b"),
        ("regex", "off"),
    ]));
    assert_eq!(p.string, "b");
    assert!(!p.regex);
}

#[test]
fn search_text_is_percent_decoded_again() {
    let p = OmnisearchFormParams::from_pairs(&pairs(&[("string", "%41b%20c")]));
    assert_eq!(p.string, "Ab c");
}

#[test]
fn percent_decode_keeps_bad_escapes() {
    assert_eq!(percent_decode(b"%4"), b"%4".to_vec());
    assert_eq!(percent_decode(b"%zz%41"), b"%zzA".to_vec());
    assert_eq!(percent_decode(b"100%"), b"100%".to_vec());
    assert_eq!(percent_decode(b"%e2%82%ac"), "\u{20AC}".as_bytes().to_vec());
    assert_eq!(percent_decode(b""), Vec::<u8>::new());
}

#[test]
fn invalid_decoded_bytes_become_replacement_characters() {
    assert_eq!(decode_search_text("a%FFb"), "a\u{FFFD}b");
    assert_eq!(decode_search_text("plain"), "plain");
}
