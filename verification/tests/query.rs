use qr_png::query::CodeParams;
use qr_png::text::str_eq;

fn pairs(list: &[(&str, &str)]) -> Vec<(String, String)> {
    list.iter().map(|(name, value)| (name.to_string(), value.to_string())).collect()
}

#[test]
fn no_pair_no_url() {
    assert_eq!(CodeParams::from_pairs(&pairs(&[])).url, None);
    assert_eq!(CodeParams::from_pairs(&pairs(&[("a", "1"), ("b", "2")])).url, None);
}

#[test]
fn one_pair_named_url_gives_its_value() {
    let only = CodeParams::from_pairs(&pairs(&[("url", "https://example.com")]));
    assert_eq!(only.url.as_deref(), Some("https://example.com"));
    let first = CodeParams::from_pairs(&pairs(&[("url", "x"), ("a", "1")]));
    assert_eq!(first.url.as_deref(), Some("x"));
    let last = CodeParams::from_pairs(&pairs(&[("a", "1"), ("b", "2"), ("url", "y")]));
    assert_eq!(last.url.as_deref(), Some("y"));
    let middle = CodeParams::from_pairs(&pairs(&[("a", "url"), ("url", "z"), ("b", "url")]));
    assert_eq!(middle.url.as_deref(), Some("z"));
}

#[test]
fn empty_value_is_a_value() {
    let params = CodeParams::from_pairs(&pairs(&[("url", "")]));
    assert_eq!(params.url.as_deref(), Some(""));
}

#[test]
fn two_pairs_named_url_give_none() {
    assert_eq!(CodeParams::from_pairs(&pairs(&[("url", "a"), ("url", "b")])).url, None);
    assert_eq!(CodeParams::from_pairs(&pairs(&[("url", "a"), ("url", "a")])).url, None);
    assert_eq!(
        CodeParams::from_pairs(&pairs(&[("url", "a"), ("x", "1"), ("url", "b"), ("url", "c")])).url,
        None
    );
}

#[test]
fn names_are_matched_exactly() {
    assert_eq!(CodeParams::from_pairs(&pairs(&[("URL", "a")])).url, None);
    assert_eq!(CodeParams::from_pairs(&pairs(&[("url ", "a")])).url, None);
    assert_eq!(CodeParams::from_pairs(&pairs(&[("ur", "a")])).url, None);
    assert_eq!(CodeParams::from_pairs(&pairs(&[("urls", "a")])).url, None);
    assert_eq!(CodeParams::from_pairs(&pairs(&[("", "a")])).url, None);
}

#[test]
fn parse_reads_the_query_string() {
    assert_eq!(CodeParams::parse("").url, None);
    assert_eq!(CodeParams::parse("a=1&b=2").url, None);
    assert_eq!(CodeParams::parse("url=https://example.com").url.as_deref(), Some("https://example.com"));
    assert_eq!(CodeParams::parse("a=1&url=x&b=2").url.as_deref(), Some("x"));
    assert_eq!(CodeParams::parse("url=").url.as_deref(), Some(""));
    assert_eq!(CodeParams::parse("url").url.as_deref(), Some(""));
    assert_eq!(CodeParams::parse("url=a&url=b").url, None);
}

#[test]
fn parse_decodes_names_and_values() {
    assert_eq!(CodeParams::parse("url=a%20b").url.as_deref(), Some("a b"));
    assert_eq!(CodeParams::parse("url=a+b").url.as_deref(), Some("a b"));
    assert_eq!(CodeParams::parse("url=caf%C3%A9").url.as_deref(), Some("café"));
    assert_eq!(CodeParams::parse("%75rl=x").url.as_deref(), Some("x"));
    assert_eq!(CodeParams::parse("url=a%3Db%26url%3Dc").url.as_deref(), Some("a=b&url=c"));
    assert_eq!(CodeParams::parse("url=100%").url.as_deref(), Some("100%"));
}

#[test]
fn str_eq_compares_whole_strings() {
    assert!(str_eq("", ""));
    assert!(str_eq("GET", "GET"));
    assert!(str_eq("/qr.png", "/qr.png"));
    assert!(str_eq("café", "café"));
    assert!(!str_eq("GET", "get"));
    assert!(!str_eq("GET", "GE"));
    assert!(!str_eq("GE", "GET"));
    assert!(!str_eq("GET", "PUT"));
    assert!(!str_eq("", "a"));
    assert!(!str_eq("cafe", "café"));
}
