use seiten::error::{ErrorKind, Failure};
use seiten::page_url::{parse_url, series_title, slug_from_tail, spaced_slug};

#[test]
fn slug_is_the_last_path_segment() {
    assert_eq!(parse_url("https://www.animefillerlist.com/shows/naruto-shippuden"), Ok("naruto-shippuden".to_string()));
    assert_eq!(parse_url("https://example.com/a/b/c?x=1#y"), Ok("c".to_string()));
    assert_eq!(parse_url("https://example.com/shows/one-piece/"), Ok("".to_string()));
    assert_eq!(parse_url("https://example.com"), Ok("".to_string()));
    assert_eq!(parse_url("https://example.com/việt nam"), Ok("vi%E1%BB%87t%20nam".to_string()));
}

#[test]
fn url_without_segments_gives_the_placeholder() {
    assert_eq!(parse_url("data:text/plain,HelloWorld"), Ok("unknown-series".to_string()));
    assert_eq!(parse_url("mailto:someone@example.com"), Ok("unknown-series".to_string()));
    assert_eq!(slug_from_tail(None), "unknown-series");
    assert_eq!(slug_from_tail(Some("x".to_string())), "x");
}

#[test]
fn invalid_urls_fail() {
    let invalid = |cause: &str| Err(Failure { kind: ErrorKind::InvalidInput, cause: format!("Invalid URL: {cause}") });
    assert_eq!(parse_url("shows/naruto"), invalid("relative URL without a base"));
    assert_eq!(parse_url(""), invalid("relative URL without a base"));
    assert_eq!(parse_url("https://"), invalid("empty host"));
    assert_eq!(parse_url("https://example.com:99999/"), invalid("invalid port number"));
    assert_eq!(parse_url("https://[::1/"), invalid("invalid IPv6 address"));
    assert_eq!(parse_url("https://exa mple.com/"), invalid("invalid international domain name"));
}

#[test]
fn failures_bear_the_words_of_the_parser() {
    let samples = [
        "shows/naruto",
        "https://",
        "https://example.com:99999/",
        "https://[::1/",
        "https://1.2.3.4.5.6.7.8.9.0x/",
        "https://exa mple.com/",
        "https://exa%23mple.com/",
        "http://0x100000000/",
    ];
    for sample in samples {
        match (parse_url(sample), url::Url::parse(sample)) {
            (Err(failure), Err(error)) => assert_eq!(failure.cause, format!("Invalid URL: {error}"), "{sample}"),
            (Ok(slug), Ok(parsed)) => assert_eq!(
                Some(slug.as_str()),
                parsed.path_segments().and_then(|mut segments| segments.next_back()),
                "{sample}"
            ),
            (ours, theirs) => panic!("{sample}: {ours:?} against {theirs:?}"),
        }
    }
}

#[test]
fn title_of_a_slug() {
    assert_eq!(series_title("naruto-shippuden"), "NARUTO SHIPPUDEN");
    assert_eq!(series_title("the-first-patient"), "THE FIRST PATIENT");
    assert_eq!(series_title("one--piece-"), "ONE  PIECE ");
    assert_eq!(series_title(""), "");
    assert_eq!(series_title("straße"), "STRASSE");
    assert_eq!(spaced_slug("a-b-c"), "a b c");
    assert_eq!(spaced_slug("abc"), "abc");
}
