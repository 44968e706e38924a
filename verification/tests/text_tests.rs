use llama_agent::text::{chars_of, join_text, same_text, split_text, string_of, strip_text, Strip};
use llama_agent::webscraper_hook::{
    search_headers, search_key, search_request_url, search_result_text, webpage_request_url,
    WebPage,
};

fn strings(items: &[&str]) -> Vec<String> {
    items.iter().map(|s| s.to_string()).collect()
}

#[test]
fn whitespace_is_what_the_standard_library_calls_whitespace() {
    for n in 0..=0x10FFFFu32 {
        if let Some(c) = char::from_u32(n) {
            assert_eq!(Strip::Whitespace.test(c), c.is_whitespace(), "U+{n:04X}");
        }
    }
}

#[test]
fn trimming_agrees_with_the_standard_library() {
    for s in ["", " ", "a", "  a b \t\n", "\u{a0}x\u{3000}", "\u{200b}x", "\r\n", " \u{2028}é \u{85}"] {
        assert_eq!(strip_text(s, Strip::Whitespace), s.trim(), "{s:?}");
    }
}

#[test]
fn stripping_one_character_agrees_with_the_standard_library() {
    for s in ["", "\"", "\"\"", "\"a\"", "a\"b", "\"\"a\"b\"\"", " \"a\""] {
        assert_eq!(strip_text(s, Strip::Char('"')), s.trim_matches('"'), "{s:?}");
    }
    assert!(Strip::Char('x').test('x'));
    assert!(!Strip::Char('x').test('y'));
}

#[test]
fn splitting_agrees_with_the_standard_library() {
    for s in ["", ",", "a", "a,b", ",a,", "a,,b", "é,ü", ",,"] {
        let expected: Vec<String> = s.split(',').map(|p| p.to_string()).collect();
        assert_eq!(split_text(s, ','), expected, "{s:?}");
    }
    assert_eq!(split_text("a,b", ';'), strings(&["a,b"]));
    assert_eq!(split_text("", ','), strings(&[""]));
}

#[test]
fn joining_agrees_with_the_standard_library() {
    for parts in [vec![], strings(&["a"]), strings(&["a", "b"]), strings(&["", "", ""]), strings(&["é", "ü", ""])] {
        assert_eq!(join_text(&parts, ", "), parts.join(", "));
        assert_eq!(join_text(&parts, ""), parts.join(""));
    }
}

#[test]
fn characters_and_back() {
    let v = chars_of("héllo");
    assert_eq!(v, vec!['h', 'é', 'l', 'l', 'o']);
    assert_eq!(string_of(&v, 1, 4), "éll");
    assert_eq!(string_of(&v, 5, 5), "");
    assert_eq!(string_of(&v, 0, 5), "héllo");
}

#[test]
fn texts_are_the_same_when_their_characters_are() {
    assert!(same_text("", ""));
    assert!(same_text("abc", "abc"));
    assert!(!same_text("abc", "abd"));
    assert!(!same_text("abc", "ab"));
    assert!(!same_text("ab", "abc"));
}

#[test]
fn the_page_address_appends_the_url() {
    assert_eq!(
        webpage_request_url("https://example.com/a?b=c d"),
        "https://code.flows.network/lambda/nsdNiGHUlT?url=https://example.com/a?b=c d"
    );
}

#[test]
fn the_search_address_encodes_the_query() {
    assert_eq!(
        search_request_url("best rust & go/2024?"),
        "https://api.bing.microsoft.com/v7.0/search?count=1&q=best%20rust%20%26%20go%2F2024%3F&responseFilter=Webpages&setLang=en"
    );
    assert_eq!(
        search_request_url("Az09-._~"),
        "https://api.bing.microsoft.com/v7.0/search?count=1&q=Az09-._~&responseFilter=Webpages&setLang=en"
    );
    assert_eq!(
        search_request_url("é\u{4e2d}"),
        "https://api.bing.microsoft.com/v7.0/search?count=1&q=%C3%A9%E4%B8%AD&responseFilter=Webpages&setLang=en"
    );
    assert_eq!(
        search_request_url(""),
        "https://api.bing.microsoft.com/v7.0/search?count=1&q=&responseFilter=Webpages&setLang=en"
    );
}

#[test]
fn a_missing_key_degrades_to_the_placeholder() {
    assert_eq!(search_key(Some("k".to_string())), "k");
    assert_eq!(search_key(None), "bing_api_key not found");
}

#[test]
fn the_search_headers() {
    assert_eq!(
        search_headers("k"),
        vec![
            ("content-type".to_string(), "application/json".to_string()),
            ("user-agent".to_string(), "MyClient/1.0.0".to_string()),
            ("Ocp-Apim-Subscription-Key".to_string(), "k".to_string()),
        ]
    );
}

#[test]
fn the_search_result_has_one_line_for_each_page() {
    let pages = vec![
        WebPage { url: "https://a".to_string(), snippet: "first".to_string() },
        WebPage { url: "https://b".to_string(), snippet: "second".to_string() },
    ];
    assert_eq!(
        search_result_text(&pages),
        "webpage at https://a states: first\nwebpage at https://b states: second"
    );
    assert_eq!(search_result_text(&pages[..1].iter().map(|p| WebPage { url: p.url.clone(), snippet: p.snippet.clone() }).collect()), "webpage at https://a states: first");
    assert_eq!(search_result_text(&Vec::new()), "");
}
