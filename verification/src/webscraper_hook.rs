//! The two collaborators that reach the web: what is asked of them, and how
//! what the search returns is put into words.
//!
//! Sending the requests is not done here. This module writes the addresses
//! and headers and digests the pages that came back.

use crate::text::{join, join_text};
use vstd::prelude::*;
use vstd::utf8::encode_utf8;

verus! {

/// The service that returns a page's text; the page's address follows.
pub const FETCH_ENDPOINT: &'static str = "https://code.flows.network/lambda/nsdNiGHUlT?url=";

/// The search service's address up to the query.
pub const SEARCH_ENDPOINT_HEAD: &'static str =
    "https://api.bing.microsoft.com/v7.0/search?count=1&q=";

/// The search service's address after the query.
pub const SEARCH_ENDPOINT_TAIL: &'static str = "&responseFilter=Webpages&setLang=en";

/// The header that carries the key of the search service.
pub const SEARCH_KEY_HEADER: &'static str = "Ocp-Apim-Subscription-Key";

/// What is sent in place of the key where none is configured.
pub const SEARCH_KEY_MISSING: &'static str = "bing_api_key not found";

/// Whether a byte stands for itself in a percent-encoded text: the letters
/// and digits of ASCII and `-`, `.`, `_`, `~`.
pub open spec fn is_unreserved(b: u8) -> bool {
    ||| 0x30 <= b <= 0x39
    ||| 0x41 <= b <= 0x5A
    ||| 0x61 <= b <= 0x7A
    ||| b == 0x2D
    ||| b == 0x2E
    ||| b == 0x5F
    ||| b == 0x7E
}

/// The hexadecimal digit of `d`, a capital where it is a letter.
pub open spec fn hex_digit(d: int) -> char {
    if d < 10 {
        ((0x30 + d) as u8) as char
    } else {
        ((0x41 + d - 10) as u8) as char
    }
}

/// One byte percent-encoded: itself where it is unreserved, else `%` and its
/// two hexadecimal digits.
pub open spec fn encoded_byte(b: u8) -> Seq<char> {
    if is_unreserved(b) {
        seq![b as char]
    } else {
        seq!['%', hex_digit(b as int / 16), hex_digit(b as int % 16)]
    }
}

/// The bytes percent-encoded, one after the other.
pub open spec fn percent_encoded(bytes: Seq<u8>) -> Seq<char>
    decreases bytes.len(),
{
    if bytes.len() == 0 {
        Seq::empty()
    } else {
        percent_encoded(bytes.drop_last()) + encoded_byte(bytes.last())
    }
}

/// Calls `urlencoding::encode`, which percent-encodes every byte of the
/// UTF-8 form of `data` except the letters and digits of ASCII and `-`, `.`,
/// `_`, `~`, with capital hexadecimal digits.
#[verifier::external_body]
pub(crate) fn url_encode(data: &str) -> (r: String)
    ensures
        r@ == percent_encoded(encode_utf8(data@)),
{
    urlencoding::encode(data).into_owned()
}

/// The address at which the text of the page `url` is fetched.
pub open spec fn webpage_address(url: Seq<char>) -> Seq<char> {
    FETCH_ENDPOINT@ + url
}

/// The address at which `query` is searched.
pub open spec fn search_address(query: Seq<char>) -> Seq<char> {
    SEARCH_ENDPOINT_HEAD@ + percent_encoded(encode_utf8(query)) + SEARCH_ENDPOINT_TAIL@
}

/// One page that the search found, as far as the agent reads it.
#[derive(Debug)]
pub struct WebPage {
    pub url: String,
    pub snippet: String,
}

/// What one page comes to in the search's result.
pub open spec fn page_line(url: Seq<char>, snippet: Seq<char>) -> Seq<char> {
    "webpage at "@ + url + " states: "@ + snippet
}

/// The result of a search in words: one line for each page, in order.
pub open spec fn search_digest(pages: Seq<(Seq<char>, Seq<char>)>) -> Seq<char> {
    join(pages.map_values(|p: (Seq<char>, Seq<char>)| page_line(p.0, p.1)), "\n"@)
}

/// The pages as pairs of address and snippet.
pub open spec fn pages_view(pages: Seq<WebPage>) -> Seq<(Seq<char>, Seq<char>)> {
    pages.map_values(|p: WebPage| (p.url@, p.snippet@))
}

/// The address at which the text of the page `url` is fetched. `url` is
/// appended as it is.
pub fn webpage_request_url(url: &str) -> (r: String)
    ensures
        r@ == webpage_address(url@),
{
    let mut out = String::from_str(FETCH_ENDPOINT);
    out.append(url);
    out
}

/// The address at which `query` is searched: the query is percent-encoded.
pub fn search_request_url(query: &str) -> (r: String)
    ensures
        r@ == search_address(query@),
{
    let encoded_query = url_encode(query);
    let mut out = String::from_str(SEARCH_ENDPOINT_HEAD);
    out.append(encoded_query.as_str());
    out.append(SEARCH_ENDPOINT_TAIL);
    out
}

/// The key to send to the search service: the configured one, or
/// [`SEARCH_KEY_MISSING`] where none is configured.
pub fn search_key(configured: Option<String>) -> (r: String)
    ensures
        r@ == match configured {
            Some(key) => key@,
            None => SEARCH_KEY_MISSING@,
        },
{
    match configured {
        Some(key) => key,
        None => String::from_str(SEARCH_KEY_MISSING),
    }
}

/// The headers of a search request, in the order in which they are set: the
/// content type, the client's name, the key.
pub fn search_headers(key: &str) -> (r: Vec<(String, String)>)
    ensures
        r.deep_view() == seq![
            ("content-type"@, "application/json"@),
            ("user-agent"@, "MyClient/1.0.0"@),
            (SEARCH_KEY_HEADER@, key@),
        ],
{
    let mut out: Vec<(String, String)> = Vec::new();
    out.push((String::from_str("content-type"), String::from_str("application/json")));
    out.push((String::from_str("user-agent"), String::from_str("MyClient/1.0.0")));
    out.push((String::from_str(SEARCH_KEY_HEADER), String::from_str(key)));
    assert(out.deep_view() =~= seq![
        ("content-type"@, "application/json"@),
        ("user-agent"@, "MyClient/1.0.0"@),
        (SEARCH_KEY_HEADER@, key@),
    ]);
    out
}

/// The result of a search in words: for each page, in order, the line
/// `webpage at`, its address, `states:` and its snippet; a line break
/// between each two lines.
pub fn search_result_text(pages: &Vec<WebPage>) -> (r: String)
    ensures
        r@ == search_digest(pages_view(pages@)),
{
    let mut lines: Vec<String> = Vec::new();
    let ghost all = pages_view(pages@).map_values(
        |p: (Seq<char>, Seq<char>)| page_line(p.0, p.1),
    );
    let mut i: usize = 0;
    assert(lines.deep_view() =~= all.take(0));
    while i < pages.len()
        invariant
            i <= pages.len(),
            all == pages_view(pages@).map_values(|p: (Seq<char>, Seq<char>)| page_line(p.0, p.1)),
            lines.deep_view() == all.take(i as int),
        decreases pages.len() - i,
    {
        let mut line = String::from_str("webpage at ");
        line.append(pages[i].url.as_str());
        line.append(" states: ");
        line.append(pages[i].snippet.as_str());
        let ghost before = lines.deep_view();
        lines.push(line);
        assert(lines.deep_view() =~= before.push(line@));
        assert(all.take(i + 1) =~= all.take(i as int).push(
            page_line(pages@[i as int].url@, pages@[i as int].snippet@),
        ));
        i = i + 1;
    }
    assert(all.take(pages.len() as int) =~= all);
    join_text(&lines, "\n")
}

} // verus!
