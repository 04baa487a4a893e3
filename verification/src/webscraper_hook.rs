//! The addresses of the web helpers: the page fetcher and the search.

use crate::text::join2;
use crate::text::join3;
use vstd::prelude::*;

verus! {

/// The service that fetches the text of a page.
pub const PAGE_TEXT_SERVICE: &'static str = "https://code.flows.network/lambda/nsdNiGHUlT?url=";

/// What stands before the query in the address of a search.
pub const SEARCH_ADDRESS_HEAD: &'static str = "https://api.bing.microsoft.com/v7.0/search?count=3&q=";

/// What stands behind the query in the address of a search.
pub const SEARCH_ADDRESS_TAIL: &'static str = "&responseFilter=Webpages&setLang=en";

/// Whether a byte stands for itself in an address: an ASCII letter or
/// digit, or one of `-`, `.`, `_`, `~`.
pub open spec fn is_unreserved(byte: u8) -> bool {
    (0x30 <= byte <= 0x39) || (0x41 <= byte <= 0x5A) || (0x61 <= byte <= 0x7A) || byte == 0x2D
        || byte == 0x2E || byte == 0x5F || byte == 0x7E
}

/// The character of a hexadecimal digit, in upper case.
pub open spec fn hex_digit(digit: u8) -> char {
    if digit < 10 {
        (0x30 + digit) as char
    } else {
        (0x41 + digit - 10) as char
    }
}

/// One byte in percent-encoding.
pub open spec fn encoded_byte(byte: u8) -> Seq<char> {
    if is_unreserved(byte) {
        seq![byte as char]
    } else {
        seq!['%', hex_digit(byte / 16), hex_digit(byte % 16)]
    }
}

/// Bytes in percent-encoding.
pub open spec fn percent_encoded(bytes: Seq<u8>) -> Seq<char>
    decreases bytes.len(),
{
    if bytes.len() == 0 {
        Seq::empty()
    } else {
        percent_encoded(bytes.drop_last()) + encoded_byte(bytes.last())
    }
}

/// A text in percent-encoding: every byte of its UTF-8 form but letters,
/// digits, `-`, `.`, `_` and `~` is written as `%` and two hexadecimal
/// digits.
pub open spec fn url_encoded(text: Seq<char>) -> Seq<char> {
    percent_encoded(vstd::utf8::encode_utf8(text))
}

/// `urlencoding::encode`: the percent-encoding of the UTF-8 form of the
/// text.
#[verifier::external_body]
fn urlencoding_encode(text: &str) -> (r: String)
    ensures
        r@ == url_encoded(text@),
{
    urlencoding::encode(text).into_owned()
}

/// The address from which the text of the page `url` is fetched.
pub fn page_text_address(url: &str) -> (address: String)
    ensures
        address@ == PAGE_TEXT_SERVICE@ + url@,
{
    join2(PAGE_TEXT_SERVICE, url)
}

/// The address of the search for `query`.
pub fn search_address(query: &str) -> (address: String)
    ensures
        address@ == SEARCH_ADDRESS_HEAD@ + url_encoded(query@) + SEARCH_ADDRESS_TAIL@,
{
    let encoded_query = urlencoding_encode(query);
    join3(SEARCH_ADDRESS_HEAD, encoded_query.as_str(), SEARCH_ADDRESS_TAIL)
}

/// The snippet of the first result of a search, where there is a result.
/// A result is the address of a page and a snippet of its text.
pub fn first_snippet(results: &Vec<(String, String)>) -> (snippet: Option<String>)
    ensures
        match snippet {
            Some(text) => results@.len() > 0 && text@ == results@[0].1@,
            None => results@.len() == 0,
        },
{
    if results.len() > 0 {
        Some(results[0].1.clone())
    } else {
        None
    }
}

} // verus!
