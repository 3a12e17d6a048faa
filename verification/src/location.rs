//! Web addresses, built with the `url` crate.
//!
//! The crate's calls are stated here for one plain class of addresses only:
//! `https`, a host of lower-case letters and dots, and a path of words. On
//! that class the `url` crate neither rewrites nor escapes anything, so what
//! a call does can be said in a line. Those statements are assumed, not
//! proved.

use url::{ParseError, Url};
use vstd::prelude::*;

verus! {

/// `url::Url`, a parsed address. Nothing is known of one but the text it
/// holds.
#[verifier::external_type_specification]
#[verifier::external_body]
pub struct ExUrl(url::Url);

/// `url::ParseError`, why a text is no address.
#[verifier::external_type_specification]
#[verifier::external_body]
pub struct ExParseError(url::ParseError);

/// No address handled here is longer than this, which keeps every length
/// that the `url` crate computes within its 32 bits.
pub const MAX_LENGTH: usize = 0x3fff_ffff;

/// The text that a `Url` holds, which is what it is written as.
pub uninterp spec fn text_of(url: Url) -> Seq<char>;

/// A lower-case letter of the Latin alphabet.
pub open spec fn is_lower(c: char) -> bool {
    'a' <= c && c <= 'z'
}

/// A lower-case letter, a digit or a hyphen.
pub open spec fn is_word_char(c: char) -> bool {
    is_lower(c) || ('0' <= c && c <= '9') || c == '-'
}

/// A non-empty run of word characters.
pub open spec fn is_word(text: Seq<char>) -> bool {
    &&& 0 < text.len() <= MAX_LENGTH
    &&& forall|i: int| 0 <= i < text.len() ==> is_word_char(#[trigger] text[i])
}

/// Lower-case letters in labels that single dots divide.
pub open spec fn is_host(text: Seq<char>) -> bool {
    &&& text.len() > 0
    &&& forall|i: int| 0 <= i < text.len() ==> is_lower(#[trigger] text[i]) || text[i] == '.'
    &&& text[0] != '.'
    &&& text[text.len() - 1] != '.'
    &&& forall|i: int| 0 < i < text.len() ==> !(text[i - 1] == '.' && #[trigger] text[i] == '.')
}

/// One or more words, each with a slash before it.
pub open spec fn is_path(text: Seq<char>) -> bool {
    &&& text.len() >= 2
    &&& forall|i: int| 0 <= i < text.len() ==> is_word_char(#[trigger] text[i]) || text[i] == '/'
    &&& text[0] == '/'
    &&& text[text.len() - 1] != '/'
    &&& forall|i: int| 0 < i < text.len() ==> !(text[i - 1] == '/' && #[trigger] text[i] == '/')
}

/// `text` is `https://`, a host and a path.
pub open spec fn is_made_of(text: Seq<char>, host: Seq<char>, path: Seq<char>) -> bool {
    &&& is_host(host)
    &&& is_path(path)
    &&& text == "https://"@ + host + path
    &&& text.len() <= MAX_LENGTH
}

/// A plain address: `https://`, a host and a path, with nothing before
/// the host, nothing between the two and nothing after the path, and no
/// character in it that would be escaped or rewritten.
pub open spec fn is_plain(text: Seq<char>) -> bool {
    exists|host: Seq<char>, path: Seq<char>| is_made_of(text, host, path)
}

/// Word characters and `=`: a query of one parameter whose name and value
/// are words.
pub open spec fn is_plain_query(text: Seq<char>) -> bool {
    &&& text.len() <= MAX_LENGTH
    &&& forall|i: int| 0 <= i < text.len() ==> is_word_char(#[trigger] text[i]) || text[i] == '='
}

/// A plain address with one more word at the end of its path is plain.
pub proof fn lemma_plain_with_segment(text: Seq<char>, segment: Seq<char>)
    requires
        is_plain(text),
        is_word(segment),
        text.len() + 1 + segment.len() <= MAX_LENGTH,
    ensures
        is_plain(text + seq!['/'] + segment),
{
    let (host, path) = choose|host: Seq<char>, path: Seq<char>| is_made_of(text, host, path);
    let longer = path + seq!['/'] + segment;
    assert(text + seq!['/'] + segment =~= "https://"@ + host + longer);
    assert(is_path(longer)) by {
        assert forall|i: int| 0 <= i < longer.len() implies is_word_char(#[trigger] longer[i])
            || longer[i] == '/' by {
            if i < path.len() {
                assert(longer[i] == path[i]);
            } else if i > path.len() {
                assert(longer[i] == segment[i - path.len() - 1]);
            }
        }
        assert forall|i: int| 0 < i < longer.len() implies !(longer[i - 1] == '/'
            && #[trigger] longer[i] == '/') by {
            if i < path.len() {
                assert(longer[i] == path[i]);
                assert(longer[i - 1] == path[i - 1]);
            } else if i == path.len() {
                assert(longer[i - 1] == path[path.len() - 1]);
            } else {
                assert(longer[i] == segment[i - path.len() - 1]);
            }
        }
        assert(longer[longer.len() - 1] == segment[segment.len() - 1]);
        assert(longer[0] == path[0]);
    }
    assert(is_made_of(text + seq!['/'] + segment, host, longer));
}

/// `Url::parse`. A plain address parses, and the `Url` holds it unchanged:
/// its scheme is already in lower case, its host is a domain of lower-case
/// letters that is no number and needs no conversion, and its path has no
/// dot segment and nothing to escape. Of any other input nothing is said.
#[verifier::external_body]
pub(crate) fn parse(input: &str) -> (result: Result<Url, ParseError>)
    ensures
        match result {
            Ok(url) => is_plain(input@) ==> text_of(url) == input@,
            Err(_) => !is_plain(input@),
        },
{
    Url::parse(input)
}

/// `Url::path_segments_mut` and `PathSegmentsMut::push` on its result. A
/// plain address can be a base, so the first gives its segments; its path
/// is longer than `/`, so the second puts a slash after it; and a word is
/// neither `.` nor `..` and has nothing to escape, so it follows as it is.
#[verifier::external_body]
pub(crate) fn push_segment(url: &mut Url, segment: &str)
    requires
        is_plain(text_of(*old(url))),
        is_word(segment@),
    ensures
        text_of(*final(url)) == text_of(*old(url)) + seq!['/'] + segment@,
{
    if let Ok(mut segments) = url.path_segments_mut() {
        segments.push(segment);
    }
}

/// `Url::set_query` with a query. A plain address has no query to replace
/// and no fragment to keep, so a question mark and the query go to its end;
/// a plain query has nothing to escape or to drop, so it goes as it is.
#[verifier::external_body]
pub(crate) fn set_query(url: &mut Url, query: &str)
    requires
        is_plain(text_of(*old(url))),
        is_plain_query(query@),
    ensures
        text_of(*final(url)) == text_of(*old(url)) + seq!['?'] + query@,
{
    url.set_query(Some(query));
}

/// `Url`'s `to_string`: the text that the `Url` holds.
#[verifier::external_body]
pub(crate) fn to_text(url: &Url) -> (text: String)
    ensures
        text@ == text_of(*url),
{
    url.to_string()
}

} // verus!
