//! The envelope that the service answers with, and how it is read out of a
//! JSON document.

use crate::error::{map_response_err, rejection_message, NewsApiError, ParseFailure};
use crate::json::{as_items, as_text, document, is_null, member, parse, parsed, Json};
use serde_json::Value;
use vstd::prelude::*;

verus! {

/// One headline as the service reports it.
#[derive(Debug)]
pub struct Article {
    title: String,
    url: String,
    description: Option<String>,
}

/// What an `Article` holds.
pub struct ArticleView {
    pub title: Seq<char>,
    pub url: Seq<char>,
    pub description: Option<Seq<char>>,
}

impl View for Article {
    type V = ArticleView;

    closed spec fn view(&self) -> ArticleView {
        ArticleView {
            title: self.title@,
            url: self.url@,
            description: self.description.deep_view(),
        }
    }
}

impl Article {
    /// The headline, as the service gave it.
    pub fn title(&self) -> (title: &str)
        ensures
            title@ == self@.title,
    {
        self.title.as_str()
    }

    /// Where the article is, as the service gave it; it is not looked into.
    pub fn url(&self) -> (url: &str)
        ensures
            url@ == self@.url,
    {
        self.url.as_str()
    }

    /// The description, `None` where the service gave none.
    pub fn desc(&self) -> (description: Option<&String>)
        ensures
            match description {
                Some(text) => self@.description == Some(text@),
                None => self@.description is None,
            },
    {
        self.description.as_ref()
    }
}

/// The envelope of an answer that the service marked "ok". No other
/// envelope is ever handed out: a value of this type is a fetch that
/// succeeded.
#[derive(Debug)]
pub struct NewsAPIResponse {
    status: String,
    articles: Vec<Article>,
    code: Option<String>,
}

impl NewsAPIResponse {
    #[verifier::type_invariant]
    spec fn is_ok(self) -> bool {
        self.status@ == "ok"@
    }
}

/// What a `NewsAPIResponse` holds.
pub struct ResponseView {
    pub status: Seq<char>,
    pub articles: Seq<ArticleView>,
    pub code: Option<Seq<char>>,
}

/// The views of a run of articles, in the same order.
pub open spec fn article_views(articles: Seq<Article>) -> Seq<ArticleView> {
    articles.map_values(|article: Article| article@)
}

impl View for NewsAPIResponse {
    type V = ResponseView;

    closed spec fn view(&self) -> ResponseView {
        ResponseView {
            status: self.status@,
            articles: article_views(self.articles@),
            code: self.code.deep_view(),
        }
    }
}

/// The text under `key` in an object; `None` where `document` is no object,
/// has no such member, or has one that is no string.
pub open spec fn required_text(document: Json, key: Seq<char>) -> Option<Seq<char>> {
    match document.member(key) {
        Some(Json::Text(text)) => Some(text),
        _ => None,
    }
}

/// The text under `key` where it may be left out: a missing member and a
/// `null` both read as `Some(None)`, a string as itself, and anything else
/// does not fit (`None`).
pub open spec fn permitted_text(document: Json, key: Seq<char>) -> Option<Option<Seq<char>>> {
    match document.member(key) {
        None => Some(None),
        Some(Json::Null) => Some(None),
        Some(Json::Text(text)) => Some(Some(text)),
        Some(_) => None,
    }
}

/// The article that a document describes: an object with the strings
/// `title` and `url` and, if it has one, a `description` that is a string or
/// `null`. Other members are passed over.
pub open spec fn article_of(document: Json) -> Option<ArticleView> {
    match (
        required_text(document, "title"@),
        required_text(document, "url"@),
        permitted_text(document, "description"@),
    ) {
        (Some(title), Some(url), Some(description)) => Some(
            ArticleView { title, url, description },
        ),
        _ => None,
    }
}

/// The articles that a run of documents describes, in order; `None` as soon
/// as one of them is no article.
pub open spec fn articles_of(items: Seq<Json>) -> Option<Seq<ArticleView>> {
    if forall|i: int| 0 <= i < items.len() ==> (#[trigger] article_of(items[i])) is Some {
        Some(items.map_values(|item: Json| article_of(item).unwrap()))
    } else {
        None
    }
}

/// What a document amounts to as the service's answer.
pub enum Reading {
    /// An envelope with status "ok" and well-formed articles.
    Accepted(ResponseView),
    /// An envelope with another status; the code, if any, says why.
    Rejected(Option<Seq<char>>),
    /// No envelope.
    Malformed,
}

/// Reads a document as the service's answer.
///
/// An envelope is an object with a string `status` and, if it has one, a
/// `code` that is a string or `null`. Under status "ok" it must also have an
/// array `articles` of which every item is an article. Under any other
/// status `articles` is not looked at.
pub open spec fn reading(document: Json) -> Reading {
    match (required_text(document, "status"@), permitted_text(document, "code"@)) {
        (Some(status), Some(code)) => {
            if status == "ok"@ {
                match document.member("articles"@) {
                    Some(Json::Array(items)) => match articles_of(items) {
                        Some(articles) => Reading::Accepted(
                            ResponseView { status, articles, code },
                        ),
                        None => Reading::Malformed,
                    },
                    _ => Reading::Malformed,
                }
            } else {
                Reading::Rejected(code)
            }
        },
        _ => Reading::Malformed,
    }
}

/// Whether `result` is what a fetch returns for `reading`: the envelope
/// itself; `BadRequest` with the message for the code; `ArticleParseFailed`.
pub open spec fn is_outcome_of(
    result: Result<NewsAPIResponse, NewsApiError>,
    reading: Reading,
) -> bool {
    match reading {
        Reading::Accepted(envelope) => result matches Ok(response) && response@ == envelope,
        Reading::Rejected(code) => result matches Err(NewsApiError::BadRequest(reason))
            && reason@ == rejection_message(code),
        Reading::Malformed => result matches Err(NewsApiError::ArticleParseFailed(_)),
    }
}

/// The text under `key`, by `required_text`.
fn read_required(value: &Value, key: &str) -> (text: Option<String>)
    ensures
        text.deep_view() == required_text(document(*value), key@),
{
    match member(value, key) {
        Some(found) => match as_text(found) {
            Some(text) => Some(text.to_owned()),
            None => None,
        },
        None => None,
    }
}

/// The text under `key`, by `permitted_text`.
fn read_permitted(value: &Value, key: &str) -> (text: Option<Option<String>>)
    ensures
        match text {
            Some(found) => permitted_text(document(*value), key@) == Some(found.deep_view()),
            None => permitted_text(document(*value), key@) is None,
        },
{
    match member(value, key) {
        Some(found) => {
            if is_null(found) {
                Some(None)
            } else {
                match as_text(found) {
                    Some(text) => Some(Some(text.to_owned())),
                    None => None,
                }
            }
        },
        None => Some(None),
    }
}

impl Article {
    /// Reads one article out of a parsed document; `None` where the
    /// document describes none.
    pub fn from_value(value: &Value) -> (article: Option<Article>)
        ensures
            match article {
                Some(a) => article_of(document(*value)) == Some(a@),
                None => article_of(document(*value)) is None,
            },
    {
        let title = match read_required(value, "title") {
            Some(title) => title,
            None => return None,
        };
        let url = match read_required(value, "url") {
            Some(url) => url,
            None => return None,
        };
        let description = match read_permitted(value, "description") {
            Some(description) => description,
            None => return None,
        };
        Some(Article { title, url, description })
    }
}

/// Reads every item as an article, keeping the order; `None` where an item
/// is no article.
fn read_articles(items: &Vec<Value>) -> (articles: Option<Vec<Article>>)
    ensures
        match articles {
            Some(list) => articles_of(items@.map_values(|item: Value| document(item))) == Some(
                article_views(list@),
            ),
            None => articles_of(items@.map_values(|item: Value| document(item))) is None,
        },
{
    let ghost documents = items@.map_values(|item: Value| document(item));
    let mut list: Vec<Article> = Vec::new();
    let mut i: usize = 0;
    while i < items.len()
        invariant
            i <= items.len(),
            documents == items@.map_values(|item: Value| document(item)),
            list@.len() == i,
            forall|k: int| 0 <= k < i ==> article_of(#[trigger] documents[k]) == Some(list@[k]@),
        decreases items.len() - i,
    {
        match Article::from_value(&items[i]) {
            Some(article) => {
                list.push(article);
            },
            None => {
                assert(article_of(documents[i as int]) is None);
                return None;
            },
        }
        i += 1;
    }
    proof {
        assert forall|k: int| 0 <= k < documents.len() implies (#[trigger] article_of(
            documents[k],
        )) is Some by {}
        assert(documents.map_values(|item: Json| article_of(item).unwrap()) =~= article_views(
            list@,
        ));
    }
    Some(list)
}

impl NewsAPIResponse {
    /// The articles, in the order in which the service listed them.
    pub fn articles(&self) -> (articles: &Vec<Article>)
        ensures
            article_views(articles@) == self@.articles,
    {
        &self.articles
    }

    /// The status that the service gave, which is "ok".
    pub fn status(&self) -> (status: &str)
        ensures
            status@ == self@.status,
            status@ == "ok"@,
    {
        proof {
            use_type_invariant(self);
        }
        self.status.as_str()
    }

    /// The code that the service gave, `None` where it gave none.
    pub fn code(&self) -> (code: Option<&String>)
        ensures
            match code {
                Some(text) => self@.code == Some(text@),
                None => self@.code is None,
            },
    {
        self.code.as_ref()
    }

    /// Reads the service's answer out of a parsed document.
    ///
    /// An accepted envelope is returned as it stands. A rejected one gives
    /// `BadRequest` with the message for its code, and no articles,
    /// whatever the document lists. A document that is no envelope gives
    /// `ArticleParseFailed`.
    pub fn from_value(value: &Value) -> (result: Result<NewsAPIResponse, NewsApiError>)
        ensures
            is_outcome_of(result, reading(document(*value))),
            result matches Err(NewsApiError::ArticleParseFailed(failure)) ==> failure is Shape,
    {
        let status = match read_required(value, "status") {
            Some(status) => status,
            None => return Err(NewsApiError::ArticleParseFailed(ParseFailure::Shape)),
        };
        let code = match read_permitted(value, "code") {
            Some(code) => code,
            None => return Err(NewsApiError::ArticleParseFailed(ParseFailure::Shape)),
        };
        if status == "ok".to_owned() {
            let items = match member(value, "articles") {
                Some(found) => match as_items(found) {
                    Some(items) => items,
                    None => return Err(NewsApiError::ArticleParseFailed(ParseFailure::Shape)),
                },
                None => return Err(NewsApiError::ArticleParseFailed(ParseFailure::Shape)),
            };
            match read_articles(items) {
                Some(articles) => Ok(NewsAPIResponse { status, articles, code }),
                None => Err(NewsApiError::ArticleParseFailed(ParseFailure::Shape)),
            }
        } else {
            Err(map_response_err(code))
        }
    }
}

/// What decoding a body comes to, by what the body denotes.
pub open spec fn decoded(body: Seq<char>) -> Reading {
    match parsed(body) {
        Some(document) => reading(document),
        None => Reading::Malformed,
    }
}

/// Whether `result` is what decoding `body` returns: the outcome of what
/// the body comes to, where a failure to parse is one of syntax exactly if
/// the body denotes no document.
pub open spec fn is_decoding_of(
    result: Result<NewsAPIResponse, NewsApiError>,
    body: Seq<char>,
) -> bool {
    &&& is_outcome_of(result, decoded(body))
    &&& result matches Err(NewsApiError::ArticleParseFailed(failure)) ==> (failure is Syntax
        <==> parsed(body) is None)
}

/// Decodes a response body.
///
/// The body is parsed as JSON and read as the service's answer. A body that
/// is not JSON gives `ArticleParseFailed` with the parser's account of it;
/// the rest is as for `NewsAPIResponse::from_value`.
pub fn decode(body: &str) -> (result: Result<NewsAPIResponse, NewsApiError>)
    ensures
        is_decoding_of(result, body@),
{
    match parse(body) {
        Ok(value) => NewsAPIResponse::from_value(&value),
        Err(cause) => Err(NewsApiError::ArticleParseFailed(ParseFailure::Syntax(cause))),
    }
}

/// Whatever is accepted has the status "ok".
pub proof fn lemma_accepted_is_ok(document: Json)
    ensures
        reading(document) matches Reading::Accepted(envelope) ==> envelope.status == "ok"@,
{
}

/// An article keeps what its document holds: title and address are the
/// document's own strings, and the description is absent exactly where the
/// document has none or has `null`.
pub proof fn lemma_article_is_verbatim(document: Json)
    requires
        article_of(document) is Some,
    ensures
        document.member("title"@) == Some(Json::Text(article_of(document).unwrap().title)),
        document.member("url"@) == Some(Json::Text(article_of(document).unwrap().url)),
        match article_of(document).unwrap().description {
            Some(text) => document.member("description"@) == Some(Json::Text(text)),
            None => document.member("description"@) is None || document.member("description"@)
                == Some(Json::Null),
        },
{
}

/// A document without a title, or without an address, is no article.
pub proof fn lemma_article_needs_title_and_url(document: Json)
    requires
        document.member("title"@) is None || document.member("url"@) is None,
    ensures
        article_of(document) is None,
{
}

/// An envelope marked "ok" whose articles are all well formed is accepted
/// with as many articles as it lists, each in its place.
pub proof fn lemma_articles_keep_their_order(document: Json, items: Seq<Json>)
    requires
        required_text(document, "status"@) == Some("ok"@),
        permitted_text(document, "code"@) is Some,
        document.member("articles"@) == Some(Json::Array(items)),
        forall|i: int| 0 <= i < items.len() ==> (#[trigger] article_of(items[i])) is Some,
    ensures
        reading(document) matches Reading::Accepted(envelope) && envelope.articles.len()
            == items.len() && forall|i: int|
            0 <= i < items.len() ==> article_of(items[i]) == Some(#[trigger] envelope.articles[i]),
{
}

/// One item that is no article spoils the envelope: a document marked "ok"
/// that lists it is malformed, so no part of its list is ever returned.
pub proof fn lemma_no_partial_list(document: Json, items: Seq<Json>, i: int)
    requires
        required_text(document, "status"@) == Some("ok"@),
        document.member("articles"@) == Some(Json::Array(items)),
        0 <= i < items.len(),
        article_of(items[i]) is None,
    ensures
        reading(document) is Malformed,
{
}

/// Under a status other than "ok" nothing is accepted, whatever the
/// document lists as articles.
pub proof fn lemma_only_ok_is_accepted(document: Json)
    requires
        required_text(document, "status"@) != Some("ok"@),
    ensures
        !(reading(document) is Accepted),
{
}

/// The document that states an article.
pub open spec fn article_document(article: ArticleView) -> Json {
    Json::Object(
        map![
            "title"@ => Json::Text(article.title),
            "url"@ => Json::Text(article.url),
            "description"@ => match article.description {
                Some(text) => Json::Text(text),
                None => Json::Null,
            },
        ],
    )
}

/// The document that states an "ok" envelope with the given articles.
pub open spec fn envelope_document(articles: Seq<ArticleView>) -> Json {
    Json::Object(
        map![
            "status"@ => Json::Text("ok"@),
            "articles"@ => Json::Array(
                articles.map_values(|article: ArticleView| article_document(article)),
            ),
        ],
    )
}

/// Reading the document that states an article gives the article back.
pub proof fn lemma_article_round_trip(article: ArticleView)
    ensures
        article_of(article_document(article)) == Some(article),
{
    reveal_strlit("title");
    reveal_strlit("url");
    reveal_strlit("description");
    assert("title"@.len() == 5 && "url"@.len() == 3 && "description"@.len() == 11);
}

/// Reading the document that states an "ok" envelope gives back the same
/// articles, in the same order, and nothing else.
pub proof fn lemma_envelope_round_trip(articles: Seq<ArticleView>)
    ensures
        reading(envelope_document(articles)) == Reading::Accepted(
            ResponseView { status: "ok"@, articles, code: None },
        ),
{
    reveal_strlit("status");
    reveal_strlit("articles");
    reveal_strlit("code");
    assert("status"@.len() == 6 && "articles"@.len() == 8 && "code"@.len() == 4);
    let items = articles.map_values(|article: ArticleView| article_document(article));
    assert forall|i: int| 0 <= i < items.len() implies (#[trigger] article_of(items[i])) == Some(
        articles[i],
    ) by {
        lemma_article_round_trip(articles[i]);
    }
    assert(items.map_values(|item: Json| article_of(item).unwrap()) =~= articles);
}

} // verus!
