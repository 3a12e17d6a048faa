//! The client: which headlines to ask for, the request that asks for them,
//! and what to make of the answer.
//!
//! The client sends nothing itself. It describes the one request of a
//! fetch, and it turns what a transport brought back into the fetch's
//! result; the transport in between belongs to the caller.

use crate::error::{Cause, NewsApiError};
use crate::location::{
    is_made_of, is_plain, is_word, lemma_plain_with_segment, parse, push_segment, set_query,
    to_text,
};
use crate::response::{decode, is_decoding_of, NewsAPIResponse};
use vstd::prelude::*;
use vstd::string::StringExecFns;

verus! {

/// The root of the service, version included.
pub const BASE_URL: &'static str = "https://newsapi.org/v2";

/// The name of the header that carries the credential.
pub const AUTHORIZATION: &'static str = "Authorization";

/// A resource of the service.
#[derive(Debug, Clone, Copy, PartialEq, Eq, Structural)]
pub enum Endpoint {
    TopHeadlines,
}

impl Endpoint {
    /// The path segment that names the resource.
    pub open spec fn text(self) -> Seq<char> {
        match self {
            Endpoint::TopHeadlines => "top-headlines"@,
        }
    }

    /// The name of the resource, as it stands in an address.
    pub fn as_str(&self) -> (text: &'static str)
        ensures
            text@ == self.text(),
    {
        match self {
            Endpoint::TopHeadlines => "top-headlines",
        }
    }

    /// The same name, owned.
    pub fn to_string(&self) -> (text: String)
        ensures
            text@ == self.text(),
    {
        self.as_str().to_owned()
    }

    /// Every endpoint is named by a word, so it enters an address as it is.
    pub proof fn lemma_text_is_word(self)
        ensures
            is_word(self.text()),
            self.text().len() <= 16,
    {
        reveal_strlit("top-headlines");
    }
}

/// A region whose headlines the service has.
#[derive(Debug, Clone, Copy, PartialEq, Eq, Structural)]
pub enum Country {
    Us,
}

impl Country {
    /// The value of the `country` parameter that selects the region.
    pub open spec fn text(self) -> Seq<char> {
        match self {
            Country::Us => "us"@,
        }
    }

    /// The name of the region, as it stands in a query.
    pub fn as_str(&self) -> (text: &'static str)
        ensures
            text@ == self.text(),
    {
        match self {
            Country::Us => "us",
        }
    }

    /// The same name, owned.
    pub fn to_string(&self) -> (text: String)
        ensures
            text@ == self.text(),
    {
        self.as_str().to_owned()
    }

    /// Every region is named by a word, so it enters a query as it is.
    pub proof fn lemma_text_is_word(self)
        ensures
            is_word(self.text()),
            self.text().len() <= 16,
    {
        reveal_strlit("us");
    }
}

/// The address to fetch from: the root, the endpoint as one more path
/// segment, and the region as the only query parameter.
pub open spec fn address(endpoint: Endpoint, country: Country) -> Seq<char> {
    BASE_URL@ + seq!['/'] + endpoint.text() + seq!['?'] + "country="@ + country.text()
}

/// The root of the service is a plain address.
pub proof fn lemma_base_is_plain()
    ensures
        is_plain(BASE_URL@),
        BASE_URL@.len() == 22,
{
    reveal_strlit("https://newsapi.org/v2");
    reveal_strlit("https://");
    reveal_strlit("newsapi.org");
    reveal_strlit("/v2");
    assert(BASE_URL@ =~= "https://"@ + "newsapi.org"@ + "/v2"@);
    assert(is_made_of(BASE_URL@, "newsapi.org"@, "/v2"@));
}

/// An address has exactly one query parameter: one question mark, after
/// the endpoint, then `country=` and the region, and no `&` or `#` anywhere.
pub proof fn lemma_one_query_parameter(endpoint: Endpoint, country: Country)
    ensures
        ({
            let url = address(endpoint, country);
            let mark = (BASE_URL@.len() + 1 + endpoint.text().len()) as int;
            &&& 0 <= mark < url.len()
            &&& url[mark] == '?'
            &&& url.subrange(0, mark) == BASE_URL@ + seq!['/'] + endpoint.text()
            &&& url.subrange(mark + 1, url.len() as int) == "country="@ + country.text()
            &&& forall|i: int| 0 <= i < url.len() && i != mark ==> url[i] != '?'
            &&& forall|i: int| 0 <= i < url.len() ==> url[i] != '&' && url[i] != '#'
        }),
{
    reveal_strlit("https://newsapi.org/v2");
    reveal_strlit("country=");
    endpoint.lemma_text_is_word();
    country.lemma_text_is_word();
    let url = address(endpoint, country);
    let mark = (BASE_URL@.len() + 1 + endpoint.text().len()) as int;
    let head = BASE_URL@ + seq!['/'] + endpoint.text();
    let tail = "country="@ + country.text();
    assert(url =~= head + seq!['?'] + tail);
    assert(url.subrange(0, mark) =~= head);
    assert(url.subrange(mark + 1, url.len() as int) =~= tail);
    assert forall|i: int| 0 <= i < url.len() && i != mark implies url[i] != '?' && url[i] != '&'
        && url[i] != '#' by {
        if i < 22 {
            assert(url[i] == BASE_URL@[i]);
        } else if i == 22 {
        } else if i < mark {
            assert(url[i] == endpoint.text()[i - 23]);
        } else if i < mark + 9 {
            assert(url[i] == "country="@[i - mark - 1]);
        } else {
            assert(url[i] == country.text()[i - mark - 9]);
        }
    }
}

/// What a client is set to.
pub struct ClientView {
    pub api_key: Seq<char>,
    pub endpoint: Endpoint,
    pub country: Country,
}

/// The credential and the choice of headlines that go into each fetch.
pub struct NewsAPI {
    api_key: String,
    endpoint: Endpoint,
    country: Country,
}

impl View for NewsAPI {
    type V = ClientView;

    closed spec fn view(&self) -> ClientView {
        ClientView { api_key: self.api_key@, endpoint: self.endpoint, country: self.country }
    }
}

/// The one request of a fetch: a GET of `url` without a body, with the
/// header `Authorization` set to `authorization`.
#[derive(Debug)]
pub struct Request {
    pub url: String,
    pub authorization: String,
}

/// How a transport failed to bring a response body, with the cause it gave.
#[derive(Debug)]
pub enum TransportFailure {
    /// The blocking transport could not complete the request.
    RequestFailed(Cause),
    /// The blocking transport got a response that it could not read as text.
    FailedResponseToString(Cause),
    /// The suspending transport could not complete the request.
    AsyncRequestFailed(Cause),
}

impl NewsAPI {
    /// A client for the top headlines of the United States.
    pub fn new(api_key: &str) -> (client: NewsAPI)
        ensures
            client@ == (ClientView {
                api_key: api_key@,
                endpoint: Endpoint::TopHeadlines,
                country: Country::Us,
            }),
    {
        NewsAPI {
            api_key: api_key.to_owned(),
            endpoint: Endpoint::TopHeadlines,
            country: Country::Us,
        }
    }

    /// Selects the endpoint, and hands the client back for the next setting.
    pub fn endpoint(&mut self, endpoint: Endpoint) -> (client: &mut NewsAPI)
        ensures
            client@ == (ClientView { endpoint, ..old(self)@ }),
            *final(self) == *final(client),
    {
        self.endpoint = endpoint;
        self
    }

    /// Selects the region, and hands the client back for the next setting.
    pub fn country(&mut self, country: Country) -> (client: &mut NewsAPI)
        ensures
            client@ == (ClientView { country, ..old(self)@ }),
            *final(self) == *final(client),
    {
        self.country = country;
        self
    }

    /// The address that the client's settings select.
    ///
    /// The root of the service is a constant that parses, so this returns
    /// `Ok` for every setting; `UrlParsing` is kept for a root that would
    /// not.
    pub fn prepare_url(&self) -> (result: Result<String, NewsApiError>)
        ensures
            result matches Ok(url) && url@ == address(self@.endpoint, self@.country),
    {
        proof {
            lemma_base_is_plain();
            self.endpoint.lemma_text_is_word();
            self.country.lemma_text_is_word();
            lemma_plain_with_segment(BASE_URL@, self.endpoint.text());
        }
        let mut url = match parse(BASE_URL) {
            Ok(url) => url,
            Err(cause) => return Err(NewsApiError::UrlParsing(cause)),
        };
        push_segment(&mut url, self.endpoint.as_str());
        let country = "country=".to_owned().concat(self.country.as_str());
        proof {
            reveal_strlit("country=");
        }
        set_query(&mut url, country.as_str());
        let text = to_text(&url);
        assert(text@ =~= address(self@.endpoint, self@.country));
        Ok(text)
    }

    /// The request that a fetch sends: the prepared address, and the
    /// credential as it was given, with no prefix and no encoding.
    pub fn request(&self) -> (result: Result<Request, NewsApiError>)
        ensures
            result matches Ok(request) && request.url@ == address(self@.endpoint, self@.country)
                && request.authorization@ == self@.api_key,
    {
        let url = match self.prepare_url() {
            Ok(url) => url,
            Err(error) => return Err(error),
        };
        Ok(Request { url, authorization: self.api_key.clone() })
    }
}

impl TransportFailure {
    /// The error that reports the failure, with the same cause.
    pub open spec fn as_error(self) -> NewsApiError {
        match self {
            TransportFailure::RequestFailed(cause) => NewsApiError::RequestFailed(cause),
            TransportFailure::FailedResponseToString(cause) => NewsApiError::FailedResponseToString(
                cause,
            ),
            TransportFailure::AsyncRequestFailed(cause) => NewsApiError::AsyncRequestFailed(cause),
        }
    }

    /// Turns the failure into the error that reports it.
    pub fn into_error(self) -> (error: NewsApiError)
        ensures
            error == self.as_error(),
    {
        match self {
            TransportFailure::RequestFailed(cause) => NewsApiError::RequestFailed(cause),
            TransportFailure::FailedResponseToString(cause) => NewsApiError::FailedResponseToString(
                cause,
            ),
            TransportFailure::AsyncRequestFailed(cause) => NewsApiError::AsyncRequestFailed(cause),
        }
    }
}

/// Ends a fetch with what the transport brought back.
///
/// A failure of the transport is reported as it is, and no body is looked
/// at. A body is decoded, whatever status line it came under.
pub fn conclude(reply: Result<String, TransportFailure>) -> (result: Result<
    NewsAPIResponse,
    NewsApiError,
>)
    ensures
        match reply {
            Ok(body) => is_decoding_of(result, body@),
            Err(failure) => result matches Err(error) && error == failure.as_error(),
        },
{
    match reply {
        Ok(body) => decode(body.as_str()),
        Err(failure) => Err(failure.into_error()),
    }
}

} // verus!
