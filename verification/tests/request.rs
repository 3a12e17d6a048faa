use headlines::client::{AUTHORIZATION, BASE_URL};
use headlines::{Country, Endpoint, NewsAPI, NewsApiError};

#[test]
fn prepared_url_is_base_endpoint_and_country() {
    let api = NewsAPI::new("key");
    let url = api.prepare_url().unwrap();
    assert_eq!(url, "https://newsapi.org/v2/top-headlines?country=us");
}

#[test]
fn prepared_url_is_assembled_from_its_parts() {
    let api = NewsAPI::new("key");
    let url = api.prepare_url().unwrap();
    let expected = format!(
        "{}/{}?country={}",
        BASE_URL,
        Endpoint::TopHeadlines.to_string(),
        Country::Us.to_string()
    );
    assert_eq!(url, expected);
}

#[test]
fn prepared_url_has_exactly_one_query_parameter() {
    let url = NewsAPI::new("key").prepare_url().unwrap();
    assert_eq!(url.matches('?').count(), 1);
    assert_eq!(url.matches('&').count(), 0);
    assert_eq!(url.matches('#').count(), 0);
    let query = url.split('?').nth(1).unwrap();
    assert_eq!(query, "country=us");
}

#[test]
fn prepared_url_does_not_depend_on_the_credential() {
    let first = NewsAPI::new("one").prepare_url().unwrap();
    let second = NewsAPI::new("").prepare_url().unwrap();
    assert_eq!(first, second);
}

#[test]
fn builder_sets_endpoint_and_country_in_a_chain() {
    let mut api = NewsAPI::new("key");
    api.endpoint(Endpoint::TopHeadlines).country(Country::Us);
    assert_eq!(
        api.prepare_url().unwrap(),
        "https://newsapi.org/v2/top-headlines?country=us"
    );
}

#[test]
fn builder_calls_can_stand_alone() {
    let mut api = NewsAPI::new("key");
    api.country(Country::Us);
    api.endpoint(Endpoint::TopHeadlines);
    assert!(api.prepare_url().is_ok());
}

#[test]
fn request_carries_the_raw_credential() {
    let api = NewsAPI::new("SECRET-REDACTED");
    let request = api.request().unwrap();
    assert_eq!(request.url, "https://newsapi.org/v2/top-headlines?country=us");
    assert_eq!(request.authorization, "SECRET-REDACTED");
}

#[test]
fn request_does_not_touch_an_odd_credential() {
    let key = " Bearer a/b?c=d&e#f %20\u{e9} ";
    let request = NewsAPI::new(key).request().unwrap();
    assert_eq!(request.authorization, key);
}

#[test]
fn request_is_the_same_each_time() {
    let api = NewsAPI::new("key");
    let first = api.request().unwrap();
    let second = api.request().unwrap();
    assert_eq!(first.url, second.url);
    assert_eq!(first.authorization, second.authorization);
}

#[test]
fn authorization_header_name() {
    assert_eq!(AUTHORIZATION, "Authorization");
}

#[test]
fn endpoint_and_country_texts() {
    assert_eq!(Endpoint::TopHeadlines.to_string(), "top-headlines");
    assert_eq!(Endpoint::TopHeadlines.as_str(), "top-headlines");
    assert_eq!(Country::Us.to_string(), "us");
    assert_eq!(Country::Us.as_str(), "us");
}

#[test]
fn url_parsing_error_is_its_own_kind() {
    let error = NewsApiError::UrlParsing(url::ParseError::EmptyHost);
    assert!(matches!(error, NewsApiError::UrlParsing(_)));
    assert_eq!(error.message(), "Url parsing failed");
}
