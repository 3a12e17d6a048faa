//! A client for a news headline service, with the state of the reader
//! application that shows what it fetches.
//!
//! The client builds the request of a fetch and decodes its answer; sending
//! the request is left to the caller, so that a blocking and a suspending
//! transport share every rule. Addresses are built by the `url` crate and
//! JSON is parsed by `serde_json`; what is assumed of the two stands in
//! `location` and `json`, and everything else is proved.

pub mod client;
pub mod error;
pub mod headlines;
pub mod json;
pub mod location;
pub mod response;

pub use client::{conclude, Country, Endpoint, NewsAPI, Request, TransportFailure};
pub use error::{NewsApiError, ParseFailure};
pub use headlines::{Headlines, HeadlinesConfig, Msg, NewsCardData, Screen};
pub use response::{decode, Article, NewsAPIResponse};
