use vstd::prelude::*;

use crate::request::{suffix_of, RequestType};

verus! {

/// The request header that carries the API token.
pub const X_MASHAPE_KEY: &'static str = "x-mashape-key";

/// The request header that names the API host.
pub const X_MASHAPE_HOST: &'static str = "x-mashape-host";

/// Where the service's word resources start.
pub const API_BASE: &'static str = "https://wordsapiv1.p.mashape.com/words/";

/// The host name that requests announce.
pub const MASHAPE_HOST: &'static str = "wordsapiv1.p.mashape.com";

/// The fixed configuration of a client of the service: the base of its
/// URLs, the API token and the host name sent with each request.
#[derive(Debug)]
pub struct Client {
    pub api_base: String,
    pub api_token: String,
    pub mashape_host: String,
}

/// The URL of a request: the base, the word as given, and the suffix of the
/// request's kind.
pub open spec fn request_url_of(api_base: Seq<char>, word: Seq<char>, kind: RequestType) -> Seq<char> {
    api_base + word + suffix_of(kind)
}

impl Client {
    /// A client with the service's own base and host and the given token.
    pub fn new(token: &str) -> (r: Client)
        ensures
            r.api_base@ == API_BASE@,
            r.api_token@ == token@,
            r.mashape_host@ == MASHAPE_HOST@,
    {
        Client {
            api_base: String::from_str(API_BASE),
            api_token: String::from_str(token),
            mashape_host: String::from_str(MASHAPE_HOST),
        }
    }

    /// The URL that looks up `word` for the given kind of request. The word
    /// is put in as it is, without percent-encoding.
    pub fn request_url(&self, word: &str, request_type: &RequestType) -> (r: String)
        ensures
            r@ == request_url_of(self.api_base@, word@, *request_type),
    {
        let mut url = self.api_base.clone();
        url.append(word);
        url.append(request_type.suffix());
        url
    }

    /// The two headers sent with every request, as pairs of name and value:
    /// the API token and the host name.
    pub fn request_headers(&self) -> (r: Vec<(String, String)>)
        ensures
            r@.len() == 2,
            r@[0].0@ == X_MASHAPE_KEY@,
            r@[0].1@ == self.api_token@,
            r@[1].0@ == X_MASHAPE_HOST@,
            r@[1].1@ == self.mashape_host@,
    {
        let mut headers: Vec<(String, String)> = Vec::new();
        headers.push((String::from_str(X_MASHAPE_KEY), self.api_token.clone()));
        headers.push((String::from_str(X_MASHAPE_HOST), self.mashape_host.clone()));
        headers
    }
}

} // verus!
