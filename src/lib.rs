//! A client library for a dictionary web service: it builds request URLs for
//! a word and a lexical relation, reads the rate-limit counters of a reply and
//! decodes reply bodies into typed records.

pub mod antonyms;
pub mod client;
pub mod error;
pub mod json;
pub mod rate_limit;
pub mod request;
pub mod response;
pub mod synonyms;
pub mod word;

pub use self::antonyms::Antonyms;
pub use self::client::Client;
pub use self::error::RequestError;
pub use self::json::{FromJson, Json};
pub use self::request::{HasRequestType, RequestType};
pub use self::response::{try_parse, Response};
pub use self::synonyms::Synonyms;
pub use self::word::{Entry, Word};
