use vstd::prelude::*;

use crate::json::{
    lookup, opt_texts_field, opt_views, optional_texts, required_text, text_field, FromJson, Json,
};
use crate::request::{HasRequestType, RequestType};

verus! {

/// A word with the list of its antonyms, as the `antonyms` relation returns it.
#[derive(Debug, PartialEq, Eq)]
pub struct Antonyms {
    pub word: String,
    pub antonyms: Option<Vec<String>>,
}

/// The characters of a [`Antonyms`] record.
pub struct AntonymsView {
    pub word: Seq<char>,
    pub antonyms: Option<Seq<Seq<char>>>,
}

impl View for Antonyms {
    type V = AntonymsView;

    open spec fn view(&self) -> AntonymsView {
        AntonymsView { word: self.word@, antonyms: opt_views(self.antonyms) }
    }
}

impl FromJson for Antonyms {
    /// An object with a string under `word` and, unless missing or null, an
    /// array of strings under `antonyms`; other members are ignored.
    /// Neither key may occur twice, and a record written as an array is not
    /// accepted.
    open spec fn from_json_spec(j: Json) -> Option<AntonymsView> {
        match j {
            Json::Object(fields) => {
                let word = text_field(lookup(fields@, "word"@));
                let antonyms = opt_texts_field(lookup(fields@, "antonyms"@));
                if word is Some && antonyms is Some {
                    Some(AntonymsView { word: word->0, antonyms: antonyms->0 })
                } else {
                    None
                }
            },
            _ => None,
        }
    }

    fn from_json(j: &Json) -> (r: Option<Antonyms>) {
        match j {
            Json::Object(fields) => {
                let word = required_text(fields, "word")?;
                let antonyms = optional_texts(fields, "antonyms")?;
                Some(Antonyms { word, antonyms })
            },
            _ => None,
        }
    }
}

impl HasRequestType for Antonyms {
    open spec fn kind() -> RequestType {
        RequestType::Antonyms
    }

    fn request_type() -> (r: RequestType) {
        RequestType::Antonyms
    }
}

} // verus!
