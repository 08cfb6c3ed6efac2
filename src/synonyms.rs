use vstd::prelude::*;

use crate::json::{
    lookup, opt_texts_field, opt_views, optional_texts, required_text, text_field, FromJson, Json,
};
use crate::request::{HasRequestType, RequestType};

verus! {

/// A word with the list of its synonyms, as the `synonyms` relation returns it.
#[derive(Debug, PartialEq, Eq)]
pub struct Synonyms {
    pub word: String,
    pub synonyms: Option<Vec<String>>,
}

/// The characters of a [`Synonyms`] record.
pub struct SynonymsView {
    pub word: Seq<char>,
    pub synonyms: Option<Seq<Seq<char>>>,
}

impl View for Synonyms {
    type V = SynonymsView;

    open spec fn view(&self) -> SynonymsView {
        SynonymsView { word: self.word@, synonyms: opt_views(self.synonyms) }
    }
}

impl FromJson for Synonyms {
    /// An object with a string under `word` and, unless missing or null, an
    /// array of strings under `synonyms`; other members are ignored.
    /// Neither key may occur twice, and a record written as an array is not
    /// accepted.
    open spec fn from_json_spec(j: Json) -> Option<SynonymsView> {
        match j {
            Json::Object(fields) => {
                let word = text_field(lookup(fields@, "word"@));
                let synonyms = opt_texts_field(lookup(fields@, "synonyms"@));
                if word is Some && synonyms is Some {
                    Some(SynonymsView { word: word->0, synonyms: synonyms->0 })
                } else {
                    None
                }
            },
            _ => None,
        }
    }

    fn from_json(j: &Json) -> (r: Option<Synonyms>) {
        match j {
            Json::Object(fields) => {
                let word = required_text(fields, "word")?;
                let synonyms = optional_texts(fields, "synonyms")?;
                Some(Synonyms { word, synonyms })
            },
            _ => None,
        }
    }
}

impl HasRequestType for Synonyms {
    open spec fn kind() -> RequestType {
        RequestType::Synonyms
    }

    fn request_type() -> (r: RequestType) {
        RequestType::Synonyms
    }
}

} // verus!
