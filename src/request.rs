use vstd::prelude::*;

verus! {

/// The lexical relations that the service can be asked for.
#[derive(Debug, Clone, Copy, PartialEq, Eq, Structural)]
pub enum RequestType {
    Word,
    Definitions,
    Synonyms,
    Antonyms,
    Examples,
    Rhymes,
    Frequency,
    IsATypeOf,
    HasTypes,
    PartOf,
    HasParts,
    IsAnInstanceOf,
    HasInstances,
    InRegion,
    RegionOf,
    UsageOf,
    HasUsages,
    IsAMemberOf,
    HasMembers,
    IsASubstanceOf,
    HasSubstances,
    HasAttribute,
    InCategory,
    HasCategories,
    Also,
    PertainsTo,
    SimilarTo,
    Entails,
}

/// The path that follows the word in the URL of a request of the given kind:
/// empty for the full record, `/` and the relation's name otherwise.
pub open spec fn suffix_of(kind: RequestType) -> Seq<char> {
    match kind {
        RequestType::Word => ""@,
        RequestType::Definitions => "/definitions"@,
        RequestType::Synonyms => "/synonyms"@,
        RequestType::Antonyms => "/antonyms"@,
        RequestType::Examples => "/examples"@,
        RequestType::Rhymes => "/rhymes"@,
        RequestType::Frequency => "/frequency"@,
        RequestType::IsATypeOf => "/isATypeOf"@,
        RequestType::HasTypes => "/hasTypes"@,
        RequestType::PartOf => "/partOf"@,
        RequestType::HasParts => "/hasParts"@,
        RequestType::IsAnInstanceOf => "/isAnInstanceOf"@,
        RequestType::HasInstances => "/hasInstances"@,
        RequestType::InRegion => "/inRegion"@,
        RequestType::RegionOf => "/regionOf"@,
        RequestType::UsageOf => "/usageOf"@,
        RequestType::HasUsages => "/hasUsages"@,
        RequestType::IsAMemberOf => "/isAMemberOf"@,
        RequestType::HasMembers => "/hasMembers"@,
        RequestType::IsASubstanceOf => "/isASubstanceOf"@,
        RequestType::HasSubstances => "/hasSubstances"@,
        RequestType::HasAttribute => "/hasAttribute"@,
        RequestType::InCategory => "/inCategory"@,
        RequestType::HasCategories => "/hasCategories"@,
        RequestType::Also => "/also"@,
        RequestType::PertainsTo => "/pertainsTo"@,
        RequestType::SimilarTo => "/similarTo"@,
        RequestType::Entails => "/entails"@,
    }
}

impl RequestType {
    /// The URL path suffix of this kind of request.
    pub fn suffix(&self) -> (r: &'static str)
        ensures
            r@ == suffix_of(*self),
    {
        match self {
            RequestType::Word => "",
            RequestType::Definitions => "/definitions",
            RequestType::Synonyms => "/synonyms",
            RequestType::Antonyms => "/antonyms",
            RequestType::Examples => "/examples",
            RequestType::Rhymes => "/rhymes",
            RequestType::Frequency => "/frequency",
            RequestType::IsATypeOf => "/isATypeOf",
            RequestType::HasTypes => "/hasTypes",
            RequestType::PartOf => "/partOf",
            RequestType::HasParts => "/hasParts",
            RequestType::IsAnInstanceOf => "/isAnInstanceOf",
            RequestType::HasInstances => "/hasInstances",
            RequestType::InRegion => "/inRegion",
            RequestType::RegionOf => "/regionOf",
            RequestType::UsageOf => "/usageOf",
            RequestType::HasUsages => "/hasUsages",
            RequestType::IsAMemberOf => "/isAMemberOf",
            RequestType::HasMembers => "/hasMembers",
            RequestType::IsASubstanceOf => "/isASubstanceOf",
            RequestType::HasSubstances => "/hasSubstances",
            RequestType::HasAttribute => "/hasAttribute",
            RequestType::InCategory => "/inCategory",
            RequestType::HasCategories => "/hasCategories",
            RequestType::Also => "/also",
            RequestType::PertainsTo => "/pertainsTo",
            RequestType::SimilarTo => "/similarTo",
            RequestType::Entails => "/entails",
        }
    }
}

/// The suffix is empty exactly for the full record, and every other suffix
/// is a `/` followed by a non-empty name.
pub proof fn lemma_suffix_shape(kind: RequestType)
    ensures
        (suffix_of(kind).len() == 0) == (kind == RequestType::Word),
        kind != RequestType::Word ==> suffix_of(kind).len() > 1 && suffix_of(kind)[0] == '/',
{
    reveal_strlit("");
    reveal_strlit("/definitions");
    reveal_strlit("/synonyms");
    reveal_strlit("/antonyms");
    reveal_strlit("/examples");
    reveal_strlit("/rhymes");
    reveal_strlit("/frequency");
    reveal_strlit("/isATypeOf");
    reveal_strlit("/hasTypes");
    reveal_strlit("/partOf");
    reveal_strlit("/hasParts");
    reveal_strlit("/isAnInstanceOf");
    reveal_strlit("/hasInstances");
    reveal_strlit("/inRegion");
    reveal_strlit("/regionOf");
    reveal_strlit("/usageOf");
    reveal_strlit("/hasUsages");
    reveal_strlit("/isAMemberOf");
    reveal_strlit("/hasMembers");
    reveal_strlit("/isASubstanceOf");
    reveal_strlit("/hasSubstances");
    reveal_strlit("/hasAttribute");
    reveal_strlit("/inCategory");
    reveal_strlit("/hasCategories");
    reveal_strlit("/also");
    reveal_strlit("/pertainsTo");
    reveal_strlit("/similarTo");
    reveal_strlit("/entails");
}

/// A record type that is fetched with a fixed kind of request.
pub trait HasRequestType {
    /// The kind of request that fetches this record.
    spec fn kind() -> RequestType;

    /// The kind of request that fetches this record.
    fn request_type() -> (r: RequestType)
        ensures
            r == Self::kind(),
    ;
}

} // verus!
