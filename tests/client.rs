use wordsapi::client::{API_BASE, MASHAPE_HOST};
use wordsapi::Client;
use wordsapi::RequestType;

#[test]
fn it_has_api_token() {
    let token = "TEST_TOKEN";
    let word_client = Client::new(token);
    assert_eq!(word_client.api_token, token);
}

#[test]
fn it_has_api_base() {
    let token = "TEST_TOKEN";
    let word_client = Client::new(token);
    assert_eq!(word_client.api_base, API_BASE);
}

#[test]
fn it_has_mashape_host() {
    let token = "TEST_TOKEN";
    let word_client = Client::new(token);
    assert_eq!(word_client.mashape_host, MASHAPE_HOST);
}

#[test]
fn it_makes_uri_everything() {
    let token = "TEST_TOKEN";
    let word_client = Client::new(token);
    let word = "example";
    let request_uri = word_client.request_url(word, &RequestType::Word);
    assert_eq!(
        request_uri,
        "https://wordsapiv1.p.mashape.com/words/example"
    );
}

#[test]
fn it_makes_uri_definitions() {
    let token = "TEST_TOKEN";
    let word_client = Client::new(token);
    let word = "example";
    let request_uri = word_client.request_url(word, &RequestType::Definitions);
    assert_eq!(
        request_uri,
        "https://wordsapiv1.p.mashape.com/words/example/definitions"
    );
}

#[test]
fn it_makes_uri_synonyms() {
    let token = "TEST_TOKEN";
    let word_client = Client::new(token);
    let word = "example";
    let request_uri = word_client.request_url(word, &RequestType::Synonyms);
    assert_eq!(
        request_uri,
        "https://wordsapiv1.p.mashape.com/words/example/synonyms"
    );
}

#[test]
fn it_makes_uri_antonyms() {
    let token = "TEST_TOKEN";
    let word_client = Client::new(token);
    let word = "example";
    let request_uri = word_client.request_url(word, &RequestType::Antonyms);
    assert_eq!(
        request_uri,
        "https://wordsapiv1.p.mashape.com/words/example/antonyms"
    );
}

#[test]
fn it_makes_uri_examples() {
    let token = "TEST_TOKEN";
    let word_client = Client::new(token);
    let word = "example";
    let request_uri = word_client.request_url(word, &RequestType::Examples);
    assert_eq!(
        request_uri,
        "https://wordsapiv1.p.mashape.com/words/example/examples"
    );
}

#[test]
fn it_makes_uri_rhymes() {
    let token = "TEST_TOKEN";
    let word_client = Client::new(token);
    let word = "example";
    let request_uri = word_client.request_url(word, &RequestType::Rhymes);
    assert_eq!(
        request_uri,
        "https://wordsapiv1.p.mashape.com/words/example/rhymes"
    );
}

#[test]
fn it_makes_uri_frequency() {
    let token = "TEST_TOKEN";
    let word_client = Client::new(token);
    let word = "example";
    let request_uri = word_client.request_url(word, &RequestType::Frequency);
    assert_eq!(
        request_uri,
        "https://wordsapiv1.p.mashape.com/words/example/frequency"
    );
}

#[test]
fn it_makes_uri_is_a_type_of() {
    let token = "TEST_TOKEN";
    let word_client = Client::new(token);
    let word = "example";
    let request_uri = word_client.request_url(word, &RequestType::IsATypeOf);
    assert_eq!(
        request_uri,
        "https://wordsapiv1.p.mashape.com/words/example/isATypeOf"
    );
}

#[test]
fn it_makes_uri_has_types() {
    let token = "TEST_TOKEN";
    let word_client = Client::new(token);
    let word = "example";
    let request_uri = word_client.request_url(word, &RequestType::HasTypes);
    assert_eq!(
        request_uri,
        "https://wordsapiv1.p.mashape.com/words/example/hasTypes"
    );
}

#[test]
fn it_makes_uri_part_of() {
    let token = "TEST_TOKEN";
    let word_client = Client::new(token);
    let word = "example";
    let request_uri = word_client.request_url(word, &RequestType::PartOf);
    assert_eq!(
        request_uri,
        "https://wordsapiv1.p.mashape.com/words/example/partOf"
    );
}

#[test]
fn it_makes_uri_has_parts() {
    let token = "TEST_TOKEN";
    let word_client = Client::new(token);
    let word = "example";
    let request_uri = word_client.request_url(word, &RequestType::HasParts);
    assert_eq!(
        request_uri,
        "https://wordsapiv1.p.mashape.com/words/example/hasParts"
    );
}

#[test]
fn it_makes_uri_is_an_instance_of() {
    let token = "TEST_TOKEN";
    let word_client = Client::new(token);
    let word = "example";
    let request_uri = word_client.request_url(word, &RequestType::IsAnInstanceOf);
    assert_eq!(
        request_uri,
        "https://wordsapiv1.p.mashape.com/words/example/isAnInstanceOf"
    );
}

#[test]
fn it_makes_uri_has_instances() {
    let token = "TEST_TOKEN";
    let word_client = Client::new(token);
    let word = "example";
    let request_uri = word_client.request_url(word, &RequestType::HasInstances);
    assert_eq!(
        request_uri,
        "https://wordsapiv1.p.mashape.com/words/example/hasInstances"
    );
}

#[test]
fn it_makes_uri_in_region() {
    let token = "TEST_TOKEN";
    let word_client = Client::new(token);
    let word = "example";
    let request_uri = word_client.request_url(word, &RequestType::InRegion);
    assert_eq!(
        request_uri,
        "https://wordsapiv1.p.mashape.com/words/example/inRegion"
    );
}

#[test]
fn it_makes_uri_region_of() {
    let token = "TEST_TOKEN";
    let word_client = Client::new(token);
    let word = "example";
    let request_uri = word_client.request_url(word, &RequestType::RegionOf);
    assert_eq!(
        request_uri,
        "https://wordsapiv1.p.mashape.com/words/example/regionOf"
    );
}

#[test]
fn it_makes_uri_usage_of() {
    let token = "TEST_TOKEN";
    let word_client = Client::new(token);
    let word = "example";
    let request_uri = word_client.request_url(word, &RequestType::UsageOf);
    assert_eq!(
        request_uri,
        "https://wordsapiv1.p.mashape.com/words/example/usageOf"
    );
}

#[test]
fn it_makes_uri_has_usages() {
    let token = "TEST_TOKEN";
    let word_client = Client::new(token);
    let word = "example";
    let request_uri = word_client.request_url(word, &RequestType::HasUsages);
    assert_eq!(
        request_uri,
        "https://wordsapiv1.p.mashape.com/words/example/hasUsages"
    );
}

#[test]
fn it_makes_uri_is_a_member_of() {
    let token = "TEST_TOKEN";
    let word_client = Client::new(token);
    let word = "example";
    let request_uri = word_client.request_url(word, &RequestType::IsAMemberOf);
    assert_eq!(
        request_uri,
        "https://wordsapiv1.p.mashape.com/words/example/isAMemberOf"
    );
}

#[test]
fn it_makes_uri_has_members() {
    let token = "TEST_TOKEN";
    let word_client = Client::new(token);
    let word = "example";
    let request_uri = word_client.request_url(word, &RequestType::HasMembers);
    assert_eq!(
        request_uri,
        "https://wordsapiv1.p.mashape.com/words/example/hasMembers"
    );
}

#[test]
fn it_makes_uri_is_a_substance_of() {
    let token = "TEST_TOKEN";
    let word_client = Client::new(token);
    let word = "example";
    let request_uri = word_client.request_url(word, &RequestType::IsASubstanceOf);
    assert_eq!(
        request_uri,
        "https://wordsapiv1.p.mashape.com/words/example/isASubstanceOf"
    );
}

#[test]
fn it_makes_uri_has_substances() {
    let token = "TEST_TOKEN";
    let word_client = Client::new(token);
    let word = "example";
    let request_uri = word_client.request_url(word, &RequestType::HasSubstances);
    assert_eq!(
        request_uri,
        "https://wordsapiv1.p.mashape.com/words/example/hasSubstances"
    );
}

#[test]
fn it_makes_uri_has_attribute() {
    let token = "TEST_TOKEN";
    let word_client = Client::new(token);
    let word = "example";
    let request_uri = word_client.request_url(word, &RequestType::HasAttribute);
    assert_eq!(
        request_uri,
        "https://wordsapiv1.p.mashape.com/words/example/hasAttribute"
    );
}

#[test]
fn it_makes_uri_in_category() {
    let token = "TEST_TOKEN";
    let word_client = Client::new(token);
    let word = "example";
    let request_uri = word_client.request_url(word, &RequestType::InCategory);
    assert_eq!(
        request_uri,
        "https://wordsapiv1.p.mashape.com/words/example/inCategory"
    );
}

#[test]
fn it_makes_uri_has_categories() {
    let token = "TEST_TOKEN";
    let word_client = Client::new(token);
    let word = "example";
    let request_uri = word_client.request_url(word, &RequestType::HasCategories);
    assert_eq!(
        request_uri,
        "https://wordsapiv1.p.mashape.com/words/example/hasCategories"
    );
}

#[test]
fn it_makes_uri_also() {
    let token = "TEST_TOKEN";
    let word_client = Client::new(token);
    let word = "example";
    let request_uri = word_client.request_url(word, &RequestType::Also);
    assert_eq!(
        request_uri,
        "https://wordsapiv1.p.mashape.com/words/example/also"
    );
}

#[test]
fn it_makes_uri_pertains_to() {
    let token = "TEST_TOKEN";
    let word_client = Client::new(token);
    let word = "example";
    let request_uri = word_client.request_url(word, &RequestType::PertainsTo);
    assert_eq!(
        request_uri,
        "https://wordsapiv1.p.mashape.com/words/example/pertainsTo"
    );
}

#[test]
fn it_makes_uri_similar_to() {
    let token = "TEST_TOKEN";
    let word_client = Client::new(token);
    let word = "example";
    let request_uri = word_client.request_url(word, &RequestType::SimilarTo);
    assert_eq!(
        request_uri,
        "https://wordsapiv1.p.mashape.com/words/example/similarTo"
    );
}

#[test]
fn it_makes_uri_entails() {
    let token = "TEST_TOKEN";
    let word_client = Client::new(token);
    let word = "example";
    let request_uri = word_client.request_url(word, &RequestType::Entails);
    assert_eq!(
        request_uri,
        "https://wordsapiv1.p.mashape.com/words/example/entails"
    );
}

#[test]
fn it_sends_token_and_host_headers() {
    let word_client = Client::new("TEST_TOKEN");
    let headers = word_client.request_headers();
    assert_eq!(
        headers,
        vec![
            ("x-mashape-key".to_string(), "TEST_TOKEN".to_string()),
            ("x-mashape-host".to_string(), "wordsapiv1.p.mashape.com".to_string()),
        ]
    );
}

#[test]
fn it_builds_url_from_any_base() {
    let word_client = Client {
        api_base: "http://localhost:8080/w/".to_string(),
        api_token: "t".to_string(),
        mashape_host: "localhost".to_string(),
    };
    assert_eq!(
        word_client.request_url("big", &RequestType::HasParts),
        "http://localhost:8080/w/big/hasParts"
    );
    assert_eq!(word_client.request_url("", &RequestType::Word), "http://localhost:8080/w/");
}

#[test]
fn suffix_is_empty_only_for_word() {
    let kinds = [
        RequestType::Word,
        RequestType::Definitions,
        RequestType::Synonyms,
        RequestType::Antonyms,
        RequestType::Examples,
        RequestType::Rhymes,
        RequestType::Frequency,
        RequestType::IsATypeOf,
        RequestType::HasTypes,
        RequestType::PartOf,
        RequestType::HasParts,
        RequestType::IsAnInstanceOf,
        RequestType::HasInstances,
        RequestType::InRegion,
        RequestType::RegionOf,
        RequestType::UsageOf,
        RequestType::HasUsages,
        RequestType::IsAMemberOf,
        RequestType::HasMembers,
        RequestType::IsASubstanceOf,
        RequestType::HasSubstances,
        RequestType::HasAttribute,
        RequestType::InCategory,
        RequestType::HasCategories,
        RequestType::Also,
        RequestType::PertainsTo,
        RequestType::SimilarTo,
        RequestType::Entails,
    ];
    let word_client = Client::new("TEST_TOKEN");
    for kind in kinds.iter() {
        let suffix = kind.suffix();
        assert_eq!(suffix.is_empty(), *kind == RequestType::Word);
        assert_eq!(
            word_client.request_url("example", kind),
            format!("{}example{}", API_BASE, suffix)
        );
    }
}
