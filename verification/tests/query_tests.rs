//! Query-engine tests: the nonce, the form fields of a request, response
//! parsing, and the error texts.
use spools::json::parse_u64;
use spools::query::{
    graphql_endpoint, make_nonce, parse_document, post_id_variables, post_page_url,
    post_thread_doc_id, query_form, user_id_variables, user_links_doc_id, user_lookup_doc_id,
    user_posts_doc_id, username_variables, variables_payload,
};
use spools::{Json, SpoolsError, Types};

#[test]
fn nonce_is_eleven_alphanumerics() {
    let nonce = make_nonce();
    assert_eq!(nonce.chars().count(), 11);
    for c in nonce.chars() {
        assert!(c.is_ascii_alphanumeric());
    }
}

#[test]
fn query_form_carries_nonce_variables_and_doc_id() {
    let form = query_form("\"username\":\"zuck\"", "7394812507255098", "AAAAAAAAAAA");
    assert_eq!(form.len(), 3);
    assert_eq!(form[0].0, "lsd");
    assert_eq!(form[0].1, "AAAAAAAAAAA");
    assert_eq!(form[1].0, "variables");
    assert_eq!(form[1].1, variables_payload("\"username\":\"zuck\""));
    assert!(form[1].1.starts_with("{\"username\":\"zuck\","));
    assert!(form[1].1.ends_with("\"__relay_internal__pv__BarcelonaShouldShowFediverseM075Featuresrelayprovider\":false}"));
    assert!(form[1].1.contains("\"__relay_internal__pv__BarcelonaOptionalCookiesEnabledrelayprovider\":true"));
    assert_eq!(form[2].0, "doc_id");
    assert_eq!(form[2].1, "7394812507255098");
}

#[test]
fn same_nonce_maps_same_body_identically() {
    let nonce = "AAAAAAAAAAA";
    let form1 = query_form("\"postID\":\"1\"", "26262423843344977", nonce);
    let form2 = query_form("\"postID\":\"1\"", "26262423843344977", nonce);
    assert_eq!(form1, form2);
    let body = "{\"data\":{\"xdt_user_by_username\":null}}";
    assert_eq!(parse_document(body), parse_document(body));
}

#[test]
fn variables_fragments_quote_their_argument() {
    assert_eq!(username_variables("zuck"), "\"username\":\"zuck\"");
    assert_eq!(user_id_variables("314216"), "\"userID\":\"314216\"");
    assert_eq!(post_id_variables("99"), "\"postID\":\"99\"");
}

#[test]
fn fixed_ids_and_endpoints() {
    assert_eq!(user_lookup_doc_id(), "7394812507255098");
    assert_eq!(user_links_doc_id(), "25253062544340717");
    assert_eq!(user_posts_doc_id(), "7357407954367176");
    assert_eq!(post_thread_doc_id(), "26262423843344977");
    assert_eq!(graphql_endpoint(), "https://www.threads.net/api/graphql");
    assert_eq!(post_page_url("AbC123"), "https://www.threads.net/post/AbC123");
}

#[test]
fn parse_document_decodes_plain_values() {
    let body = "{\"b\":\"x\",\"a\":7,\"c\":[true,null],\"d\":2.5}";
    let d = parse_document(body).unwrap();
    // object keys come back sorted; a non-integer number is kept opaque
    let expected = Json::Obj(vec![
        ("a".to_string(), Json::Num(7)),
        ("b".to_string(), Json::Str("x".to_string())),
        ("c".to_string(), Json::Arr(vec![Json::Bool(true), Json::Null])),
        ("d".to_string(), Json::NumOther),
    ]);
    assert_eq!(d, expected);
}

#[test]
fn parse_document_rejects_non_json() {
    assert_eq!(parse_document("<html>"), Err(SpoolsError::InvalidResponse));
    assert_eq!(parse_document(""), Err(SpoolsError::InvalidResponse));
}

#[test]
fn json_get_walks_paths() {
    let d = parse_document("{\"data\":{\"user\":{\"id\":\"5\"}}}").unwrap();
    let id = d.get2("data", "user").and_then(|u| u.get("id"));
    assert_eq!(id, Some(&Json::Str("5".to_string())));
    assert_eq!(d.get("missing"), None);
}

#[test]
fn parse_u64_reads_decimal_numerals() {
    assert_eq!(parse_u64("314216"), Some(314216));
    assert_eq!(parse_u64("0"), Some(0));
    assert_eq!(parse_u64("18446744073709551615"), Some(u64::MAX));
    assert_eq!(parse_u64("18446744073709551616"), None);
    assert_eq!(parse_u64(""), None);
    assert_eq!(parse_u64("12a"), None);
    assert_eq!(parse_u64("-5"), None);
}

#[test]
fn error_messages_name_the_failure() {
    assert_eq!(SpoolsError::NotFound(Types::Post).message(), "post not found");
    assert_eq!(SpoolsError::NotFound(Types::User).message(), "user not found");
    assert_eq!(SpoolsError::InvalidResponse.message(), "endpoint returned invalid response");
    assert_eq!(
        SpoolsError::ResponseError("rate limited;".to_string()).message(),
        "endpoint returned the following errors: rate limited;"
    );
    assert_eq!(
        SpoolsError::RequestError("timed out".to_string()).message(),
        "unable to fetch request: timed out"
    );
    assert_eq!(SpoolsError::ClientError.message(), "couldn't build client");
    assert_eq!(SpoolsError::SubpostError.message(), "couldn't build subpost");
}

#[test]
fn types_name_is_the_lowercase_noun() {
    assert_eq!(Types::Post.name(), "post");
    assert_eq!(Types::User.name(), "user");
}
