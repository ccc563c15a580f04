//! The query engine's request side: the anti-automation nonce, the form
//! fields of a GraphQL request, the fixed document ids and endpoints — and
//! its response side, the parse of a response body into a `Json` document.
//!
//! Sending the request is the embedding program's job; everything here is a
//! plain value it can hand to its transport.
use crate::error::SpoolsError;
use crate::json::{json_parse, parse_json_text, Json};
use crate::mapper::spec_map_user;
use vstd::prelude::*;
use vstd::string::*;

verus! {

/// Whether `c` may appear in a nonce: an ASCII letter or digit.
pub open spec fn is_nonce_char(c: char) -> bool {
    ||| 48 <= c as u32 <= 57
    ||| 65 <= c as u32 <= 90
    ||| 97 <= c as u32 <= 122
}

/// Relies on `fastrand::alphanumeric`: every outcome is one of the ASCII
/// characters `A`–`Z`, `a`–`z`, `0`–`9`. Nothing further is assumed of the
/// choice.
#[verifier::external_body]
fn random_alphanumeric() -> (r: char)
    ensures
        is_nonce_char(r),
{
    fastrand::alphanumeric()
}

/// Relies on `String::push`: appends exactly the given character.
#[verifier::external_body]
fn push_char(s: &mut String, c: char)
    ensures
        final(s)@ == old(s)@.push(c),
{
    s.push(c)
}

/// The length upstream expects of the anti-automation nonce.
pub const NONCE_LEN: usize = 11;

/// Draw a fresh nonce: eleven random alphanumeric characters. Nothing else
/// is promised — in particular not uniqueness, which upstream does not
/// check and correctness does not need.
pub fn make_nonce() -> (r: String)
    ensures
        r@.len() == NONCE_LEN,
        forall|i: int| 0 <= i < r@.len() ==> is_nonce_char(#[trigger] r@[i]),
{
    let mut s = String::new();
    let mut i: usize = 0;
    while i < NONCE_LEN
        invariant
            i <= NONCE_LEN,
            s@.len() == i,
            forall|j: int| 0 <= j < i ==> is_nonce_char(#[trigger] s@[j]),
        decreases NONCE_LEN - i,
    {
        let c = random_alphanumeric();
        push_char(&mut s, c);
        i += 1;
    }
    s
}

/// The static feature-flag fields the endpoint requires before it accepts a
/// request, exactly as they are sent (embedded whitespace included). They
/// are versionless from the caller's point of view.
pub open spec fn spec_feature_flags() -> Seq<char> {
    "\"__relay_internal__pv__BarcelonaIsLoggedInrelayprovider\":false,\"__relay_internal__pv__BarcelonaIsOriginalPostPillEnabledrelayprovider\":false,\"__relay_internal__pv__BarcelonaIsThreadContextHeaderEnabledrelayprovider\":false,\n    \t\"__relay_internal__pv__BarcelonaIsSableEnabledrelayprovider\":false,\"__relay_internal__pv__BarcelonaUseCometVideoPlaybackEnginerelayprovider\":false,\"__relay_internal__pv__BarcelonaOptionalCookiesEnabledrelayprovider\":true,\"__relay_internal__pv__BarcelonaShouldShowFediverseM075Featuresrelayprovider\":false"@
}

/// The static feature-flag fields, as request text.
pub fn feature_flags() -> (r: &'static str)
    ensures
        r@ == spec_feature_flags(),
{
    "\"__relay_internal__pv__BarcelonaIsLoggedInrelayprovider\":false,\"__relay_internal__pv__BarcelonaIsOriginalPostPillEnabledrelayprovider\":false,\"__relay_internal__pv__BarcelonaIsThreadContextHeaderEnabledrelayprovider\":false,\n    \t\"__relay_internal__pv__BarcelonaIsSableEnabledrelayprovider\":false,\"__relay_internal__pv__BarcelonaUseCometVideoPlaybackEnginerelayprovider\":false,\"__relay_internal__pv__BarcelonaOptionalCookiesEnabledrelayprovider\":true,\"__relay_internal__pv__BarcelonaShouldShowFediverseM075Featuresrelayprovider\":false"
}

/// The `variables` field of a request: the caller's fragment merged with
/// the static feature flags into one JSON object.
pub open spec fn spec_variables_payload(variables: Seq<char>) -> Seq<char> {
    "{"@ + variables + ","@ + spec_feature_flags() + "}"@
}

/// Merge a caller's variables fragment with the static feature flags.
pub fn variables_payload(variables: &str) -> (r: String)
    ensures
        r@ == spec_variables_payload(variables@),
{
    String::from_str("{").concat(variables).concat(",").concat(feature_flags()).concat("}")
}

/// The three form fields of a query: the nonce under `lsd`, the merged
/// variables, and the document id.
pub open spec fn spec_query_form(variables: Seq<char>, doc_id: Seq<char>, nonce: Seq<char>) -> Seq<
    (Seq<char>, Seq<char>),
> {
    seq![
        ("lsd"@, nonce),
        ("variables"@, spec_variables_payload(variables)),
        ("doc_id"@, doc_id),
    ]
}

/// Build the form fields of one query from the caller's variables fragment,
/// the document id, and the nonce the request will carry (which is also
/// sent as the `X-FB-LSD` header).
pub fn query_form(variables: &str, doc_id: &str, nonce: &str) -> (r: Vec<(String, String)>)
    ensures
        r.deep_view() == spec_query_form(variables@, doc_id@, nonce@),
{
    let mut form: Vec<(String, String)> = Vec::new();
    form.push((String::from_str("lsd"), String::from_str(nonce)));
    form.push((String::from_str("variables"), variables_payload(variables)));
    form.push((String::from_str("doc_id"), String::from_str(doc_id)));
    proof {
        assert(form.deep_view() =~= spec_query_form(variables@, doc_id@, nonce@));
    }
    form
}

/// The variables fragment of a user-lookup query.
pub fn username_variables(tag: &str) -> (r: String)
    ensures
        r@ == "\"username\":\""@ + tag@ + "\""@,
{
    String::from_str("\"username\":\"").concat(tag).concat("\"")
}

/// The variables fragment of the two user-enrichment queries, keyed by the
/// resolved numeric id.
pub fn user_id_variables(id: &str) -> (r: String)
    ensures
        r@ == "\"userID\":\""@ + id@ + "\""@,
{
    String::from_str("\"userID\":\"").concat(id).concat("\"")
}

/// The variables fragment of a post-thread query, keyed by the resolved
/// numeric post id.
pub fn post_id_variables(id: &str) -> (r: String)
    ensures
        r@ == "\"postID\":\""@ + id@ + "\""@,
{
    String::from_str("\"postID\":\"").concat(id).concat("\"")
}

/// The document id of the user-lookup query.
pub fn user_lookup_doc_id() -> (r: &'static str)
    ensures
        r@ == "7394812507255098"@,
{
    "7394812507255098"
}

/// The document id of the bio-link enrichment query.
pub fn user_links_doc_id() -> (r: &'static str)
    ensures
        r@ == "25253062544340717"@,
{
    "25253062544340717"
}

/// The document id of the user-posts enrichment query.
pub fn user_posts_doc_id() -> (r: &'static str)
    ensures
        r@ == "7357407954367176"@,
{
    "7357407954367176"
}

/// The document id of the post-thread query.
pub fn post_thread_doc_id() -> (r: &'static str)
    ensures
        r@ == "26262423843344977"@,
{
    "26262423843344977"
}

/// The single GraphQL endpoint every query is POSTed to.
pub fn graphql_endpoint() -> (r: &'static str)
    ensures
        r@ == "https://www.threads.net/api/graphql"@,
{
    "https://www.threads.net/api/graphql"
}

/// The canonical page URL of a post, fetched to scrape its numeric id.
pub fn post_page_url(code: &str) -> (r: String)
    ensures
        r@ == "https://www.threads.net/post/"@ + code@,
{
    String::from_str("https://www.threads.net/post/").concat(code)
}

/// The static headers every request carries: same-origin fetch metadata,
/// form encoding, and a fixed browser-like user agent.
pub fn default_headers() -> (r: Vec<(String, String)>)
    ensures
        r.deep_view() == seq![
            ("Sec-Fetch-Site"@, "same-origin"@),
            ("Content-Type"@, "x-www-form-urlencoded"@),
            (
                "User-Agent"@,
                "Mozilla/5.0 (X11; Linux x86_64; rv:125.0) Gecko/20100101 Firefox/125.0"@,
            ),
        ],
{
    let mut headers: Vec<(String, String)> = Vec::new();
    headers.push((String::from_str("Sec-Fetch-Site"), String::from_str("same-origin")));
    headers.push((String::from_str("Content-Type"), String::from_str("x-www-form-urlencoded")));
    headers.push(
        (
            String::from_str("User-Agent"),
            String::from_str("Mozilla/5.0 (X11; Linux x86_64; rv:125.0) Gecko/20100101 Firefox/125.0"),
        ),
    );
    proof {
        assert(headers.deep_view() =~= seq![
            ("Sec-Fetch-Site"@, "same-origin"@),
            ("Content-Type"@, "x-www-form-urlencoded"@),
            (
                "User-Agent"@,
                "Mozilla/5.0 (X11; Linux x86_64; rv:125.0) Gecko/20100101 Firefox/125.0"@,
            ),
        ]);
    }
    headers
}

/// Parse a response body into a document. Every JSON text parses to exactly
/// one document; a body that is no JSON is an invalid response.
pub fn parse_document(body: &str) -> (r: Result<Json, SpoolsError>)
    ensures
        match json_parse(body@) {
            Some(d) => r == Ok::<Json, SpoolsError>(d),
            None => r == Err::<Json, SpoolsError>(SpoolsError::InvalidResponse),
        },
{
    match parse_json_text(body) {
        Some(d) => Ok(d),
        None => Err(SpoolsError::InvalidResponse),
    }
}

/// Nonce uniqueness is not needed for correctness: the nonce reaches only
/// the `lsd` form field (and the matching header), never the variables or
/// the document id, and what a response maps to is a function of the
/// response body alone. So two queries issued with one nonce — or with two
/// — map identically whenever the endpoint answers them with identical
/// bodies.
pub proof fn lemma_nonce_reuse_harmless(
    variables: Seq<char>,
    doc_id: Seq<char>,
    nonce1: Seq<char>,
    nonce2: Seq<char>,
    body1: Seq<char>,
    body2: Seq<char>,
    links_doc: Json,
    posts_doc: Json,
)
    requires
        body1 == body2,
    ensures
        spec_query_form(variables, doc_id, nonce1)[1] == spec_query_form(
            variables,
            doc_id,
            nonce2,
        )[1],
        spec_query_form(variables, doc_id, nonce1)[2] == spec_query_form(
            variables,
            doc_id,
            nonce2,
        )[2],
        json_parse(body1) == json_parse(body2),
        match (json_parse(body1), json_parse(body2)) {
            (Some(d1), Some(d2)) => spec_map_user(d1, links_doc, posts_doc) == spec_map_user(
                d2,
                links_doc,
                posts_doc,
            ),
            (None, None) => true,
            _ => false,
        },
{
}

} // verus!
