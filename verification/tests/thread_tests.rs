//! Thread reconstruction tests: partitioning a flat item list, assembling a
//! full post, and scraping the numeric id out of a page.
use spools::client::{FetchAction, FetchPost};
use spools::partition::{map_post, partition};
use spools::resolve::extract_post_id;
use spools::{Author, Json, SpoolsError, Subpost, Types};

fn sp(code: &str, username: &str) -> Subpost {
    Subpost {
        code: code.to_string(),
        author: Author {
            username: username.to_string(),
            pfp: String::new(),
            verified: false,
        },
        date: 0,
        body: String::new(),
        media: vec![],
        likes: 0,
    }
}

fn item(code: &str, username: &str, reply_to: &str) -> (Subpost, String) {
    (sp(code, username), reply_to.to_string())
}

#[test]
fn partition_splits_parents_target_and_direct_replies() {
    let items = vec![
        item("A", "alice", ""),
        item("B", "bob", ""),
        item("X", "author_of_x", ""),
        item("C", "carol", "author_of_x"),
        item("D", "dave", "someone_else"),
    ];
    let (parents, target, replies) = partition(items, "X").unwrap();
    assert_eq!(parents, vec![sp("A", "alice"), sp("B", "bob")]);
    assert_eq!(target, sp("X", "author_of_x"));
    assert_eq!(replies, vec![sp("C", "carol")]);
}

#[test]
fn partition_without_the_code_is_not_found() {
    let items = vec![item("A", "alice", ""), item("B", "bob", "")];
    assert_eq!(partition(items, "X"), Err(SpoolsError::NotFound(Types::Post)));
}

#[test]
fn partition_duplicate_code_first_occurrence_wins() {
    // the second X is only a reply candidate, subject to the reply filter
    let items = vec![
        item("A", "alice", ""),
        item("X", "first_author", ""),
        item("X", "second_author", "first_author"),
        item("C", "carol", "second_author"),
    ];
    let (parents, target, replies) = partition(items, "X").unwrap();
    assert_eq!(parents, vec![sp("A", "alice")]);
    assert_eq!(target.author.username, "first_author");
    assert_eq!(replies, vec![sp("X", "second_author")]);
}

#[test]
fn partition_of_empty_list_is_not_found() {
    assert_eq!(partition(vec![], "X"), Err(SpoolsError::NotFound(Types::Post)));
}

fn s(x: &str) -> Json {
    Json::Str(x.to_string())
}

fn obj(pairs: Vec<(&str, Json)>) -> Json {
    Json::Obj(pairs.into_iter().map(|(k, v)| (k.to_string(), v)).collect())
}

fn thread_item(code: &str, username: &str, reply_to: Option<&str>) -> Json {
    let mut inner = vec![
        ("code", s(code)),
        ("user", obj(vec![("username", s(username))])),
        ("taken_at", Json::Num(7)),
    ];
    if let Some(r) = reply_to {
        inner.push((
            "text_post_app_info",
            obj(vec![("reply_to_author", obj(vec![("username", s(r))]))]),
        ));
    }
    obj(vec![("post", obj(inner))])
}

fn thread_doc(items: Vec<Json>) -> Json {
    let edge = obj(vec![("node", obj(vec![("thread_items", Json::Arr(items))]))]);
    obj(vec![("data", obj(vec![("data", obj(vec![("edges", Json::Arr(vec![edge]))]))]))])
}

#[test]
fn map_post_assembles_the_target_with_parents_and_replies() {
    let doc = thread_doc(vec![
        thread_item("A", "alice", None),
        thread_item("X", "xavier", None),
        thread_item("C", "carol", Some("xavier")),
        thread_item("D", "dave", Some("carol")),
    ]);
    let post = map_post(&doc, "314216314216".to_string(), "X").unwrap();
    assert_eq!(post.id, "314216314216");
    assert_eq!(post.author.username, "xavier");
    assert_eq!(post.date, 7);
    assert_eq!(post.parents.len(), 1);
    assert_eq!(post.parents[0].code, "A");
    assert_eq!(post.replies.len(), 1);
    assert_eq!(post.replies[0].code, "C");
}

#[test]
fn map_post_without_edges_reports_the_documents_error() {
    let doc = obj(vec![("errors", Json::Arr(vec![obj(vec![("summary", s("gone"))])]))]);
    assert_eq!(
        map_post(&doc, "1".to_string(), "X"),
        Err(SpoolsError::ResponseError("gone;".to_string()))
    );
    let bare = obj(vec![]);
    assert_eq!(map_post(&bare, "1".to_string(), "X"), Err(SpoolsError::InvalidResponse));
}

#[test]
fn map_post_missing_target_is_not_found() {
    let doc = thread_doc(vec![thread_item("A", "alice", None)]);
    assert_eq!(map_post(&doc, "1".to_string(), "X"), Err(SpoolsError::NotFound(Types::Post)));
}

#[test]
fn extract_post_id_reads_the_quoted_value() {
    let page = "<html><script>{\"post_id\":\"3141592653589\",\"x\":1}</script></html>";
    assert_eq!(extract_post_id(page), Ok("3141592653589".to_string()));
}

#[test]
fn page_without_marker_is_not_found() {
    let page = "<html><body>nothing embedded here</body></html>";
    assert_eq!(extract_post_id(page), Err(SpoolsError::NotFound(Types::Post)));
}

#[test]
fn marker_without_closing_quote_is_invalid() {
    let page = "junk \"post_id\":\"12345";
    assert_eq!(extract_post_id(page), Err(SpoolsError::InvalidResponse));
}

#[test]
fn marker_at_the_very_end_is_invalid() {
    let page = "tail post_id";
    assert_eq!(extract_post_id(page), Err(SpoolsError::InvalidResponse));
}

#[test]
fn fetch_post_machine_runs_on_fixture_bodies() {
    let mut state = FetchPost::start("X");
    // the machine first wants the post's page
    let url = match state.action("AAAAAAAAAAA") {
        FetchAction::FetchPage(u) => u,
        _ => panic!("expected a page fetch"),
    };
    assert_eq!(url, "https://www.threads.net/post/X");
    state = state.on_page("<html>{\"post_id\":\"271828\"}</html>");
    // then the thread query for the scraped id
    let form = match state.action("AAAAAAAAAAA") {
        FetchAction::SendQuery(f) => f,
        _ => panic!("expected a query"),
    };
    assert_eq!(form[1].0, "variables");
    assert!(form[1].1.starts_with("{\"postID\":\"271828\","));
    assert_eq!(form[2].1, "26262423843344977");
    // answer it with a fixture body: one parent, the target, one direct reply
    let body = "{\"data\":{\"data\":{\"edges\":[{\"node\":{\"thread_items\":[\
        {\"post\":{\"code\":\"A\",\"taken_at\":1,\"user\":{\"username\":\"alice\"}}},\
        {\"post\":{\"code\":\"X\",\"taken_at\":2,\"user\":{\"username\":\"xavier\"}}},\
        {\"post\":{\"code\":\"C\",\"taken_at\":3,\"user\":{\"username\":\"carol\"},\
          \"text_post_app_info\":{\"reply_to_author\":{\"username\":\"xavier\"}}}},\
        {\"post\":{\"code\":\"D\",\"taken_at\":4,\"user\":{\"username\":\"dave\"},\
          \"text_post_app_info\":{\"reply_to_author\":{\"username\":\"carol\"}}}}\
    ]}}]}}}";
    state = state.on_answer(body);
    // two internal steps: mapping, then partitioning
    assert!(matches!(state.action(""), FetchAction::Advance));
    state = state.advance();
    assert!(matches!(state.action(""), FetchAction::Advance));
    state = state.advance();
    assert!(matches!(state.action(""), FetchAction::Stop));
    let post = match state {
        FetchPost::Done(p) => p,
        _ => panic!("expected a finished fetch"),
    };
    assert_eq!(post.id, "271828");
    assert_eq!(post.author.username, "xavier");
    assert_eq!(post.parents.len(), 1);
    assert_eq!(post.parents[0].code, "A");
    assert_eq!(post.replies.len(), 1);
    assert_eq!(post.replies[0].code, "C");
}

#[test]
fn fetch_post_machine_fails_without_marker() {
    let state = FetchPost::start("X").on_page("<html>no id here</html>");
    assert!(matches!(state.action(""), FetchAction::Stop));
    assert!(matches!(state, FetchPost::Failed(SpoolsError::NotFound(Types::Post))));
}
