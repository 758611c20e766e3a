use moviebay::api::handler::{
    bad_request, get_movie, get_movies, get_stream, json, not_found, Body, Encoded, Reply,
};
use moviebay::model::DbError;

fn headers(reply: &Reply) -> Vec<(&str, &str)> {
    reply.headers.iter().map(|(n, v)| (n.as_str(), v.as_str())).collect()
}

fn text(reply: &Reply) -> &str {
    match &reply.body {
        Body::Text(text) => text,
        other => panic!("unexpected body: {:?}", other),
    }
}

#[test]
fn json_has_its_headers() {
    let reply = json(Encoded::Json("[1,2]".to_owned()));
    assert_eq!(200, reply.status);
    assert_eq!(
        vec![("content-type", "application/json"), ("Access-Control-Allow-Origin", "*")],
        headers(&reply)
    );
    assert_eq!("[1,2]", text(&reply));
}

#[test]
fn a_value_that_cannot_be_encoded_is_a_failure() {
    let reply = json(Encoded::Failed);
    assert_eq!(500, reply.status);
    assert_eq!(vec![("Access-Control-Allow-Origin", "*")], headers(&reply));
    assert_eq!("INTERNAL_SERVER_ERROR", text(&reply));
    let reply = get_movies(Ok(Encoded::Failed));
    assert_eq!(500, reply.status);
    assert_eq!("INTERNAL_SERVER_ERROR", text(&reply));
}

#[test]
fn the_list_of_movies() {
    let reply = get_movies(Ok(Encoded::Json("[]".to_owned())));
    assert_eq!(200, reply.status);
    assert_eq!("[]", text(&reply));
    assert_eq!(2, reply.headers.len());
}

#[test]
fn an_error_of_the_database_is_a_failure() {
    let reply = get_movies(Err(DbError::Sqlite(rusqlite::Error::InvalidQuery)));
    assert_eq!(500, reply.status);
    assert_eq!(vec![("Access-Control-Allow-Origin", "*")], headers(&reply));
    assert_eq!("Custom Error", text(&reply));
    let reply = get_movie(Err(DbError::Database("gone".to_owned())));
    assert_eq!(500, reply.status);
    assert_eq!("Custom Error", text(&reply));
}

#[test]
fn one_movie_or_an_empty_body() {
    let reply = get_movie(Ok(Some(Encoded::Json("{\"id\":1}".to_owned()))));
    assert_eq!(200, reply.status);
    assert_eq!("{\"id\":1}", text(&reply));
    let reply = get_movie(Ok(None));
    assert_eq!(200, reply.status);
    assert!(matches!(reply.body, Body::Empty));
    assert_eq!(
        vec![("content-type", "application/json"), ("Access-Control-Allow-Origin", "*")],
        headers(&reply)
    );
    let reply = get_movie(Ok(Some(Encoded::Failed)));
    assert_eq!(500, reply.status);
}

#[test]
fn a_stream_or_a_failure_of_this_request() {
    let reply = get_stream(true);
    assert_eq!(200, reply.status);
    assert!(matches!(reply.body, Body::Stream));
    assert_eq!(
        vec![
            ("Content-Type", "video/mp4"),
            ("Content-Disposition", "inline"),
            ("Content-Transfer-Enconding", "binary")
        ],
        headers(&reply)
    );
    let reply = get_stream(false);
    assert_eq!(500, reply.status);
    assert_eq!("INTERNAL_SERVER_ERROR", text(&reply));
}

#[test]
fn unmatched_paths_are_not_found() {
    let reply = not_found();
    assert_eq!(404, reply.status);
    assert!(reply.headers.is_empty());
    assert_eq!("Not Found", text(&reply));
    let reply = bad_request();
    assert_eq!(400, reply.status);
    assert!(reply.headers.is_empty());
    assert_eq!("Bad Request", text(&reply));
}
