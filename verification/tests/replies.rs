use post_handlers::{Post, Response, Status};

#[test]
fn each_status_has_its_code() {
    assert_eq!(Status::Success.code(), 200);
    assert_eq!(Status::BadRequest.code(), 400);
    assert_eq!(Status::NotFound.code(), 404);
    assert_eq!(Status::InternalServerError.code(), 500);
}

#[test]
fn a_failure_is_the_message_under_error() {
    assert_eq!(
        Response::failure(Status::BadRequest, "no".to_string()),
        Response { status: Status::BadRequest, body: "{\"error\":\"no\"}".to_string() }
    );
    assert_eq!(
        Response::failure(Status::InternalServerError, String::new()),
        Response { status: Status::InternalServerError, body: "{\"error\":\"\"}".to_string() }
    );
}

#[test]
fn an_acknowledgement_is_the_message_under_message() {
    assert_eq!(
        Response::acknowledgement("yes"),
        Response { status: Status::Success, body: "{\"message\":\"yes\"}".to_string() }
    );
}

#[test]
fn a_bare_reply_has_no_body() {
    assert_eq!(
        Response::bare(Status::NotFound),
        Response { status: Status::NotFound, body: String::new() }
    );
}

#[test]
fn every_envelope_is_an_object_with_one_member() {
    let post = Post {
        id: 1,
        slug: "s".to_string(),
        title: "t".to_string(),
        body: "b".to_string(),
        category: "c".to_string(),
        tags: vec!["g".to_string()],
        created_at: 1,
        updated_at: 2,
    };
    let replies = [
        (Response::failure(Status::BadRequest, "m".to_string()), "error"),
        (Response::acknowledgement("m"), "message"),
        (Response::listing(&vec![post.clone(), post.clone()]), "posts"),
    ];
    for (reply, key) in replies {
        let document: serde_json::Value = serde_json::from_str(&reply.body).unwrap();
        let members = document.as_object().unwrap();
        assert_eq!(members.len(), 1);
        assert!(members.contains_key(key));
    }
    let shown = Response::detail(&post);
    assert_eq!(shown.status, Status::Success);
    assert_eq!(
        shown.body,
        "{\"body\":\"b\",\"category\":\"c\",\"created_at\":1,\"id\":1,\"slug\":\"s\",\"tags\":[\"g\"],\"title\":\"t\",\"updated_at\":2}"
    );
}
