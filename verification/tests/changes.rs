use post_handlers::handlers::{read_post, read_post_id, reject, reply_to_change};
use post_handlers::{
    add_post, delete_post, update_post, Post, Response, Status, Step, StoreCall, Turn,
};

const BODY: &str = "{\"id\": 7, \"slug\": \"seven\", \"title\": \"Seven\", \"body\": \"text\", \"category\": \"numbers\", \"tags\": [\"odd\", \"prime\"], \"created_at\": 10, \"updated_at\": 20}";

fn seven() -> Post {
    Post {
        id: 7,
        slug: "seven".to_string(),
        title: "Seven".to_string(),
        body: "text".to_string(),
        category: "numbers".to_string(),
        tags: vec!["odd".to_string(), "prime".to_string()],
        created_at: 10,
        updated_at: 20,
    }
}

fn bad_request(message: &str) -> Step {
    let mut body = String::from("{\"error\":\"");
    body.push_str(message);
    body.push_str("\"}");
    Step::Reply(Response { status: Status::BadRequest, body })
}

fn done(message: &str) -> Step {
    let mut body = String::from("{\"message\":\"");
    body.push_str(message);
    body.push_str("\"}");
    Step::Reply(Response { status: Status::Success, body })
}

#[test]
fn add_asks_the_store_to_insert_the_post_of_the_body() {
    assert_eq!(add_post(Turn::Arrived(BODY.as_bytes().to_vec())), Step::Ask(StoreCall::Insert(seven())));
}

#[test]
fn add_with_a_body_that_is_not_json_is_a_bad_request() {
    let step = add_post(Turn::Arrived(b"not json".to_vec()));
    assert_eq!(step, bad_request("Failed to decode post: expected ident at line 1 column 2"));
    match step {
        Step::Reply(reply) => {
            assert_eq!(reply.status.code(), 400);
            let document: serde_json::Value = serde_json::from_str(&reply.body).unwrap();
            assert!(document.get("error").is_some());
        }
        Step::Ask(call) => panic!("asked for {:?}", call),
    }
}

#[test]
fn add_with_a_json_string_for_a_body_is_a_bad_request() {
    assert_eq!(
        add_post(Turn::Arrived(b"\"not json\"".to_vec())),
        bad_request("Failed to decode post: expected a JSON object")
    );
}

#[test]
fn add_with_an_empty_body_is_a_bad_request() {
    assert_eq!(
        add_post(Turn::Arrived(Vec::new())),
        bad_request("Failed to decode post: EOF while parsing a value at line 1 column 0")
    );
}

#[test]
fn add_with_text_after_the_document_is_a_bad_request() {
    let mut body = BODY.as_bytes().to_vec();
    body.extend_from_slice(b" x");
    match add_post(Turn::Arrived(body)) {
        Step::Reply(reply) => {
            assert_eq!(reply.status, Status::BadRequest);
            assert!(reply.body.starts_with("{\"error\":\"Failed to decode post: trailing characters"));
        }
        Step::Ask(call) => panic!("asked for {:?}", call),
    }
}

#[test]
fn add_with_a_missing_member_names_it() {
    let body = "{\"id\": 7, \"slug\": \"seven\"}";
    assert_eq!(
        add_post(Turn::Arrived(body.as_bytes().to_vec())),
        bad_request("Failed to decode post: missing field `title`")
    );
}

#[test]
fn add_that_the_store_carried_out_says_so() {
    let step = add_post(Turn::Answered(Ok(())));
    assert_eq!(
        step,
        Step::Reply(Response {
            status: Status::Success,
            body: "{\"message\":\"Post added successfully\"}".to_string(),
        })
    );
    assert_eq!(Status::Success.code(), 200);
}

#[test]
fn add_that_the_store_refused_is_a_bad_request() {
    assert_eq!(
        add_post(Turn::Answered(Err("Error { kind: Db, cause: None }".to_string()))),
        bad_request("Failed to decode token: Error { kind: Db, cause: None }")
    );
    assert_eq!(Status::BadRequest.code(), 400);
}

#[test]
fn delete_takes_the_identifier_from_the_body() {
    assert_eq!(delete_post(Turn::Arrived(BODY.as_bytes().to_vec())), Step::Ask(StoreCall::Delete(7)));
}

#[test]
fn delete_needs_no_more_than_the_identifier() {
    assert_eq!(delete_post(Turn::Arrived(b"{\"id\": 7}".to_vec())), Step::Ask(StoreCall::Delete(7)));
    assert_eq!(
        delete_post(Turn::Arrived(b"{\"id\": -2147483648, \"slug\": 5}".to_vec())),
        Step::Ask(StoreCall::Delete(-2147483648))
    );
}

#[test]
fn delete_of_a_post_that_the_store_lacks_is_a_bad_request() {
    assert_eq!(delete_post(Turn::Arrived(b"{\"id\": 7, \"slug\": \"seven\"}".to_vec())), Step::Ask(StoreCall::Delete(7)));
    let step = delete_post(Turn::Answered(Err("no post with id 7".to_string())));
    assert_eq!(step, bad_request("Failed to delete post: no post with id 7"));
    match step {
        Step::Reply(reply) => {
            assert_eq!(reply.status.code(), 400);
            let document: serde_json::Value = serde_json::from_str(&reply.body).unwrap();
            assert!(document.get("error").is_some());
        }
        Step::Ask(call) => panic!("asked for {:?}", call),
    }
}

#[test]
fn delete_without_an_identifier_is_a_bad_request() {
    assert_eq!(
        delete_post(Turn::Arrived(b"{\"slug\": \"seven\"}".to_vec())),
        bad_request("Failed to decode post: missing field `id`")
    );
    assert_eq!(
        delete_post(Turn::Arrived(b"{\"id\": \"7\"}".to_vec())),
        bad_request("Failed to decode post: invalid value for field `id`")
    );
    assert_eq!(
        delete_post(Turn::Arrived(b"[7]".to_vec())),
        bad_request("Failed to decode post: expected a JSON object")
    );
    assert_eq!(
        delete_post(Turn::Arrived(b"{\"id\": 7".to_vec())),
        bad_request("Failed to decode post: EOF while parsing an object at line 1 column 8")
    );
}

#[test]
fn delete_that_the_store_carried_out_says_so() {
    assert_eq!(delete_post(Turn::Answered(Ok(()))), done("Post deleted successfully"));
}

#[test]
fn update_hands_the_post_of_the_body_to_the_store() {
    assert_eq!(update_post(Turn::Arrived(BODY.as_bytes().to_vec())), Step::Ask(StoreCall::Update(seven())));
}

#[test]
fn update_never_changes_the_identifier() {
    for id in [i32::MIN, -1, 0, 1, 7, i32::MAX] {
        let body = format!(
            "{{\"id\": {}, \"slug\": \"s\", \"title\": \"t\", \"body\": \"b\", \"category\": \"c\", \"tags\": [], \"created_at\": 1, \"updated_at\": 2}}",
            id
        );
        match update_post(Turn::Arrived(body.clone().into_bytes())) {
            Step::Ask(StoreCall::Update(post)) => {
                assert_eq!(post.id, id);
                assert_eq!(read_post_id(body.as_bytes()), Ok(id));
            }
            other => panic!("decided {:?}", other),
        }
    }
}

#[test]
fn update_with_a_body_that_is_no_post_is_a_bad_request() {
    assert_eq!(
        update_post(Turn::Arrived(b"{\"id\": 7}".to_vec())),
        bad_request("Failed to decode post: missing field `slug`")
    );
    assert_eq!(
        update_post(Turn::Arrived(b"{".to_vec())),
        bad_request("Failed to decode post: EOF while parsing an object at line 1 column 1")
    );
}

#[test]
fn update_that_the_store_carried_out_says_so() {
    assert_eq!(update_post(Turn::Answered(Ok(()))), done("Post updated successfully"));
}

#[test]
fn update_that_the_store_refused_is_a_bad_request() {
    assert_eq!(
        update_post(Turn::Answered(Err("duplicate key value".to_string()))),
        bad_request("Failed to update post: duplicate key value")
    );
}

#[test]
fn a_handler_replies_once_the_store_has_answered() {
    for answer in [Ok(()), Err("x".to_string())] {
        assert!(matches!(add_post(Turn::Answered(answer.clone())), Step::Reply(_)));
        assert!(matches!(delete_post(Turn::Answered(answer.clone())), Step::Reply(_)));
        assert!(matches!(update_post(Turn::Answered(answer.clone())), Step::Reply(_)));
    }
}

#[test]
fn read_post_gives_the_post_or_the_reply() {
    assert_eq!(read_post(BODY.as_bytes()), Ok(seven()));
    assert_eq!(
        read_post(b"{\"id\": 7, \"slug\": 7}"),
        Err(Response {
            status: Status::BadRequest,
            body: "{\"error\":\"Failed to decode post: invalid value for field `slug`\"}".to_string(),
        })
    );
    assert_eq!(read_post_id(b"{\"id\": 2147483647}"), Ok(2147483647));
    assert_eq!(
        read_post_id(b"{\"id\": 2147483648}"),
        Err(Response {
            status: Status::BadRequest,
            body: "{\"error\":\"Failed to decode post: invalid value for field `id`\"}".to_string(),
        })
    );
}

#[test]
fn reject_puts_the_reason_behind_the_prefix() {
    assert_eq!(
        reject("why"),
        Response { status: Status::BadRequest, body: "{\"error\":\"Failed to decode post: why\"}".to_string() }
    );
}

#[test]
fn a_change_reply_succeeds_exactly_when_the_store_did() {
    assert_eq!(
        reply_to_change(&Ok(()), "Done", "Failed: "),
        Response { status: Status::Success, body: "{\"message\":\"Done\"}".to_string() }
    );
    assert_eq!(
        reply_to_change(&Err("because".to_string()), "Done", "Failed: "),
        Response { status: Status::BadRequest, body: "{\"error\":\"Failed: because\"}".to_string() }
    );
}

#[test]
fn add_with_bytes_that_are_no_text_is_a_bad_request() {
    match add_post(Turn::Arrived(vec![0xff, 0xfe, 0x00])) {
        Step::Reply(reply) => {
            assert_eq!(reply.status, Status::BadRequest);
            assert!(reply.body.starts_with("{\"error\":\"Failed to decode post: "));
        }
        Step::Ask(call) => panic!("asked for {:?}", call),
    }
    match add_post(Turn::Arrived(b"{\"id\": 7, \"slug\": \"\xff\"}".to_vec())) {
        Step::Reply(reply) => assert_eq!(reply.status, Status::BadRequest),
        Step::Ask(call) => panic!("asked for {:?}", call),
    }
}

#[test]
fn a_member_that_stands_twice_counts_as_its_last() {
    assert_eq!(
        delete_post(Turn::Arrived(b"{\"id\": 1, \"id\": 2}".to_vec())),
        Step::Ask(StoreCall::Delete(2))
    );
}

#[test]
fn a_body_may_spell_text_with_escapes() {
    let body = "{\"id\": 1, \"slug\": \"a\\u0062c\", \"title\": \"\\\"q\\\"\", \"body\": \"l1\\nl2\", \"category\": \"\", \"tags\": [\"\\u00e9\"], \"created_at\": -5, \"updated_at\": 0}";
    let expected = Post {
        id: 1,
        slug: "abc".to_string(),
        title: "\"q\"".to_string(),
        body: "l1\nl2".to_string(),
        category: String::new(),
        tags: vec!["\u{e9}".to_string()],
        created_at: -5,
        updated_at: 0,
    };
    assert_eq!(update_post(Turn::Arrived(body.as_bytes().to_vec())), Step::Ask(StoreCall::Update(expected)));
}
