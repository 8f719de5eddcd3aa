use zaps::api::{ApiReply, ReplyBody};
use zaps::users_api::{
    friend_request_after_check, friend_request_after_insert, friend_request_after_lookup,
    friendship_decision_reply, FriendRequestStep, ProfileResponse, SearchQuery, UpdateProfileRequest,
};

fn error_of(r: &ApiReply) -> (u16, String) {
    match &r.body {
        ReplyBody::Error(m) => (r.status, m.clone()),
        _ => panic!("expected an error reply"),
    }
}

fn status_of(r: &ApiReply) -> (u16, String) {
    match &r.body {
        ReplyBody::Status(s) => (r.status, s.clone()),
        _ => panic!("expected a status reply"),
    }
}

#[test]
fn friend_request_flow() {
    match friend_request_after_lookup(1, Ok(None)) {
        FriendRequestStep::Reply(r) => assert_eq!(error_of(&r), (404, "User not found".to_string())),
        _ => panic!(),
    }
    match friend_request_after_lookup(1, Ok(Some(1))) {
        FriendRequestStep::Reply(r) => {
            assert_eq!(error_of(&r), (400, "Cannot send a friend request to yourself".to_string()))
        }
        _ => panic!(),
    }
    match friend_request_after_lookup(1, Err(())) {
        FriendRequestStep::Reply(r) => assert_eq!(r.status, 500),
        _ => panic!(),
    }
    match friend_request_after_lookup(1, Ok(Some(2))) {
        FriendRequestStep::CheckExisting { friend_id } => assert_eq!(friend_id, 2),
        _ => panic!(),
    }
    match friend_request_after_check(2, Ok(true)) {
        FriendRequestStep::Reply(r) => {
            assert_eq!(error_of(&r), (409, "Friend request already exists".to_string()))
        }
        _ => panic!(),
    }
    match friend_request_after_check(2, Ok(false)) {
        FriendRequestStep::Insert { friend_id } => assert_eq!(friend_id, 2),
        _ => panic!(),
    }
    assert_eq!(status_of(&friend_request_after_insert(true)), (201, "PENDING".to_string()));
    assert_eq!(
        error_of(&friend_request_after_insert(false)),
        (500, "Failed to send friend request".to_string())
    );
}

#[test]
fn accept_and_reject_replies() {
    assert_eq!(status_of(&friendship_decision_reply(true, Ok(1))), (200, "ACCEPTED".to_string()));
    assert_eq!(status_of(&friendship_decision_reply(false, Ok(1))), (200, "REJECTED".to_string()));
    assert_eq!(
        error_of(&friendship_decision_reply(true, Ok(0))),
        (404, "Pending friend request not found".to_string())
    );
    assert_eq!(friendship_decision_reply(false, Err(())).status, 500);
}

#[test]
fn profile_update_coalesces() {
    let p = ProfileResponse {
        address: "GA".to_string(),
        username: "ada".to_string(),
        display_name: Some("Ada".to_string()),
        bio: None,
        avatar_url: Some("a.png".to_string()),
    };
    let u = p.updated(UpdateProfileRequest {
        display_name: None,
        bio: Some("hi".to_string()),
        avatar_url: Some("b.png".to_string()),
    });
    assert_eq!(u.display_name.as_deref(), Some("Ada"));
    assert_eq!(u.bio.as_deref(), Some("hi"));
    assert_eq!(u.avatar_url.as_deref(), Some("b.png"));
    assert_eq!(u.username, "ada");
}

#[test]
fn search_plan_defaults() {
    let plan = SearchQuery { q: "ad".to_string(), limit: None, offset: None }.plan();
    assert_eq!(plan.pattern, "ad%");
    assert_eq!((plan.limit, plan.offset), (20, 0));
    let plan = SearchQuery { q: String::new(), limit: Some(5), offset: Some(10) }.plan();
    assert_eq!((plan.pattern.as_str(), plan.limit, plan.offset), ("%", 5, 10));
}
