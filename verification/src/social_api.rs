//! The social endpoints' decisions: likes and comments on payments.
use crate::api::{error_reply, is_error_reply, ApiReply, ReplyBody};
use crate::ids::{parse_uuid, uuid_parsed};
use vstd::prelude::*;

verus! {

/// A like (or unlike) of a payment.
pub struct LikeRequest {
    pub payment_id: String,
}

/// A comment on a payment.
pub struct CommentRequest {
    pub payment_id: String,
    pub content: String,
}

/// A stored comment.
pub struct CommentResponse {
    pub id: String,
    pub username: String,
    pub content: String,
    pub created_at: String,
}

/// The like state of a payment after a like or an unlike.
#[derive(PartialEq, Eq, Structural, Clone, Copy, Debug)]
pub struct LikeSummary {
    pub success: bool,
    pub likes_count: usize,
    pub has_liked: bool,
}

/// Reads the payment id of a like, an unlike or a comment: a text that is
/// not a UUID is answered with 400 "Invalid payment ID".
pub fn payment_id_of(text: &str) -> (r: Result<u128, ApiReply>)
    ensures
        uuid_parsed(text@) matches Some(id) ==> r == Ok::<u128, ApiReply>(id),
        uuid_parsed(text@) is None ==> (r matches Err(rep) && is_error_reply(
            rep,
            400,
            "Invalid payment ID"@,
        )),
{
    match parse_uuid(text) {
        Some(id) => Ok(id),
        None => Err(error_reply(400, "Invalid payment ID")),
    }
}

/// Reads the id of a comment to delete: 400 "Invalid comment ID" when it is
/// not a UUID.
pub fn comment_id_of(text: &str) -> (r: Result<u128, ApiReply>)
    ensures
        uuid_parsed(text@) matches Some(id) ==> r == Ok::<u128, ApiReply>(id),
        uuid_parsed(text@) is None ==> (r matches Err(rep) && is_error_reply(
            rep,
            400,
            "Invalid comment ID"@,
        )),
{
    match parse_uuid(text) {
        Some(id) => Ok(id),
        None => Err(error_reply(400, "Invalid comment ID")),
    }
}

/// The answer after a like (`liked`) or an unlike, given the payment's like
/// count read afterwards.
pub fn like_summary(liked: bool, count: i64) -> (r: LikeSummary)
    ensures
        r == (LikeSummary { success: true, likes_count: count as usize, has_liked: liked }),
{
    LikeSummary { success: true, likes_count: count as usize, has_liked: liked }
}

/// The answer to deleting a comment of the user, given the rows deleted
/// (`Err` when the delete failed): 404 when the user has no such comment.
pub fn delete_comment_reply(deleted_rows: Result<u64, ()>) -> (r: ApiReply)
    ensures
        deleted_rows is Err ==> is_error_reply(r, 500, "Failed to delete comment"@),
        deleted_rows == Ok::<u64, ()>(0) ==> is_error_reply(
            r,
            404,
            "Comment not found or not authorized"@,
        ),
        forall|n: u64|
            n > 0 && deleted_rows == Ok::<u64, ()>(n) ==> r.status == 200 && r.body is Success,
{
    match deleted_rows {
        Err(()) => error_reply(500, "Failed to delete comment"),
        Ok(0) => error_reply(404, "Comment not found or not authorized"),
        Ok(_) => ApiReply { status: 200, body: ReplyBody::Success },
    }
}

} // verus!
