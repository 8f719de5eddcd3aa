//! The user endpoints' decisions: profile updates, user search, and the
//! friend request workflow (send, accept, reject).
use crate::api::{error_reply, is_error_reply, is_status_reply, status_reply, ApiReply};
use vstd::prelude::*;

verus! {

/// Results per page of a search when the request names no limit.
pub const DEFAULT_SEARCH_LIMIT: i64 = 20;

/// A profile update: only the fields given change.
pub struct UpdateProfileRequest {
    pub display_name: Option<String>,
    pub bio: Option<String>,
    pub avatar_url: Option<String>,
}

/// A user's profile.
pub struct ProfileResponse {
    pub address: String,
    pub username: String,
    pub display_name: Option<String>,
    pub bio: Option<String>,
    pub avatar_url: Option<String>,
}

/// `new` where it is given, else `old` (SQL `COALESCE(new, old)`).
pub open spec fn coalesce(new: Option<String>, old: Option<String>) -> Option<String> {
    match new {
        Some(v) => Some(v),
        None => old,
    }
}

impl ProfileResponse {
    /// The profile after an update: each field given replaces the stored one.
    pub fn updated(self, update: UpdateProfileRequest) -> (r: ProfileResponse)
        ensures
            r.address == self.address,
            r.username == self.username,
            r.display_name == coalesce(update.display_name, self.display_name),
            r.bio == coalesce(update.bio, self.bio),
            r.avatar_url == coalesce(update.avatar_url, self.avatar_url),
    {
        ProfileResponse {
            address: self.address,
            username: self.username,
            display_name: match update.display_name {
                Some(v) => Some(v),
                None => self.display_name,
            },
            bio: match update.bio {
                Some(v) => Some(v),
                None => self.bio,
            },
            avatar_url: match update.avatar_url {
                Some(v) => Some(v),
                None => self.avatar_url,
            },
        }
    }
}

/// An update that gives no field leaves the profile as it was; updating
/// twice with the same request is the same as updating once.
pub proof fn lemma_profile_update_laws(old: Option<String>, new: Option<String>)
    ensures
        coalesce(None, old) == old,
        coalesce(new, coalesce(new, old)) == coalesce(new, old),
{
}

/// A user search: usernames or addresses that start with `q`.
pub struct SearchQuery {
    pub q: String,
    pub limit: Option<i64>,
    pub offset: Option<i64>,
}

/// One user in a search result or a friends list.
pub struct UserSearchItem {
    pub username: String,
    pub address: String,
    pub avatar_url: Option<String>,
}

/// The SQL `LIKE` pattern, limit and offset of a search.
pub struct SearchPlan {
    pub pattern: String,
    pub limit: i64,
    pub offset: i64,
}

impl SearchQuery {
    /// The pattern (`q` followed by `%`), the limit (default 20) and the
    /// offset (default 0) of the search.
    pub fn plan(&self) -> (r: SearchPlan)
        ensures
            r.pattern@ == self.q@ + "%"@,
            r.limit == (match self.limit {
                Some(l) => l,
                None => DEFAULT_SEARCH_LIMIT,
            }),
            r.offset == (match self.offset {
                Some(o) => o,
                None => 0,
            }),
    {
        let mut pattern = self.q.clone();
        pattern.append("%");
        SearchPlan {
            pattern,
            limit: match self.limit {
                Some(l) => l,
                None => DEFAULT_SEARCH_LIMIT,
            },
            offset: match self.offset {
                Some(o) => o,
                None => 0,
            },
        }
    }
}

/// A friend request to the user with this address.
pub struct FriendRequest {
    pub friend_address: String,
}

/// The next step of sending a friend request.
pub enum FriendRequestStep {
    /// Check whether a friendship record exists in either direction.
    CheckExisting { friend_id: u128 },
    /// Record a pending request from the sender to `friend_id`.
    Insert { friend_id: u128 },
    /// Answer now.
    Reply(ApiReply),
}

/// After looking up the addressee (`Err` when the lookup failed, `None` when
/// no user has the address): an unknown address is 404, a request to oneself
/// 400, else the existing records are checked.
pub fn friend_request_after_lookup(sender: u128, lookup: Result<Option<u128>, ()>) -> (r:
    FriendRequestStep)
    ensures
        lookup is Err ==> (r matches FriendRequestStep::Reply(rep) && is_error_reply(
            rep,
            500,
            "Internal database error"@,
        )),
        lookup == Ok::<Option<u128>, ()>(None) ==> (r matches FriendRequestStep::Reply(rep)
            && is_error_reply(rep, 404, "User not found"@)),
        lookup == Ok::<Option<u128>, ()>(Some(sender)) ==> (r matches FriendRequestStep::Reply(rep)
            && is_error_reply(rep, 400, "Cannot send a friend request to yourself"@)),
        forall|f: u128|
            f != sender && lookup == Ok::<Option<u128>, ()>(Some(f)) ==> r
                == (FriendRequestStep::CheckExisting { friend_id: f }),
{
    match lookup {
        Err(()) => FriendRequestStep::Reply(error_reply(500, "Internal database error")),
        Ok(None) => FriendRequestStep::Reply(error_reply(404, "User not found")),
        Ok(Some(f)) => {
            if f == sender {
                FriendRequestStep::Reply(
                    error_reply(400, "Cannot send a friend request to yourself"),
                )
            } else {
                FriendRequestStep::CheckExisting { friend_id: f }
            }
        },
    }
}

/// After checking for a record in either direction (`Err` when the check
/// failed): an existing record is 409, else the request is inserted.
pub fn friend_request_after_check(friend_id: u128, exists: Result<bool, ()>) -> (r:
    FriendRequestStep)
    ensures
        exists is Err ==> (r matches FriendRequestStep::Reply(rep) && is_error_reply(
            rep,
            500,
            "Internal database error"@,
        )),
        exists == Ok::<bool, ()>(true) ==> (r matches FriendRequestStep::Reply(rep)
            && is_error_reply(rep, 409, "Friend request already exists"@)),
        exists == Ok::<bool, ()>(false) ==> r == (FriendRequestStep::Insert { friend_id }),
{
    match exists {
        Err(()) => FriendRequestStep::Reply(error_reply(500, "Internal database error")),
        Ok(true) => FriendRequestStep::Reply(error_reply(409, "Friend request already exists")),
        Ok(false) => FriendRequestStep::Insert { friend_id },
    }
}

/// After inserting the request: 201 with status `PENDING`, or 500.
pub fn friend_request_after_insert(inserted: bool) -> (r: ApiReply)
    ensures
        inserted ==> is_status_reply(r, 201, "PENDING"@),
        !inserted ==> is_error_reply(r, 500, "Failed to send friend request"@),
{
    if inserted {
        status_reply(201, "PENDING")
    } else {
        error_reply(500, "Failed to send friend request")
    }
}

/// The answer to an accept (`accepted`) or a reject of a pending request,
/// given the rows the update changed (`Err` when it failed): 404 when no
/// pending request to the user had that id.
pub fn friendship_decision_reply(accepted: bool, updated_rows: Result<u64, ()>) -> (r: ApiReply)
    ensures
        updated_rows is Err ==> is_error_reply(r, 500, "Internal database error"@),
        updated_rows == Ok::<u64, ()>(0) ==> is_error_reply(
            r,
            404,
            "Pending friend request not found"@,
        ),
        forall|n: u64|
            n > 0 && updated_rows == Ok::<u64, ()>(n) ==> is_status_reply(
                r,
                200,
                if accepted {
                    "ACCEPTED"@
                } else {
                    "REJECTED"@
                },
            ),
{
    match updated_rows {
        Err(()) => error_reply(500, "Internal database error"),
        Ok(0) => error_reply(404, "Pending friend request not found"),
        Ok(_) => {
            if accepted {
                status_reply(200, "ACCEPTED")
            } else {
                status_reply(200, "REJECTED")
            }
        },
    }
}

} // verus!
