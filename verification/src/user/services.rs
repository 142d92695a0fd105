//! The rules of profiles and friendships. Each function takes the records
//! that were read from the store and answers with the writes to perform or
//! with the error to send.

use crate::user::models::{
    MessageInfo, User, UserPrivate, UserPublic, UserPublicFriend, UserResponse,
};
use crate::user::payload::UserUpdatePayload;
use crate::user::utils::{find_user, Reference, StoreError, UserUpdate};
use crate::utils::error::{
    error_response, ApiError, BAD_REQUEST, INTERNAL_SERVER_ERROR, NOT_FOUND,
};
use crate::utils::text::{
    clone_opt, contains_text, same_text, texts, with_text, without_text,
};
use vstd::prelude::*;

verus! {

/// Whether `list` names the user `id`.
pub open spec fn names(list: Vec<String>, id: Seq<char>) -> bool {
    texts(list@).contains(id)
}

/// `list` without the user `id`.
pub open spec fn dropped(list: Vec<String>, id: Seq<char>) -> Seq<Seq<char>> {
    texts(list@).filter(|other: Seq<char>| other != id)
}

/// `list` with the user `id` at its end.
pub open spec fn added(list: Vec<String>, id: Seq<char>) -> Seq<Seq<char>> {
    texts(list@).push(id)
}

/// The two writes that a change to a friendship consists of: first to the
/// record of the user who asked, then to the other's.
#[derive(Debug)]
pub struct FriendshipChange {
    pub user: UserUpdate,
    pub friend: UserUpdate,
}

/// What became of a friend request.
#[derive(Debug)]
pub enum FriendRequest {
    /// The request was recorded on both sides.
    Sent(FriendshipChange),
    /// The other user had already asked: the two are friends now.
    AutoAccepted(FriendshipChange),
}

impl FriendRequest {
    /// The message that tells the user what happened.
    pub open spec fn notice(self) -> Seq<char> {
        match self {
            FriendRequest::Sent(_) => "Friend request sent!"@,
            FriendRequest::AutoAccepted(_) => "Friendship auto-accepted (mutual request)"@,
        }
    }

    /// The message that tells the user what happened.
    pub fn message(&self) -> (text: &'static str)
        ensures
            text@ == self.notice(),
    {
        match self {
            FriendRequest::Sent(_) => "Friend request sent!",
            FriendRequest::AutoAccepted(_) => "Friendship auto-accepted (mutual request)",
        }
    }
}

/// Why `user` may not accept a request of `friend`, as status and message.
pub open spec fn acceptance_refusal(user: User, friend: User) -> Option<(u16, Seq<char>)> {
    if user.uuid@ == friend.uuid@ {
        Some((BAD_REQUEST, "Cannot accept friend request from yourself"@))
    } else if !names(user.friends_requests, friend.uuid@) {
        Some((NOT_FOUND, "Friend request not found"@))
    } else if !names(friend.pending_friend_requests, user.uuid@) {
        Some((NOT_FOUND, "Friend request not found on friend's side"@))
    } else {
        None
    }
}

/// Whether `change` makes `user` and `friend` friends: the request leaves the
/// lists it stood in and each is added to the other's friends.
pub open spec fn is_acceptance(change: FriendshipChange, user: User, friend: User) -> bool {
    &&& change.user.sets_two(
        user.uuid@,
        "friends_requests"@,
        dropped(user.friends_requests, friend.uuid@),
        "friends"@,
        added(user.friends, friend.uuid@),
    )
    &&& change.friend.sets_two(
        friend.uuid@,
        "pending_friend_requests"@,
        dropped(friend.pending_friend_requests, user.uuid@),
        "friends"@,
        added(friend.friends, user.uuid@),
    )
}

/// `user` accepts the request that `friend` sent.
pub fn accept_friendship(user: &User, friend: &User) -> (accepted: Result<
    FriendshipChange,
    ApiError,
>)
    ensures
        match acceptance_refusal(*user, *friend) {
            Some(refusal) => accepted matches Err(error) && error.says(refusal.0, refusal.1),
            None => accepted matches Ok(change) && is_acceptance(change, *user, *friend),
        },
{
    let user_id = user.uuid.as_str();
    let friend_id = friend.uuid.as_str();
    if same_text(user_id, friend_id) {
        return Err(error_response(BAD_REQUEST, Some("Cannot accept friend request from yourself")));
    }
    if !contains_text(&user.friends_requests, friend_id) {
        return Err(error_response(NOT_FOUND, Some("Friend request not found")));
    }
    if !contains_text(&friend.pending_friend_requests, user_id) {
        return Err(error_response(NOT_FOUND, Some("Friend request not found on friend's side")));
    }
    Ok(
        FriendshipChange {
            user: UserUpdate::two(
                user_id,
                "friends_requests",
                without_text(&user.friends_requests, friend_id),
                "friends",
                with_text(&user.friends, friend_id),
            ),
            friend: UserUpdate::two(
                friend_id,
                "pending_friend_requests",
                without_text(&friend.pending_friend_requests, user_id),
                "friends",
                with_text(&friend.friends, user_id),
            ),
        },
    )
}

/// Why `user` may not ask `friend` to be friends, as status and message.
pub open spec fn request_refusal(user: User, friend: User) -> Option<(u16, Seq<char>)> {
    if user.uuid@ == friend.uuid@ {
        Some((BAD_REQUEST, "Cannot send friend request to yourself"@))
    } else if names(user.friends, friend.uuid@) || names(friend.friends, user.uuid@) {
        Some((BAD_REQUEST, "Already friends"@))
    } else if names(user.pending_friend_requests, friend.uuid@) || names(
        friend.friends_requests,
        user.uuid@,
    ) {
        Some((BAD_REQUEST, "Friend request already sent"@))
    } else {
        None
    }
}

/// Whether each of the two has asked the other.
pub open spec fn is_mutual(user: User, friend: User) -> bool {
    names(user.friends_requests, friend.uuid@) && names(friend.pending_friend_requests, user.uuid@)
}

/// Whether `change` records the request of `user` on both sides.
pub open spec fn is_request(change: FriendshipChange, user: User, friend: User) -> bool {
    &&& change.user.sets_one(
        user.uuid@,
        "pending_friend_requests"@,
        added(user.pending_friend_requests, friend.uuid@),
    )
    &&& change.friend.sets_one(
        friend.uuid@,
        "friends_requests"@,
        added(friend.friends_requests, user.uuid@),
    )
}

/// `user` asks `friend` to be friends. Where `friend` has already asked
/// `user`, the two become friends at once.
pub fn request_friendship(user: &User, friend: &User) -> (requested: Result<
    FriendRequest,
    ApiError,
>)
    ensures
        match request_refusal(*user, *friend) {
            Some(refusal) => requested matches Err(error) && error.says(refusal.0, refusal.1),
            None => if is_mutual(*user, *friend) {
                requested matches Ok(FriendRequest::AutoAccepted(change)) && is_acceptance(
                    change,
                    *user,
                    *friend,
                )
            } else {
                requested matches Ok(FriendRequest::Sent(change)) && is_request(
                    change,
                    *user,
                    *friend,
                )
            },
        },
{
    let user_id = user.uuid.as_str();
    let friend_id = friend.uuid.as_str();
    if same_text(user_id, friend_id) {
        return Err(error_response(BAD_REQUEST, Some("Cannot send friend request to yourself")));
    }
    if contains_text(&user.friends, friend_id) {
        return Err(error_response(BAD_REQUEST, Some("Already friends")));
    }
    if contains_text(&friend.friends, user_id) {
        return Err(error_response(BAD_REQUEST, Some("Already friends")));
    }
    if contains_text(&user.pending_friend_requests, friend_id) {
        return Err(error_response(BAD_REQUEST, Some("Friend request already sent")));
    }
    if contains_text(&friend.friends_requests, user_id) {
        return Err(error_response(BAD_REQUEST, Some("Friend request already sent")));
    }
    if contains_text(&user.friends_requests, friend_id) && contains_text(
        &friend.pending_friend_requests,
        user_id,
    ) {
        return match accept_friendship(user, friend) {
            Ok(change) => Ok(FriendRequest::AutoAccepted(change)),
            Err(error) => Err(error),
        };
    }
    Ok(
        FriendRequest::Sent(
            FriendshipChange {
                user: UserUpdate::one(
                    user_id,
                    "pending_friend_requests",
                    with_text(&user.pending_friend_requests, friend_id),
                ),
                friend: UserUpdate::one(
                    friend_id,
                    "friends_requests",
                    with_text(&friend.friends_requests, user_id),
                ),
            },
        ),
    )
}

/// Why `user` may not decline a request of `friend`, as status and message.
pub open spec fn decline_refusal(user: User, friend: User) -> Option<(u16, Seq<char>)> {
    if user.uuid@ == friend.uuid@ {
        Some((BAD_REQUEST, "Cannot decline friendship with yourself"@))
    } else if !names(user.friends_requests, friend.uuid@) || !names(
        friend.pending_friend_requests,
        user.uuid@,
    ) {
        Some((NOT_FOUND, "No pending friend request from this user"@))
    } else {
        None
    }
}

/// `user` declines the request that `friend` sent: it leaves both lists.
pub fn decline_friendship(user: &User, friend: &User) -> (declined: Result<
    FriendshipChange,
    ApiError,
>)
    ensures
        match decline_refusal(*user, *friend) {
            Some(refusal) => declined matches Err(error) && error.says(refusal.0, refusal.1),
            None => declined matches Ok(change) && change.user.sets_one(
                user.uuid@,
                "friends_requests"@,
                dropped(user.friends_requests, friend.uuid@),
            ) && change.friend.sets_one(
                friend.uuid@,
                "pending_friend_requests"@,
                dropped(friend.pending_friend_requests, user.uuid@),
            ),
        },
{
    let user_id = user.uuid.as_str();
    let friend_id = friend.uuid.as_str();
    if same_text(user_id, friend_id) {
        return Err(error_response(BAD_REQUEST, Some("Cannot decline friendship with yourself")));
    }
    if !contains_text(&user.friends_requests, friend_id) {
        return Err(error_response(NOT_FOUND, Some("No pending friend request from this user")));
    }
    if !contains_text(&friend.pending_friend_requests, user_id) {
        return Err(error_response(NOT_FOUND, Some("No pending friend request from this user")));
    }
    Ok(
        FriendshipChange {
            user: UserUpdate::one(
                user_id,
                "friends_requests",
                without_text(&user.friends_requests, friend_id),
            ),
            friend: UserUpdate::one(
                friend_id,
                "pending_friend_requests",
                without_text(&friend.pending_friend_requests, user_id),
            ),
        },
    )
}

/// Why `user` may not end a friendship with `friend`, as status and message.
pub open spec fn removal_refusal(user: User, friend: User) -> Option<(u16, Seq<char>)> {
    if user.uuid@ == friend.uuid@ {
        Some((BAD_REQUEST, "Cannot remove friendship with yourself"@))
    } else if !names(user.friends, friend.uuid@) || !names(friend.friends, user.uuid@) {
        Some((BAD_REQUEST, "Not friends with this user"@))
    } else {
        None
    }
}

/// `user` ends the friendship with `friend`: each leaves the other's friends.
pub fn remove_friendship(user: &User, friend: &User) -> (removed: Result<
    FriendshipChange,
    ApiError,
>)
    ensures
        match removal_refusal(*user, *friend) {
            Some(refusal) => removed matches Err(error) && error.says(refusal.0, refusal.1),
            None => removed matches Ok(change) && change.user.sets_one(
                user.uuid@,
                "friends"@,
                dropped(user.friends, friend.uuid@),
            ) && change.friend.sets_one(
                friend.uuid@,
                "friends"@,
                dropped(friend.friends, user.uuid@),
            ),
        },
{
    let user_id = user.uuid.as_str();
    let friend_id = friend.uuid.as_str();
    if same_text(user_id, friend_id) {
        return Err(error_response(BAD_REQUEST, Some("Cannot remove friendship with yourself")));
    }
    if !contains_text(&user.friends, friend_id) {
        return Err(error_response(BAD_REQUEST, Some("Not friends with this user")));
    }
    if !contains_text(&friend.friends, user_id) {
        return Err(error_response(BAD_REQUEST, Some("Not friends with this user")));
    }
    Ok(
        FriendshipChange {
            user: UserUpdate::one(user_id, "friends", without_text(&user.friends, friend_id)),
            friend: UserUpdate::one(friend_id, "friends", without_text(&friend.friends, user_id)),
        },
    )
}

/// A user as they see themselves.
pub open spec fn private_of(user: User) -> UserPrivate {
    UserPrivate {
        uuid: user.uuid,
        username: user.username,
        description: user.description,
        profile_picture: user.profile_picture,
        keys: user.keys,
        pending_friend_requests: user.pending_friend_requests,
        friends_requests: user.friends_requests,
        friends: user.friends,
    }
}

/// A user as anyone may see them.
pub open spec fn public_of(user: User) -> UserPublic {
    UserPublic {
        uuid: user.uuid,
        username: user.username,
        description: user.description,
        profile_picture: user.profile_picture,
    }
}

/// A user as their friends see them.
pub open spec fn friend_view_of(user: User) -> UserPublicFriend {
    UserPublicFriend {
        uuid: user.uuid,
        username: user.username,
        description: user.description,
        profile_picture: user.profile_picture,
        keys: user.keys,
    }
}

/// The user's own view of their record, from the store's answer to the lookup
/// of that record.
pub fn get_profile(reply: Result<Option<User>, StoreError>) -> (profile: Result<
    UserPrivate,
    ApiError,
>)
    ensures
        match reply {
            Ok(Some(user)) => profile matches Ok(shown) && shown == private_of(user),
            Ok(None) => profile matches Err(error) && error.says(NOT_FOUND, "User not found"@),
            Err(_) => profile matches Err(error) && error.says(
                INTERNAL_SERVER_ERROR,
                "Database error"@,
            ),
        },
{
    let user = find_user(reply)?;
    Ok(
        UserPrivate {
            uuid: user.uuid,
            username: user.username,
            description: user.description,
            profile_picture: user.profile_picture,
            keys: user.keys,
            pending_friend_requests: user.pending_friend_requests,
            friends_requests: user.friends_requests,
            friends: user.friends,
        },
    )
}

/// What the user `user_id` sees of another user, from the store's answer to
/// the lookup of that other user: the keys too if `user_id` is among their
/// friends.
pub fn get_by_id(reply: Result<Option<User>, StoreError>, user_id: &str) -> (shown: Result<
    UserResponse,
    ApiError,
>)
    ensures
        match reply {
            Ok(Some(user)) => if names(user.friends, user_id@) {
                shown matches Ok(UserResponse::PublicFriend(view)) && view == friend_view_of(user)
            } else {
                shown matches Ok(UserResponse::Public(view)) && view == public_of(user)
            },
            Ok(None) => shown matches Err(error) && error.says(NOT_FOUND, "User not found"@),
            Err(_) => shown matches Err(error) && error.says(
                INTERNAL_SERVER_ERROR,
                "Database error"@,
            ),
        },
{
    let user = find_user(reply)?;
    if contains_text(&user.friends, user_id) {
        Ok(
            UserResponse::PublicFriend(
                UserPublicFriend {
                    uuid: user.uuid,
                    username: user.username,
                    keys: user.keys,
                    description: user.description,
                    profile_picture: user.profile_picture,
                },
            ),
        )
    } else {
        Ok(
            UserResponse::Public(
                UserPublic {
                    uuid: user.uuid,
                    username: user.username,
                    description: user.description,
                    profile_picture: user.profile_picture,
                },
            ),
        )
    }
}

/// The public views of the records that were read, in order; a record that
/// could not be read is passed over.
pub open spec fn listed(found: Seq<Result<User, StoreError>>) -> Seq<UserPublic>
    decreases found.len(),
{
    if found.len() == 0 {
        Seq::empty()
    } else {
        let rest = listed(found.drop_last());
        match found.last() {
            Ok(user) => rest.push(public_of(user)),
            Err(_) => rest,
        }
    }
}

/// All users as anyone may see them, from what the store handed out record
/// by record.
pub fn get_all(found: &Vec<Result<User, StoreError>>) -> (users: Vec<UserPublic>)
    ensures
        users@ == listed(found@),
{
    let mut users: Vec<UserPublic> = Vec::new();
    let mut i: usize = 0;
    while i < found.len()
        invariant
            i <= found.len(),
            users@ == listed(found@.take(i as int)),
        decreases found.len() - i,
    {
        proof {
            assert(found@.take(i + 1).drop_last() =~= found@.take(i as int));
        }
        if let Ok(user) = &found[i] {
            users.push(
                UserPublic {
                    uuid: user.uuid.clone(),
                    username: user.username.clone(),
                    description: clone_opt(&user.description),
                    profile_picture: clone_opt(&user.profile_picture),
                },
            );
        }
        i += 1;
    }
    proof {
        assert(found@.take(found.len() as int) =~= found@);
    }
    users
}

/// A new value for one text field of a user record.
#[derive(Debug)]
pub struct TextUpdate {
    pub field: String,
    pub value: String,
}

/// A write to the profile of the user `uuid`: each field named is set to the
/// text given.
#[derive(Debug)]
pub struct ProfileUpdate {
    pub uuid: String,
    pub fields: Vec<TextUpdate>,
}

/// The field and the text of each update, in order.
pub open spec fn updates_of(fields: Seq<TextUpdate>) -> Seq<(Seq<char>, Seq<char>)> {
    fields.map_values(|update: TextUpdate| (update.field@, update.value@))
}

/// The update of one field, if a new value was given for it.
pub open spec fn asked(field: Seq<char>, value: Option<String>) -> Seq<(Seq<char>, Seq<char>)> {
    match value {
        Some(text) => seq![(field, text@)],
        None => Seq::empty(),
    }
}

/// The updates that a request asks for: user name, description and picture,
/// in this order, each only if given.
pub open spec fn asked_updates(updates: UserUpdatePayload) -> Seq<(Seq<char>, Seq<char>)> {
    asked("username"@, updates.username) + asked("description"@, updates.description) + asked(
        "profile_picture"@,
        updates.profile_picture,
    )
}

/// Why a profile update is refused, as status and message. `holder` is the
/// store's answer to the lookup of the user name asked for; it is read only
/// where a user name is asked for.
pub open spec fn update_refusal(
    user_id: Seq<char>,
    updates: UserUpdatePayload,
    holder: Result<Option<User>, StoreError>,
) -> Option<(u16, Seq<char>)> {
    if updates.username is Some && holder is Err {
        Some((INTERNAL_SERVER_ERROR, "Database error"@))
    } else if updates.username is Some && (holder matches Ok(Some(other)) && other.uuid@
        != user_id) {
        Some((BAD_REQUEST, "Username already taken"@))
    } else if asked_updates(updates).len() == 0 {
        Some((BAD_REQUEST, "No fields to update"@))
    } else {
        None
    }
}

/// The write that a profile update of the user `user_id` consists of. A user
/// name that another user holds is refused; the user's own is not.
pub fn update_user(
    user_id: &str,
    updates: &UserUpdatePayload,
    holder: &Result<Option<User>, StoreError>,
) -> (planned: Result<ProfileUpdate, ApiError>)
    ensures
        match update_refusal(user_id@, *updates, *holder) {
            Some(refusal) => planned matches Err(error) && error.says(refusal.0, refusal.1),
            None => planned matches Ok(write) && write.uuid@ == user_id@ && updates_of(
                write.fields@,
            ) == asked_updates(*updates),
        },
{
    if updates.username.is_some() {
        match holder {
            Err(_) => {
                return Err(error_response(INTERNAL_SERVER_ERROR, Some("Database error")));
            },
            Ok(Some(other)) => {
                if !same_text(other.uuid.as_str(), user_id) {
                    return Err(error_response(BAD_REQUEST, Some("Username already taken")));
                }
            },
            Ok(None) => {},
        }
    }
    let mut fields: Vec<TextUpdate> = Vec::new();
    if let Some(username) = &updates.username {
        fields.push(TextUpdate { field: "username".to_owned(), value: username.clone() });
    }
    assert(updates_of(fields@) =~= asked("username"@, updates.username));
    if let Some(description) = &updates.description {
        fields.push(TextUpdate { field: "description".to_owned(), value: description.clone() });
    }
    assert(updates_of(fields@) =~= asked("username"@, updates.username) + asked(
        "description"@,
        updates.description,
    ));
    if let Some(profile_picture) = &updates.profile_picture {
        fields.push(
            TextUpdate { field: "profile_picture".to_owned(), value: profile_picture.clone() },
        );
    }
    assert(updates_of(fields@) =~= asked_updates(*updates));
    if fields.len() == 0 {
        return Err(error_response(BAD_REQUEST, Some("No fields to update")));
    }
    Ok(ProfileUpdate { uuid: user_id.to_owned(), fields })
}

/// Reads the store's answer to the write of a profile update.
pub fn profile_written(reply: Result<(), StoreError>) -> (done: Result<(), ApiError>)
    ensures
        reply is Ok ==> done is Ok,
        reply is Err ==> (done matches Err(error) && error.says(
            INTERNAL_SERVER_ERROR,
            "Database error"@,
        )),
{
    match reply {
        Ok(_) => Ok(()),
        Err(_) => Err(error_response(INTERNAL_SERVER_ERROR, Some("Database error"))),
    }
}

/// One record to clean after a user was deleted: the list `reference` of the
/// user `target` may still name the deleted user.
#[derive(Debug)]
pub struct Cleanup {
    pub target: String,
    pub reference: Reference,
}

/// The target and the list of each cleanup, in order.
pub open spec fn cleanups_of(plan: Seq<Cleanup>) -> Seq<(Seq<char>, Reference)> {
    plan.map_values(|step: Cleanup| (step.target@, step.reference))
}

/// Each of `ids` with the list to clean in their record.
pub open spec fn to_clean(ids: Vec<String>, reference: Reference) -> Seq<(Seq<char>, Reference)> {
    texts(ids@).map_values(|id: Seq<char>| (id, reference))
}

/// The records to clean once `user` is deleted. The user's friends lose a
/// friend, those the user had asked lose a request received, and those who
/// had asked the user lose a request sent; in this order.
pub open spec fn cleanup_plan(user: User) -> Seq<(Seq<char>, Reference)> {
    to_clean(user.friends, Reference::Friends) + to_clean(
        user.pending_friend_requests,
        Reference::FriendsRequests,
    ) + to_clean(user.friends_requests, Reference::PendingFriendRequests)
}

/// Adds to `plan` a cleanup of `reference` for each of `ids`.
fn plan_cleanups(plan: &mut Vec<Cleanup>, ids: &Vec<String>, reference: Reference)
    ensures
        cleanups_of(final(plan)@) == cleanups_of(old(plan)@) + to_clean(*ids, reference),
{
    let ghost start = cleanups_of(plan@);
    let mut i: usize = 0;
    while i < ids.len()
        invariant
            i <= ids.len(),
            cleanups_of(plan@) =~= start + to_clean(*ids, reference).take(i as int),
        decreases ids.len() - i,
    {
        let ghost before = cleanups_of(plan@);
        plan.push(Cleanup { target: ids[i].clone(), reference });
        assert(cleanups_of(plan@) =~= before.push((ids[i as int]@, reference)));
        i += 1;
    }
    assert(to_clean(*ids, reference).take(ids.len() as int) =~= to_clean(*ids, reference));
}

/// After the record of `user` was asked to be deleted: reads the store's
/// answer, the number of records deleted, and names the records to clean.
/// Nothing deleted means the user was not there.
pub fn delete_user(user: &User, reply: Result<u64, StoreError>) -> (deleted: Result<
    Vec<Cleanup>,
    ApiError,
>)
    ensures
        match reply {
            Err(_) => deleted matches Err(error) && error.says(
                INTERNAL_SERVER_ERROR,
                "Database error"@,
            ),
            Ok(count) => if count == 0 {
                deleted matches Err(error) && error.says(NOT_FOUND, "User not found"@)
            } else {
                deleted matches Ok(plan) && cleanups_of(plan@) == cleanup_plan(*user)
            },
        },
{
    match reply {
        Err(_) => {
            return Err(error_response(INTERNAL_SERVER_ERROR, Some("Database error")));
        },
        Ok(count) => {
            if count == 0 {
                return Err(error_response(NOT_FOUND, Some("User not found")));
            }
        },
    }
    let mut plan: Vec<Cleanup> = Vec::new();
    assert(cleanups_of(plan@) =~= Seq::empty());
    plan_cleanups(&mut plan, &user.friends, Reference::Friends);
    plan_cleanups(&mut plan, &user.pending_friend_requests, Reference::FriendsRequests);
    plan_cleanups(&mut plan, &user.friends_requests, Reference::PendingFriendRequests);
    assert(cleanups_of(plan@) =~= cleanup_plan(*user));
    Ok(plan)
}

/// The messages waiting for `user`, without their content, oldest first.
pub fn get_messages(user: &User) -> (infos: Vec<MessageInfo>)
    ensures
        infos@.len() == user.unread_messages@.len(),
        forall|i: int|
            0 <= i < infos@.len() ==> (#[trigger] user.unread_messages@[i]).described_by(
                infos@[i],
            ),
{
    let mut infos: Vec<MessageInfo> = Vec::new();
    let mut i: usize = 0;
    while i < user.unread_messages.len()
        invariant
            i <= user.unread_messages.len(),
            infos@.len() == i,
            forall|k: int|
                0 <= k < i ==> (#[trigger] user.unread_messages@[k]).described_by(infos@[k]),
        decreases user.unread_messages.len() - i,
    {
        infos.push(user.unread_messages[i].message_info());
        i += 1;
    }
    infos
}

} // verus!
