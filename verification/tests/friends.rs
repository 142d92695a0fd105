use lucchat_api::message::models::Message;
use lucchat_api::message::services::{
    conversion_failed, message_stored, read_message, receiver_found, send_message,
};
use lucchat_api::user::models::{Key, Opk, User, UserResponse};
use lucchat_api::user::payload::UserUpdatePayload;
use lucchat_api::user::services::{
    accept_friendship, decline_friendship, delete_user, get_all, get_by_id, get_messages,
    get_profile, profile_written, remove_friendship, request_friendship, update_user,
    FriendRequest, FriendshipChange,
};
use lucchat_api::user::utils::{
    clean_reference, find_user, update_user_fields, Reference, StoreError, UserUpdate,
};

fn keys() -> Key {
    Key::new([1; 32], [2; 32], vec![Opk { uuid: "o1".to_string(), key: [3; 32] }])
}

fn user(uuid: &str) -> User {
    User::with_uuid(uuid.to_string(), format!("name-{uuid}"), "hash".to_string(), keys())
}

fn list(items: &[&str]) -> Vec<String> {
    items.iter().map(|item| item.to_string()).collect()
}

fn failure() -> StoreError {
    StoreError { detail: "connection reset".to_string() }
}

fn message(uuid: &str, sender: &str, receiver: &str) -> Message {
    Message {
        uuid: uuid.to_string(),
        sender: sender.to_string(),
        receiver: receiver.to_string(),
        nonce: [0; 12],
        ciphertext: vec![1, 2, 3],
        ratchet_pub: [4; 32],
        message_index: 5,
        opk_used: None,
        ek_used: Some([6; 32]),
        created_at: 1_700_000_000,
    }
}

fn fields(update: &UserUpdate) -> Vec<(String, Vec<String>)> {
    update.lists.iter().map(|entry| (entry.field.clone(), entry.values.clone())).collect()
}

fn refused<T: std::fmt::Debug>(
    result: Result<T, lucchat_api::utils::error::ApiError>,
) -> (u16, String) {
    let error = result.unwrap_err();
    (error.status, error.message)
}

#[test]
fn new_user_has_nothing_but_what_was_given() {
    let fresh = User::new("alice".to_string(), "hash".to_string(), keys());
    assert_eq!(fresh.username, "alice");
    assert_eq!(fresh.password_hash, "hash");
    assert_eq!(fresh.uuid.len(), 36);
    assert!(fresh.description.is_none() && fresh.profile_picture.is_none());
    assert!(fresh.friends.is_empty());
    assert!(fresh.friends_requests.is_empty());
    assert!(fresh.pending_friend_requests.is_empty());
    assert!(fresh.unread_messages.is_empty());
    assert_eq!(fresh.keys.ik_pub, [1; 32]);
    assert_eq!(fresh.keys.spk_pub, [2; 32]);
    assert_eq!(fresh.keys.opk_pub.len(), 1);
    assert_ne!(User::new("a".to_string(), "h".to_string(), keys()).uuid, fresh.uuid);
}

#[test]
fn first_form_of_the_user_record() {
    let keys = lucchat_api::models::user::Key::new([1; 32], [2; 32], vec![[3; 32]]);
    assert_eq!(keys.opk_pub, vec![[3; 32]]);
    let stored =
        lucchat_api::models::user::User::new("alice".to_string(), "hash".to_string(), keys);
    assert!(stored.id.is_none());
    assert_eq!(stored.username, "alice");
    assert_eq!(stored.password_hash, "hash");
    assert_eq!(stored.uuid.len(), 36);
    assert_eq!(stored.keys.ik_pub, [1; 32]);
}

#[test]
fn store_answers_are_read() {
    assert_eq!(find_user(Ok(Some(user("u1")))).unwrap().uuid, "u1");
    assert_eq!(refused(find_user(Ok(None))), (404, "User not found".to_string()));
    assert_eq!(refused(find_user(Err(failure()))), (500, "Database error".to_string()));
    assert!(update_user_fields(Ok(())).is_ok());
    assert_eq!(
        refused(update_user_fields(Err(failure()))),
        (500, "Internal server error".to_string())
    );
    assert!(profile_written(Ok(())).is_ok());
    assert_eq!(refused(profile_written(Err(failure()))), (500, "Database error".to_string()));
}

#[test]
fn friend_request_is_recorded_on_both_sides() {
    let mut asking = user("u1");
    asking.pending_friend_requests = list(&["u9"]);
    let mut asked = user("u2");
    asked.friends_requests = list(&["u8"]);
    let outcome = request_friendship(&asking, &asked).unwrap();
    assert_eq!(outcome.message(), "Friend request sent!");
    match outcome {
        FriendRequest::Sent(FriendshipChange { user, friend }) => {
            assert_eq!(user.uuid, "u1");
            assert_eq!(
                fields(&user),
                vec![("pending_friend_requests".to_string(), list(&["u9", "u2"]))]
            );
            assert_eq!(friend.uuid, "u2");
            assert_eq!(
                fields(&friend),
                vec![("friends_requests".to_string(), list(&["u8", "u1"]))]
            );
        }
        FriendRequest::AutoAccepted(_) => panic!("accepted a request nobody had sent"),
    }
}

#[test]
fn friend_request_refusals() {
    let me = user("u1");
    assert_eq!(
        refused(request_friendship(&me, &user("u1"))),
        (400, "Cannot send friend request to yourself".to_string())
    );
    let mut friendly = user("u1");
    friendly.friends = list(&["u2"]);
    assert_eq!(
        refused(request_friendship(&friendly, &user("u2"))),
        (400, "Already friends".to_string())
    );
    let mut other = user("u2");
    other.friends = list(&["u1"]);
    assert_eq!(refused(request_friendship(&me, &other)), (400, "Already friends".to_string()));
    let mut waiting = user("u1");
    waiting.pending_friend_requests = list(&["u2"]);
    assert_eq!(
        refused(request_friendship(&waiting, &user("u2"))),
        (400, "Friend request already sent".to_string())
    );
    let mut asked = user("u2");
    asked.friends_requests = list(&["u1"]);
    assert_eq!(
        refused(request_friendship(&me, &asked)),
        (400, "Friend request already sent".to_string())
    );
}

#[test]
fn mutual_request_is_accepted_at_once() {
    let mut me = user("u1");
    me.friends_requests = list(&["u3", "u2"]);
    me.friends = list(&["u4"]);
    let mut other = user("u2");
    other.pending_friend_requests = list(&["u1"]);
    let outcome = request_friendship(&me, &other).unwrap();
    assert_eq!(outcome.message(), "Friendship auto-accepted (mutual request)");
    match outcome {
        FriendRequest::AutoAccepted(change) => {
            assert_eq!(
                fields(&change.user),
                vec![
                    ("friends_requests".to_string(), list(&["u3"])),
                    ("friends".to_string(), list(&["u4", "u2"])),
                ]
            );
            assert_eq!(
                fields(&change.friend),
                vec![
                    ("pending_friend_requests".to_string(), list(&[])),
                    ("friends".to_string(), list(&["u1"])),
                ]
            );
        }
        FriendRequest::Sent(_) => panic!("sent a request where both had asked"),
    }
}

#[test]
fn one_sided_record_of_a_request_is_no_mutual_request() {
    let mut me = user("u1");
    me.friends_requests = list(&["u2"]);
    let outcome = request_friendship(&me, &user("u2")).unwrap();
    assert!(matches!(outcome, FriendRequest::Sent(_)));
}

#[test]
fn accepting_a_request() {
    let mut me = user("u1");
    me.friends_requests = list(&["u2", "u3", "u2"]);
    let mut other = user("u2");
    other.pending_friend_requests = list(&["u1", "u5"]);
    other.friends = list(&["u6"]);
    let change = accept_friendship(&me, &other).unwrap();
    assert_eq!(change.user.uuid, "u1");
    assert_eq!(
        fields(&change.user),
        vec![
            ("friends_requests".to_string(), list(&["u3"])),
            ("friends".to_string(), list(&["u2"])),
        ]
    );
    assert_eq!(change.friend.uuid, "u2");
    assert_eq!(
        fields(&change.friend),
        vec![
            ("pending_friend_requests".to_string(), list(&["u5"])),
            ("friends".to_string(), list(&["u6", "u1"])),
        ]
    );
}

#[test]
fn acceptance_refusals() {
    assert_eq!(
        refused(accept_friendship(&user("u1"), &user("u1"))),
        (400, "Cannot accept friend request from yourself".to_string())
    );
    assert_eq!(
        refused(accept_friendship(&user("u1"), &user("u2"))),
        (404, "Friend request not found".to_string())
    );
    let mut me = user("u1");
    me.friends_requests = list(&["u2"]);
    assert_eq!(
        refused(accept_friendship(&me, &user("u2"))),
        (404, "Friend request not found on friend's side".to_string())
    );
}

#[test]
fn declining_a_request() {
    let mut me = user("u1");
    me.friends_requests = list(&["u2", "u3"]);
    let mut other = user("u2");
    other.pending_friend_requests = list(&["u1"]);
    let change = decline_friendship(&me, &other).unwrap();
    assert_eq!(fields(&change.user), vec![("friends_requests".to_string(), list(&["u3"]))]);
    assert_eq!(
        fields(&change.friend),
        vec![("pending_friend_requests".to_string(), list(&[]))]
    );
    assert_eq!(
        refused(decline_friendship(&user("u1"), &user("u1"))),
        (400, "Cannot decline friendship with yourself".to_string())
    );
    assert_eq!(
        refused(decline_friendship(&user("u1"), &other)),
        (404, "No pending friend request from this user".to_string())
    );
    assert_eq!(
        refused(decline_friendship(&me, &user("u2"))),
        (404, "No pending friend request from this user".to_string())
    );
}

#[test]
fn removing_a_friend() {
    let mut me = user("u1");
    me.friends = list(&["u3", "u2"]);
    let mut other = user("u2");
    other.friends = list(&["u1"]);
    let change = remove_friendship(&me, &other).unwrap();
    assert_eq!(fields(&change.user), vec![("friends".to_string(), list(&["u3"]))]);
    assert_eq!(fields(&change.friend), vec![("friends".to_string(), list(&[]))]);
    assert_eq!(
        refused(remove_friendship(&user("u1"), &user("u1"))),
        (400, "Cannot remove friendship with yourself".to_string())
    );
    assert_eq!(
        refused(remove_friendship(&user("u1"), &other)),
        (400, "Not friends with this user".to_string())
    );
    assert_eq!(
        refused(remove_friendship(&me, &user("u2"))),
        (400, "Not friends with this user".to_string())
    );
}

#[test]
fn own_profile_shows_everything_but_the_hash_and_the_inbox() {
    let mut me = user("u1");
    me.description = Some("hello".to_string());
    me.friends = list(&["u2"]);
    me.friends_requests = list(&["u3"]);
    me.pending_friend_requests = list(&["u4"]);
    let profile = get_profile(Ok(Some(me))).unwrap();
    assert_eq!(profile.uuid, "u1");
    assert_eq!(profile.username, "name-u1");
    assert_eq!(profile.description.as_deref(), Some("hello"));
    assert_eq!(profile.profile_picture, None);
    assert_eq!(profile.friends, list(&["u2"]));
    assert_eq!(profile.friends_requests, list(&["u3"]));
    assert_eq!(profile.pending_friend_requests, list(&["u4"]));
    assert_eq!(profile.keys.spk_pub, [2; 32]);
    assert_eq!(refused(get_profile(Ok(None))), (404, "User not found".to_string()));
    assert_eq!(refused(get_profile(Err(failure()))), (500, "Database error".to_string()));
}

#[test]
fn friends_see_the_keys_and_others_do_not() {
    let mut target = user("u2");
    target.friends = list(&["u1"]);
    target.profile_picture = Some("pic".to_string());
    match get_by_id(Ok(Some(target)), "u1").unwrap() {
        UserResponse::PublicFriend(view) => {
            assert_eq!(view.uuid, "u2");
            assert_eq!(view.username, "name-u2");
            assert_eq!(view.profile_picture.as_deref(), Some("pic"));
            assert_eq!(view.keys.ik_pub, [1; 32]);
        }
        UserResponse::Public(_) => panic!("a friend was shown the public view"),
    }
    let mut target = user("u2");
    target.friends = list(&["u1"]);
    match get_by_id(Ok(Some(target)), "u3").unwrap() {
        UserResponse::Public(view) => {
            assert_eq!(view.uuid, "u2");
            assert_eq!(view.username, "name-u2");
        }
        UserResponse::PublicFriend(_) => panic!("a stranger was shown the keys"),
    }
    assert_eq!(refused(get_by_id(Ok(None), "u1")), (404, "User not found".to_string()));
    assert_eq!(refused(get_by_id(Err(failure()), "u1")), (500, "Database error".to_string()));
}

#[test]
fn listing_passes_over_records_that_could_not_be_read() {
    let found = vec![Ok(user("u1")), Err(failure()), Ok(user("u2")), Err(failure())];
    let users = get_all(&found);
    let ids: Vec<&str> = users.iter().map(|shown| shown.uuid.as_str()).collect();
    assert_eq!(ids, vec!["u1", "u2"]);
    assert_eq!(users[1].username, "name-u2");
    assert!(get_all(&Vec::new()).is_empty());
}

fn update(
    username: Option<&str>,
    description: Option<&str>,
    picture: Option<&str>,
) -> UserUpdatePayload {
    UserUpdatePayload {
        username: username.map(str::to_string),
        description: description.map(str::to_string),
        profile_picture: picture.map(str::to_string),
    }
}

#[test]
fn profile_update_sets_what_was_given_in_order() {
    let write = update_user("u1", &update(Some("n"), Some("d"), Some("p")), &Ok(None)).unwrap();
    assert_eq!(write.uuid, "u1");
    let set: Vec<(&str, &str)> =
        write.fields.iter().map(|f| (f.field.as_str(), f.value.as_str())).collect();
    assert_eq!(set, vec![("username", "n"), ("description", "d"), ("profile_picture", "p")]);
    let write = update_user("u1", &update(None, None, Some("p")), &Err(failure())).unwrap();
    let set: Vec<(&str, &str)> =
        write.fields.iter().map(|f| (f.field.as_str(), f.value.as_str())).collect();
    assert_eq!(set, vec![("profile_picture", "p")]);
}

#[test]
fn profile_update_refusals() {
    assert_eq!(
        refused(update_user("u1", &update(None, None, None), &Ok(None))),
        (400, "No fields to update".to_string())
    );
    assert_eq!(
        refused(update_user("u1", &update(Some("n"), None, None), &Ok(Some(user("u2"))))),
        (400, "Username already taken".to_string())
    );
    assert_eq!(
        refused(update_user("u1", &update(Some("n"), None, None), &Err(failure()))),
        (500, "Database error".to_string())
    );
    assert!(update_user("u1", &update(Some("n"), None, None), &Ok(Some(user("u1")))).is_ok());
    assert!(update_user("u1", &update(None, Some("d"), None), &Ok(Some(user("u2")))).is_ok());
}

#[test]
fn deleting_a_user_names_the_records_to_clean() {
    let mut me = user("u1");
    me.friends = list(&["f1", "f2"]);
    me.pending_friend_requests = list(&["w1"]);
    me.friends_requests = list(&["r1"]);
    let plan = delete_user(&me, Ok(1)).unwrap();
    let steps: Vec<(&str, Reference)> =
        plan.iter().map(|step| (step.target.as_str(), step.reference)).collect();
    assert_eq!(
        steps,
        vec![
            ("f1", Reference::Friends),
            ("f2", Reference::Friends),
            ("w1", Reference::FriendsRequests),
            ("r1", Reference::PendingFriendRequests),
        ]
    );
    assert!(delete_user(&user("u1"), Ok(2)).unwrap().is_empty());
    assert_eq!(refused(delete_user(&me, Ok(0))), (404, "User not found".to_string()));
    assert_eq!(refused(delete_user(&me, Err(failure()))), (500, "Database error".to_string()));
}

#[test]
fn cleaning_removes_every_mention_from_one_list() {
    let mut friend = user("f1");
    friend.friends = list(&["u1", "u2", "u1"]);
    friend.friends_requests = list(&["u1"]);
    friend.pending_friend_requests = list(&["u3"]);
    let write = clean_reference(&friend, Reference::Friends, "u1");
    assert_eq!(write.uuid, "f1");
    assert_eq!(fields(&write), vec![("friends".to_string(), list(&["u2"]))]);
    let write = clean_reference(&friend, Reference::FriendsRequests, "u1");
    assert_eq!(fields(&write), vec![("friends_requests".to_string(), list(&[]))]);
    let write = clean_reference(&friend, Reference::PendingFriendRequests, "u1");
    assert_eq!(fields(&write), vec![("pending_friend_requests".to_string(), list(&["u3"]))]);
    assert_eq!(Reference::Friends.field_name(), "friends");
    assert_eq!(Reference::FriendsRequests.field_name(), "friends_requests");
    assert_eq!(Reference::PendingFriendRequests.field_name(), "pending_friend_requests");
}

#[test]
fn message_info_names_the_message_and_its_ends() {
    let info = message("m1", "u1", "u2").message_info();
    assert_eq!(
        (info.uuid.as_str(), info.sender.as_str(), info.receiver.as_str()),
        ("m1", "u1", "u2")
    );
    let mut me = user("u2");
    me.unread_messages = vec![message("m1", "u1", "u2"), message("m2", "u3", "u2")];
    let infos = get_messages(&me);
    let seen: Vec<(&str, &str)> =
        infos.iter().map(|info| (info.uuid.as_str(), info.sender.as_str())).collect();
    assert_eq!(seen, vec![("m1", "u1"), ("m2", "u3")]);
    assert!(get_messages(&user("u9")).is_empty());
}

#[test]
fn only_the_sender_may_send_and_not_to_themselves() {
    assert!(send_message("u1", &message("m1", "u1", "u2")).is_ok());
    assert_eq!(
        refused(send_message("u3", &message("m1", "u1", "u2"))),
        (400, "The message sender and the JWT id must be the same".to_string())
    );
    assert_eq!(
        refused(send_message("u1", &message("m1", "u1", "u1"))),
        (400, "Sender and receiver cannot be the same".to_string())
    );
    assert_eq!(
        refused(send_message("u2", &message("m1", "u1", "u1"))),
        (400, "The message sender and the JWT id must be the same".to_string())
    );
}

#[test]
fn receiver_must_exist() {
    assert!(receiver_found(&Ok(Some(user("u2")))).is_ok());
    assert_eq!(
        refused(receiver_found(&Ok(None))),
        (404, "Receiver user does not exist".to_string())
    );
    assert_eq!(
        refused(receiver_found(&Err(failure()))),
        (404, "Receiver user does not exist".to_string())
    );
}

#[test]
fn store_failures_say_what_the_store_said() {
    assert!(message_stored(Ok(())).is_ok());
    assert_eq!(
        refused(message_stored(Err(failure()))),
        (500, "Failed to update unread messages: connection reset".to_string())
    );
    let error = conversion_failed("bad value");
    assert_eq!(
        (error.status, error.message.as_str()),
        (500, "Failed to convert message to document: bad value")
    );
}

#[test]
fn reading_takes_the_first_message_of_that_name() {
    let mut me = user("u2");
    let mut second = message("m2", "u3", "u2");
    second.message_index = 1;
    let mut again = message("m2", "u4", "u2");
    again.message_index = 2;
    me.unread_messages = vec![message("m1", "u1", "u2"), second, again];
    let read = read_message(Ok(Some(me)), "m2").unwrap();
    assert_eq!(read.uuid, "m2");
    assert_eq!(read.sender, "u3");
    assert_eq!(read.message_index, 1);
    assert_eq!(read.ciphertext, vec![1, 2, 3]);
}

#[test]
fn reading_refusals() {
    let mut me = user("u2");
    me.unread_messages = vec![message("m1", "u1", "u2")];
    assert_eq!(
        refused(read_message(Ok(Some(me)), "m2")),
        (404, "Message not found in unread messages".to_string())
    );
    assert_eq!(
        refused(read_message(Ok(Some(user("u2"))), "m1")),
        (404, "Message not found in unread messages".to_string())
    );
    assert_eq!(
        refused(read_message(Ok(None), "m1")),
        (404, "User or message not found".to_string())
    );
    assert_eq!(
        refused(read_message(Err(failure()), "m1")),
        (500, "Failed to update user: connection reset".to_string())
    );
}
