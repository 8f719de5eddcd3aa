use zaps::host::{Abort, CallContext};
use zaps::user_registry::UserRegistryContract;

#[test]
fn test_register_and_update_profile() {
    let mut client = UserRegistryContract::new();
    let ctx = CallContext::all_authorized(1);
    let user = 42;
    let username = String::from("ebube");

    client.register_user(&ctx, user, username.clone()).unwrap();
    assert_eq!(client.get_address(&username), Ok(user));
    assert_eq!(client.get_username(user), Ok(username));

    let avatar_uri = String::from("https://example.com/avatar.png");
    client.update_profile(&ctx, user, avatar_uri.clone()).unwrap();

    assert_eq!(client.get_avatar(user), avatar_uri);
}

#[test]
fn test_update_profile_fails_without_auth() {
    let mut client = UserRegistryContract::new();
    let ctx = CallContext::signed_by(1, vec![]);
    let user = 42;
    let avatar_uri = String::from("https://example.com/avatar.png");
    assert_eq!(
        client.update_profile(&ctx, user, avatar_uri),
        Err(Abort::MissingAuth(user))
    );
    assert_eq!(client.get_avatar(user), "");
}

#[test]
fn usernames_are_unique() {
    let mut client = UserRegistryContract::new();
    let ctx = CallContext::all_authorized(1);
    client.register_user(&ctx, 1, String::from("ada")).unwrap();
    assert_eq!(
        client.register_user(&ctx, 2, String::from("ada")),
        Err(Abort::UsernameTaken)
    );
    assert_eq!(client.get_address("ada"), Ok(1));
    assert_eq!(client.get_username(2), Err(Abort::AddressNotRegistered));
    assert_eq!(client.get_address("bob"), Err(Abort::UsernameNotFound));
}

#[test]
fn registering_again_moves_the_username_but_keeps_the_old_one() {
    let mut client = UserRegistryContract::new();
    let ctx = CallContext::all_authorized(1);
    client.register_user(&ctx, 1, String::from("ada")).unwrap();
    client.register_user(&ctx, 1, String::from("lovelace")).unwrap();
    assert_eq!(client.get_username(1), Ok(String::from("lovelace")));
    assert_eq!(client.get_address("lovelace"), Ok(1));
    assert_eq!(client.get_address("ada"), Ok(1));
}

#[test]
fn registration_needs_the_users_signature() {
    let mut client = UserRegistryContract::new();
    let ctx = CallContext::signed_by(1, vec![2]);
    assert_eq!(
        client.register_user(&ctx, 1, String::from("ada")),
        Err(Abort::MissingAuth(1))
    );
    assert_eq!(client.get_address("ada"), Err(Abort::UsernameNotFound));
}
