use zaps::host::{Abort, CallContext};
use zaps::social_graph::SocialGraphContract;

const ALICE: u64 = 10;
const BOB: u64 = 11;
const CAROL: u64 = 12;

#[test]
fn add_friend_then_is_friend() {
    let mut g = SocialGraphContract::new();
    let ctx = CallContext::all_authorized(1);
    assert!(!g.is_friend(ALICE, BOB));
    g.add_friend(&ctx, ALICE, BOB).unwrap();
    assert!(g.is_friend(ALICE, BOB));
    // Friendship is directed.
    assert!(!g.is_friend(BOB, ALICE));
    assert_eq!(g.get_friends(ALICE), vec![BOB]);
    assert_eq!(g.get_friends(BOB), Vec::<u64>::new());
}

#[test]
fn add_friend_twice_keeps_one_entry() {
    let mut g = SocialGraphContract::new();
    let ctx = CallContext::all_authorized(1);
    g.add_friend(&ctx, ALICE, BOB).unwrap();
    g.add_friend(&ctx, ALICE, CAROL).unwrap();
    g.add_friend(&ctx, ALICE, BOB).unwrap();
    assert_eq!(g.get_friends(ALICE), vec![BOB, CAROL]);
}

#[test]
fn cannot_befriend_yourself() {
    let mut g = SocialGraphContract::new();
    let ctx = CallContext::all_authorized(1);
    assert_eq!(g.add_friend(&ctx, ALICE, ALICE), Err(Abort::SelfFriendship));
    assert!(g.get_friends(ALICE).is_empty());
}

#[test]
fn friend_changes_need_the_users_signature() {
    let mut g = SocialGraphContract::new();
    let ctx = CallContext::signed_by(1, vec![BOB]);
    assert_eq!(g.add_friend(&ctx, ALICE, BOB), Err(Abort::MissingAuth(ALICE)));
    assert_eq!(g.remove_friend(&ctx, ALICE, BOB), Err(Abort::MissingAuth(ALICE)));
    assert!(g.add_friend(&ctx, BOB, ALICE).is_ok());
    assert!(g.is_friend(BOB, ALICE));
}

#[test]
fn remove_friend_keeps_the_others_in_order() {
    let mut g = SocialGraphContract::new();
    let ctx = CallContext::all_authorized(1);
    g.add_friend(&ctx, ALICE, BOB).unwrap();
    g.add_friend(&ctx, ALICE, CAROL).unwrap();
    g.add_friend(&ctx, ALICE, 13).unwrap();
    g.remove_friend(&ctx, ALICE, CAROL).unwrap();
    assert!(!g.is_friend(ALICE, CAROL));
    assert_eq!(g.get_friends(ALICE), vec![BOB, 13]);
    // Removing an absent friend is a no-op.
    g.remove_friend(&ctx, ALICE, 99).unwrap();
    assert_eq!(g.get_friends(ALICE), vec![BOB, 13]);
}

#[test]
fn remove_undoes_add() {
    let mut g = SocialGraphContract::new();
    let ctx = CallContext::all_authorized(1);
    g.add_friend(&ctx, ALICE, CAROL).unwrap();
    g.add_friend(&ctx, ALICE, BOB).unwrap();
    g.remove_friend(&ctx, ALICE, BOB).unwrap();
    assert_eq!(g.get_friends(ALICE), vec![CAROL]);
}
