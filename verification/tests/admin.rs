use osc_bot::admin::{
    blacklist_next_action, blacklist_start, blacklist_step, BlacklistAction, BlacklistEvent, BlacklistRequest,
    BlacklistState,
};
use osc_bot::commands::Answer;
use osc_bot::store::User;

fn request(adding: bool) -> BlacklistRequest {
    BlacklistRequest { discord_id: 42, display_name: "mikumin".to_string(), adding }
}

fn stored(is_blacklisted: bool) -> User {
    User { id: 4, osu_id: 9, discord_id: 42, is_blacklisted }
}

fn run(req: &BlacklistRequest, events: Vec<BlacklistEvent>) -> BlacklistAction {
    let mut state = blacklist_start();
    for e in events {
        state = blacklist_step(state, req, e);
    }
    blacklist_next_action(&state, req)
}

#[test]
fn blacklisting_a_known_member() {
    let req = request(true);
    assert!(matches!(run(&req, vec![]), BlacklistAction::FindUser(42)));
    match run(&req, vec![BlacklistEvent::UserFound(Some(stored(false)))]) {
        BlacklistAction::UpdateUser(u) => assert_eq!(u, stored(true)),
        other => panic!("unexpected action {:?}", other),
    }
    let action = run(&req, vec![BlacklistEvent::UserFound(Some(stored(false))), BlacklistEvent::Written]);
    assert!(matches!(action, BlacklistAction::Reply(Answer::UserBlacklisted(42))));
}

#[test]
fn unblacklisting_a_new_member_records_them_first() {
    let req = request(false);
    let action = run(&req, vec![BlacklistEvent::UserFound(None)]);
    assert!(matches!(action, BlacklistAction::FindAccount(n) if n == "mikumin"));
    let action = run(&req, vec![BlacklistEvent::UserFound(None), BlacklistEvent::AccountFound(Some(9))]);
    assert!(matches!(action, BlacklistAction::CreateUser { osu_id: 9, discord_id: 42 }));
    let events = vec![
        BlacklistEvent::UserFound(None),
        BlacklistEvent::AccountFound(Some(9)),
        BlacklistEvent::UserCreated(stored(false)),
    ];
    match run(&req, events) {
        BlacklistAction::UpdateUser(u) => assert!(!u.is_blacklisted),
        other => panic!("unexpected action {:?}", other),
    }
    let events = vec![
        BlacklistEvent::UserFound(None),
        BlacklistEvent::AccountFound(Some(9)),
        BlacklistEvent::UserCreated(stored(false)),
        BlacklistEvent::Written,
    ];
    assert!(matches!(run(&req, events), BlacklistAction::Reply(Answer::UserUnblacklisted(42))));
}

#[test]
fn an_unknown_name_warns_then_records_account_zero_when_blacklisting() {
    let req = request(true);
    let events = vec![BlacklistEvent::UserFound(None), BlacklistEvent::AccountFound(None)];
    assert!(matches!(run(&req, events), BlacklistAction::Warn(Answer::WrongUsername(42))));
    let events =
        vec![BlacklistEvent::UserFound(None), BlacklistEvent::AccountFound(None), BlacklistEvent::Warned];
    assert!(matches!(run(&req, events), BlacklistAction::CreateUser { osu_id: 0, discord_id: 42 }));
}

#[test]
fn an_unknown_name_stops_unblacklisting() {
    let req = request(false);
    let mut state = blacklist_start();
    state = blacklist_step(state, &req, BlacklistEvent::UserFound(None));
    state = blacklist_step(state, &req, BlacklistEvent::AccountFound(None));
    assert!(matches!(state, BlacklistState::Replied(Answer::WrongUsername(42))));
    state = blacklist_step(state, &req, BlacklistEvent::Written);
    assert!(matches!(blacklist_next_action(&state, &req), BlacklistAction::Reply(Answer::WrongUsername(42))));
}

#[test]
fn blacklisting_then_unblacklisting_leaves_the_member_off() {
    let mut row = stored(false);
    for adding in [true, false] {
        let req = request(adding);
        match run(&req, vec![BlacklistEvent::UserFound(Some(row))]) {
            BlacklistAction::UpdateUser(u) => row = u,
            other => panic!("unexpected action {:?}", other),
        }
    }
    assert!(!row.is_blacklisted);
}
