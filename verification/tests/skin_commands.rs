use osc_bot::commands::Answer;
use osc_bot::skin::DEFAULTS;
use osc_bot::skin_commands::{
    skin_next_action, skin_start, skin_step, SkinAction, SkinCommand, SkinEvent, SkinRequest, SkinState, Target,
};
use osc_bot::store::{Skin, User};

const LINK: &str = "https://git.sulej.net/alice/main.osk";

fn save(url: &str, for_member: bool) -> SkinRequest {
    SkinRequest {
        command: SkinCommand::Save { url: url.to_string(), identifier: "main".to_string(), default: DEFAULTS::HD },
        for_member,
    }
}

fn alice() -> Target {
    Target { username: "Alice".to_string(), discord_id: 77 }
}

fn user() -> User {
    User { id: 3, osu_id: 5, discord_id: 77, is_blacklisted: false }
}

fn stored_skin() -> Skin {
    Skin {
        id: 9,
        user: user(),
        identifier: "main".to_string(),
        url: "https://git.sulej.net/alice/old.osk".to_string(),
        default: DEFAULTS::DT,
    }
}

/// Feeds the events to the machine and returns the action it ends with.
fn run(request: &SkinRequest, events: Vec<SkinEvent>) -> SkinAction {
    let mut state = skin_start(request);
    for e in events {
        state = skin_step(state, request, e);
    }
    skin_next_action(&state)
}

#[test]
fn saving_a_new_skin_walks_every_step() {
    let request = save(LINK, false);
    let mut state = skin_start(&request);
    assert!(matches!(skin_next_action(&state), SkinAction::ResolveTarget));
    state = skin_step(state, &request, SkinEvent::TargetResolved(alice()));
    assert!(matches!(skin_next_action(&state), SkinAction::FindAccount(n) if n == "Alice"));
    state = skin_step(state, &request, SkinEvent::AccountFound(Some(5)));
    assert!(matches!(skin_next_action(&state), SkinAction::FindUser(77)));
    state = skin_step(state, &request, SkinEvent::UserFound(None));
    assert!(matches!(skin_next_action(&state), SkinAction::CreateUser { osu_id: 5, discord_id: 77 }));
    state = skin_step(state, &request, SkinEvent::UserCreated(user()));
    assert!(matches!(skin_next_action(&state), SkinAction::Download(u) if u == LINK));
    state = skin_step(state, &request, SkinEvent::Downloaded(true));
    assert!(matches!(
        skin_next_action(&state),
        SkinAction::FindSkin { user_key: 3, identifier } if identifier == "main"
    ));
    state = skin_step(state, &request, SkinEvent::SkinFound(None));
    match skin_next_action(&state) {
        SkinAction::CreateSkin { user: u, identifier, url, default } => {
            assert_eq!(u, user());
            assert_eq!(identifier, "main");
            assert_eq!(url, LINK);
            assert_eq!(default, DEFAULTS::HD);
        }
        other => panic!("unexpected action {:?}", other),
    }
    state = skin_step(state, &request, SkinEvent::Written);
    assert!(matches!(skin_next_action(&state), SkinAction::Reply(Answer::SkinSaved)));
}

#[test]
fn saving_over_a_stored_skin_relinks_it() {
    let request = save(LINK, false);
    let action = run(
        &request,
        vec![
            SkinEvent::TargetResolved(alice()),
            SkinEvent::AccountFound(Some(5)),
            SkinEvent::UserFound(Some(user())),
            SkinEvent::Downloaded(true),
            SkinEvent::SkinFound(Some(stored_skin())),
        ],
    );
    match action {
        SkinAction::UpdateSkin(s) => {
            assert_eq!(s.id, 9);
            assert_eq!(s.identifier, "main");
            assert_eq!(s.url, LINK);
            assert_eq!(s.default, DEFAULTS::HD);
        }
        other => panic!("unexpected action {:?}", other),
    }
}

#[test]
fn a_link_outside_the_skin_host_is_refused() {
    let action = run(&save("https://example.com/main.osk", false), vec![]);
    assert!(matches!(action, SkinAction::Reply(Answer::InvalidSkinLink)));
    let action = run(&save("https://git.sulej.net/alice/main.zip", false), vec![]);
    assert!(matches!(action, SkinAction::Reply(Answer::InvalidSkinLink)));
}

#[test]
fn saving_for_another_member_needs_the_role() {
    let request = save(LINK, true);
    assert!(matches!(skin_next_action(&skin_start(&request)), SkinAction::CheckReplayRole));
    let action = run(&request, vec![SkinEvent::RoleChecked(false)]);
    assert!(matches!(action, SkinAction::Reply(Answer::NoPermission)));
    let action = run(&request, vec![SkinEvent::RoleChecked(true)]);
    assert!(matches!(action, SkinAction::ResolveTarget));
}

#[test]
fn an_unknown_account_or_a_failed_download_is_answered() {
    let action = run(&save(LINK, false), vec![SkinEvent::TargetResolved(alice()), SkinEvent::AccountFound(None)]);
    assert!(matches!(action, SkinAction::Reply(Answer::AccountNotLinked)));
    let show = SkinRequest { command: SkinCommand::Show { identifier: None }, for_member: true };
    let action = run(&show, vec![SkinEvent::TargetResolved(alice()), SkinEvent::AccountFound(None)]);
    assert!(matches!(action, SkinAction::Reply(Answer::AccountNotLinkedOnLookup)));
    let action = run(
        &save(LINK, false),
        vec![
            SkinEvent::TargetResolved(alice()),
            SkinEvent::AccountFound(Some(5)),
            SkinEvent::UserFound(Some(user())),
            SkinEvent::Downloaded(false),
        ],
    );
    assert!(matches!(action, SkinAction::Reply(Answer::SkinNotDownloadable)));
}

#[test]
fn showing_skins() {
    let all = SkinRequest { command: SkinCommand::Show { identifier: None }, for_member: false };
    let prefix = vec![
        SkinEvent::TargetResolved(alice()),
        SkinEvent::AccountFound(Some(5)),
        SkinEvent::UserFound(Some(user())),
    ];
    let mut events = prefix;
    events.push(SkinEvent::SkinsFound(vec![]));
    assert!(matches!(run(&all, events), SkinAction::Reply(Answer::NoSkinsSaved)));

    let one = SkinRequest { command: SkinCommand::Show { identifier: Some("main".to_string()) }, for_member: false };
    let mut state = skin_start(&one);
    for e in [SkinEvent::TargetResolved(alice()), SkinEvent::AccountFound(Some(5)), SkinEvent::UserFound(Some(user()))] {
        state = skin_step(state, &one, e);
    }
    assert!(matches!(
        skin_next_action(&state),
        SkinAction::FindSkin { user_key: 3, identifier } if identifier == "main"
    ));
    let found = skin_step(state, &one, SkinEvent::SkinFound(Some(stored_skin())));
    match skin_next_action(&found) {
        SkinAction::List { heading, lines } => {
            assert_eq!(heading, "Skins: Alice");
            assert_eq!(lines, vec!["[main (DT)](https://git.sulej.net/alice/old.osk)"]);
        }
        other => panic!("unexpected action {:?}", other),
    }
    let events = vec![
        SkinEvent::TargetResolved(alice()),
        SkinEvent::AccountFound(Some(5)),
        SkinEvent::UserFound(Some(user())),
        SkinEvent::SkinFound(None),
    ];
    assert!(matches!(run(&one, events), SkinAction::Reply(Answer::NoSkinWithIdentifier)));
}

#[test]
fn removing_skins() {
    let remove = SkinRequest { command: SkinCommand::Remove { identifier: "main".to_string() }, for_member: false };
    let prefix = || {
        vec![SkinEvent::TargetResolved(alice()), SkinEvent::AccountFound(Some(5)), SkinEvent::UserFound(Some(user()))]
    };
    let mut events = prefix();
    events.push(SkinEvent::SkinFound(None));
    assert!(matches!(run(&remove, events), SkinAction::Reply(Answer::SkinMissing(i)) if i == "main"));
    let mut events = prefix();
    events.push(SkinEvent::SkinFound(Some(stored_skin())));
    assert!(matches!(run(&remove, events), SkinAction::DeleteSkin(s) if s.id == 9));
    let mut events = prefix();
    events.push(SkinEvent::SkinFound(Some(stored_skin())));
    events.push(SkinEvent::Written);
    assert!(matches!(run(&remove, events), SkinAction::Reply(Answer::SkinRemoved(i)) if i == "main"));
    let for_other = SkinRequest { command: SkinCommand::Remove { identifier: "main".to_string() }, for_member: true };
    assert!(matches!(run(&for_other, vec![]), SkinAction::CheckReplayRole));
}

#[test]
fn a_finished_command_stays_finished() {
    let request = save("https://example.com/x.osk", false);
    let state = skin_start(&request);
    assert!(matches!(state, SkinState::Replied(Answer::InvalidSkinLink)));
    let state = skin_step(state, &request, SkinEvent::Downloaded(true));
    let state = skin_step(state, &request, SkinEvent::Written);
    assert!(matches!(skin_next_action(&state), SkinAction::Reply(Answer::InvalidSkinLink)));
}

#[test]
fn an_unexpected_event_leaves_the_state() {
    let request = save(LINK, false);
    let state = skin_step(skin_start(&request), &request, SkinEvent::Written);
    assert!(matches!(skin_next_action(&state), SkinAction::ResolveTarget));
}

#[test]
fn removing_with_an_empty_identifier_removes_every_skin() {
    let remove_all = SkinRequest { command: SkinCommand::Remove { identifier: String::new() }, for_member: false };
    let prefix = || {
        vec![SkinEvent::TargetResolved(alice()), SkinEvent::AccountFound(Some(5)), SkinEvent::UserFound(Some(user()))]
    };
    assert!(matches!(run(&remove_all, prefix()), SkinAction::FindAllSkins(3)));
    let mut events = prefix();
    events.push(SkinEvent::SkinsFound(vec![]));
    assert!(matches!(run(&remove_all, events), SkinAction::Reply(Answer::NoSkinsSaved)));
    let mut second = stored_skin();
    second.id = 10;
    let mut events = prefix();
    events.push(SkinEvent::SkinsFound(vec![stored_skin(), second]));
    match run(&remove_all, events) {
        SkinAction::DeleteSkins(v) => assert_eq!(v.iter().map(|s| s.id).collect::<Vec<_>>(), vec![9, 10]),
        other => panic!("unexpected action {:?}", other),
    }
    let mut events = prefix();
    events.push(SkinEvent::SkinsFound(vec![stored_skin()]));
    events.push(SkinEvent::Written);
    assert!(matches!(run(&remove_all, events), SkinAction::Reply(Answer::AllSkinsRemoved)));
}

#[test]
fn saving_again_under_a_name_finds_the_users_skin() {
    let request = save(LINK, false);
    let events = vec![
        SkinEvent::TargetResolved(alice()),
        SkinEvent::AccountFound(Some(5)),
        SkinEvent::UserFound(Some(user())),
        SkinEvent::Downloaded(true),
    ];
    assert!(matches!(run(&request, events), SkinAction::FindSkin { user_key: 3, .. }));
}
