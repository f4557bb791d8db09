use osc_bot::commands::{Answer, EMPTY_VALUE};
use osc_bot::replay::GameMode;
use osc_bot::suggest::{
    next_action, suggest_start, suggest_step, PostKind, ScoreSummary, SuggestAction, SuggestEvent,
    SuggestRequest, SuggestState,
};

fn request(skin: Option<&str>) -> SuggestRequest {
    SuggestRequest { skin: skin.map(|s| s.to_string()), requesting_user: 555 }
}

fn summary(has_replay: bool) -> ScoreSummary {
    ScoreSummary { id: 1724681877, user_id: 7562902, map_id: 129891, mode: GameMode::Osu, has_replay }
}

fn push_string(out: &mut Vec<u8>, s: &str) {
    out.push(0x0b);
    out.push(s.len() as u8);
    out.extend_from_slice(s.as_bytes());
}

fn replay_file(mode: u8, player: Option<&str>) -> Vec<u8> {
    let mut out = vec![mode];
    out.extend_from_slice(&20240101u32.to_le_bytes());
    push_string(&mut out, "beatmaphash");
    match player {
        Some(p) => push_string(&mut out, p),
        None => out.push(0x00),
    }
    push_string(&mut out, "replayhash");
    for count in [100u16, 2, 1, 0, 0, 0] {
        out.extend_from_slice(&count.to_le_bytes());
    }
    out.extend_from_slice(&1234567u32.to_le_bytes());
    out.extend_from_slice(&512u16.to_le_bytes());
    out.push(0);
    out.extend_from_slice(&0u32.to_le_bytes());
    out.push(0x00);
    out.extend_from_slice(&638000000000000000u64.to_le_bytes());
    let data: [u8; 23] = [
        93, 0, 0, 128, 0, 255, 255, 255, 255, 255, 255, 255, 255, 0, 131, 255, 251, 255, 255, 192, 0, 0, 0,
    ];
    out.extend_from_slice(&(data.len() as u32).to_le_bytes());
    out.extend_from_slice(&data);
    out.extend_from_slice(&0u64.to_le_bytes());
    out
}

fn is_requested(a: &SuggestAction) -> Option<String> {
    match a {
        SuggestAction::IsRequested(k) => Some(k.clone()),
        _ => None,
    }
}

#[test]
fn nothing_given_is_answered_at_once() {
    let s = suggest_start(None, false);
    match next_action(&s, &request(None)) {
        SuggestAction::Reply(a) => assert_eq!(a, Answer::NoScoreGiven),
        _ => panic!("expected an answer"),
    }
}

#[test]
fn a_score_id_is_checked_fetched_and_posted() {
    let req = request(None);
    let s = suggest_start(Some(1724681877), true);
    assert_eq!(is_requested(&next_action(&s, &req)), Some("1724681877".to_string()));
    let s = suggest_step(s, &req, SuggestEvent::Requested(false));
    assert!(matches!(next_action(&s, &req), SuggestAction::FetchScore(1724681877)));
    let s = suggest_step(s, &req, SuggestEvent::ScoreFound(Some(summary(true))));
    match next_action(&s, &req) {
        SuggestAction::Post { record, parameters, mode } => {
            assert_eq!(record, "1724681877");
            assert_eq!(parameters, format!("scoreid:1724681877:129891:555:{}", EMPTY_VALUE));
            assert_eq!(mode, GameMode::Osu);
        }
        _ => panic!("expected posting"),
    }
    // a finished suggestion ignores further outcomes
    let s = suggest_step(s, &req, SuggestEvent::Requested(true));
    assert!(matches!(s, SuggestState::Posting(PostKind::Score { requested: 1724681877, shown: 1724681877 }, ..)));
}

#[test]
fn a_requested_score_is_refused() {
    let req = request(None);
    let s = suggest_step(suggest_start(Some(5), false), &req, SuggestEvent::Requested(true));
    match next_action(&s, &req) {
        SuggestAction::Reply(a) => assert_eq!(a, Answer::ScoreAlreadyRequested(5)),
        _ => panic!("expected an answer"),
    }
}

#[test]
fn missing_scores_and_scores_without_replay_are_refused() {
    let req = request(None);
    let s = suggest_step(suggest_start(Some(5), false), &req, SuggestEvent::Requested(false));
    let missing = suggest_step(SuggestState::FetchScore(5), &req, SuggestEvent::ScoreFound(None));
    assert!(matches!(missing, SuggestState::Replied(Answer::ScoreNotFound(5))));
    let no_replay = suggest_step(s, &req, SuggestEvent::ScoreFound(Some(summary(false))));
    assert!(matches!(no_replay, SuggestState::Replied(Answer::ScoreWithoutReplay)));
}

#[test]
fn an_unrelated_outcome_changes_nothing() {
    let req = request(None);
    let s = suggest_step(SuggestState::CheckScore(5), &req, SuggestEvent::SkinFound(true));
    assert!(matches!(s, SuggestState::CheckScore(5)));
}

#[test]
fn a_named_skin_must_belong_to_the_player() {
    let req = request(Some("main"));
    let s = suggest_step(SuggestState::FetchScore(1724681877), &req, SuggestEvent::ScoreFound(Some(summary(true))));
    match next_action(&s, &req) {
        SuggestAction::HasSkin(user, name) => {
            assert_eq!(user, 7562902);
            assert_eq!(name, "main");
        }
        _ => panic!("expected a skin lookup"),
    }
    let unknown = suggest_step(
        suggest_step(SuggestState::FetchScore(1724681877), &req, SuggestEvent::ScoreFound(Some(summary(true)))),
        &req,
        SuggestEvent::SkinFound(false),
    );
    assert!(matches!(unknown, SuggestState::Replied(Answer::SkinNameUnknown(ref n)) if n == "main"));
    let s = suggest_step(s, &req, SuggestEvent::SkinFound(true));
    match next_action(&s, &req) {
        SuggestAction::Post { parameters, .. } => assert_eq!(parameters, "scoreid:1724681877:129891:555:main"),
        _ => panic!("expected posting"),
    }
}

#[test]
fn a_replay_file_is_read_checked_and_posted() {
    let req = request(None);
    let s = suggest_start(None, true);
    assert!(matches!(next_action(&s, &req), SuggestAction::DownloadReplay));
    let s = suggest_step(s, &req, SuggestEvent::ReplayDownloaded(replay_file(1, Some("mrekk"))));
    assert_eq!(is_requested(&next_action(&s, &req)), Some("replayhash".to_string()));
    let s = suggest_step(s, &req, SuggestEvent::Requested(false));
    match next_action(&s, &req) {
        SuggestAction::FindMap(h) => assert_eq!(h.as_deref(), Some("beatmaphash")),
        _ => panic!("expected a map lookup"),
    }
    let s = suggest_step(s, &req, SuggestEvent::MapFound(Some(42)));
    match next_action(&s, &req) {
        SuggestAction::Post { record, parameters, mode } => {
            assert_eq!(record, "replayhash");
            assert_eq!(parameters, format!("replayfile:replayhash:42:555:{}", EMPTY_VALUE));
            assert_eq!(mode, GameMode::Taiko);
        }
        _ => panic!("expected posting"),
    }
}

#[test]
fn unreadable_replays_and_unknown_maps_are_refused() {
    let req = request(None);
    let s = suggest_step(SuggestState::DownloadReplay, &req, SuggestEvent::ReplayDownloaded(vec![9, 9, 9]));
    assert!(matches!(s, SuggestState::Replied(Answer::ReplayUnreadable)));
    let s = suggest_step(SuggestState::DownloadReplay, &req, SuggestEvent::ReplayDownloaded(replay_file(0, Some("p"))));
    let seen = suggest_step(s, &req, SuggestEvent::Requested(true));
    assert!(matches!(seen, SuggestState::Replied(Answer::ReplayAlreadyRequested)));
    let s = suggest_step(SuggestState::DownloadReplay, &req, SuggestEvent::ReplayDownloaded(replay_file(0, Some("p"))));
    let s = suggest_step(s, &req, SuggestEvent::Requested(false));
    let s = suggest_step(s, &req, SuggestEvent::MapFound(None));
    assert!(matches!(s, SuggestState::Replied(Answer::ReplayMapNotFound)));
}

#[test]
fn a_skin_for_a_replay_needs_its_player() {
    let req = request(Some("main"));
    let start = |player: Option<&str>| {
        let s = suggest_step(SuggestState::DownloadReplay, &req, SuggestEvent::ReplayDownloaded(replay_file(0, player)));
        let s = suggest_step(s, &req, SuggestEvent::Requested(false));
        suggest_step(s, &req, SuggestEvent::MapFound(Some(42)))
    };
    let s = start(Some("mrekk"));
    match next_action(&s, &req) {
        SuggestAction::FindPlayer(p) => assert_eq!(p, "mrekk"),
        _ => panic!("expected a player lookup"),
    }
    let missing = suggest_step(start(Some("mrekk")), &req, SuggestEvent::PlayerFound(None));
    assert!(matches!(missing, SuggestState::Replied(Answer::PlayerNotFound(ref p)) if p == "mrekk"));
    let s = suggest_step(s, &req, SuggestEvent::PlayerFound(Some(99)));
    match next_action(&s, &req) {
        SuggestAction::HasSkin(u, n) => assert_eq!((u, n.as_str()), (99, "main")),
        _ => panic!("expected a skin lookup"),
    }
    let s = suggest_step(s, &req, SuggestEvent::SkinFound(true));
    match next_action(&s, &req) {
        SuggestAction::Post { parameters, mode, .. } => {
            assert_eq!(parameters, "replayfile:replayhash:42:555:main");
            assert_eq!(mode, GameMode::Osu);
        }
        _ => panic!("expected posting"),
    }
    assert!(matches!(next_action(&start(None), &req), SuggestAction::Fail));
}

#[test]
fn a_score_is_suggested_at_most_once() {
    let req = request(None);
    let mut recorded: Vec<String> = vec![];
    let mut posts = 0;
    for _ in 0..2 {
        let mut s = suggest_start(Some(1724681877), false);
        loop {
            let event = match next_action(&s, &req) {
                SuggestAction::IsRequested(k) => SuggestEvent::Requested(recorded.contains(&k)),
                SuggestAction::FetchScore(_) => SuggestEvent::ScoreFound(Some(summary(true))),
                SuggestAction::Post { record, .. } => {
                    recorded.push(record);
                    posts += 1;
                    break;
                }
                SuggestAction::Reply(a) => {
                    assert_eq!(a, Answer::ScoreAlreadyRequested(1724681877));
                    break;
                }
                _ => panic!("unexpected action"),
            };
            s = suggest_step(s, &req, event);
        }
    }
    assert_eq!(posts, 1);
}
