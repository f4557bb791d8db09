//! The score suggestion command as a machine: each state names the lookup
//! the command waits for, each answered lookup moves it on, and it ends by
//! answering or by posting the suggestion for approval.

use vstd::prelude::*;
use crate::commands::{
    copy_answer, chosen_skin, score_input, spec_parameters, suggestion_parameters, Answer, ScoreInput,
    SuggestSource, EMPTY_VALUE,
};
use crate::replay::{
    game_mode_from, parsed_replay, read_replay, replay_lengths_overflow, replay_checksum, replay_view, spec_game_mode_from,
    GameMode, ReplayInfo,
};
use crate::text::{decimal, to_decimal};

verus! {

/// What the bot uses of a score found by id.
#[derive(Debug, Clone, Copy, PartialEq, Eq, Structural)]
pub struct ScoreSummary {
    pub id: u64,
    pub user_id: u32,
    pub map_id: u32,
    pub mode: GameMode,
    pub has_replay: bool,
}

/// The fixed facts of a suggestion: the skin asked for and who asks.
pub struct SuggestRequest {
    pub skin: Option<String>,
    pub requesting_user: u64,
}

/// What a suggestion is posted for.
pub enum PostKind {
    /// A score found by id: the id that was asked for (and checked), and the
    /// id of the score found.
    Score { requested: u64, shown: u64 },
    /// A replay file.
    Replay(ReplayInfo),
}

/// Where a suggestion stands.
pub enum SuggestState {
    /// Was the score with this id requested before?
    CheckScore(u64),
    /// Which score has this id?
    FetchScore(u64),
    /// Has the player of the score (asked for by id) a skin of this name?
    CheckScoreSkin(u64, ScoreSummary, String),
    /// What is in the uploaded replay file?
    DownloadReplay,
    /// Was this replay requested before?
    CheckReplay(ReplayInfo),
    /// Which beatmap was this replay played on?
    FindMap(ReplayInfo),
    /// Which osu! player has this name (replay, beatmap id, player, skin)?
    FindPlayer(ReplayInfo, u32, String, String),
    /// Has this player a skin of this name (replay, beatmap id, player id, skin)?
    CheckReplaySkin(ReplayInfo, u32, u32, String),
    /// Ready to post: source, beatmap id, mode and skin identifier.
    Posting(PostKind, u32, GameMode, String),
    /// Finished with an answer.
    Replied(Answer),
    /// A skin was asked for but the replay names no player.
    PlayerNameMissing,
}

/// The outcome of the lookup a suggestion waits for.
pub enum SuggestEvent {
    /// Whether the score or replay was requested before.
    Requested(bool),
    /// The score with the id, if there is one.
    ScoreFound(Option<ScoreSummary>),
    /// Whether the player has the skin.
    SkinFound(bool),
    /// The bytes of the uploaded replay file.
    ReplayDownloaded(Vec<u8>),
    /// The id of the replay's beatmap, if it was found.
    MapFound(Option<u32>),
    /// The id of the player with the name, if there is one.
    PlayerFound(Option<u32>),
}

/// What the bot does next for a suggestion.
pub enum SuggestAction {
    /// Look up whether this score id or replay checksum was requested.
    IsRequested(String),
    /// Look up the score with this id.
    FetchScore(u64),
    /// Look up whether the player (osu! id) has a skin of this name.
    HasSkin(u32, String),
    /// Download the uploaded replay file.
    DownloadReplay,
    /// Look up the beatmap with this checksum.
    FindMap(Option<String>),
    /// Look up the osu! player with this name.
    FindPlayer(String),
    /// Record `record` as requested and post the suggestion with these
    /// button parameters for a score in `mode`.
    Post { record: String, parameters: String, mode: GameMode },
    /// Give this answer; the suggestion is over.
    Reply(Answer),
    /// Stop: a skin was asked for a replay that names no player.
    Fail,
}

/// The checksum that identifies a replay among requests.
pub open spec fn checksum_view(r: ReplayInfo) -> Seq<char> {
    match r.replay_hash {
        Some(h) => h@,
        None => Seq::empty(),
    }
}

/// The state a suggestion starts in.
pub open spec fn spec_suggest_start(input: ScoreInput) -> SuggestState {
    match input {
        ScoreInput::Id(id) => SuggestState::CheckScore(id),
        ScoreInput::File => SuggestState::DownloadReplay,
        ScoreInput::Nothing => SuggestState::Replied(Answer::NoScoreGiven),
    }
}

/// The state after the skin check: posting with the skin when the player
/// has it, else the answer that the skin does not exist.
pub open spec fn after_skin_check(kind: PostKind, map_id: u32, mode: GameMode, skin: String, found: bool) -> SuggestState {
    if found {
        SuggestState::Posting(kind, map_id, mode, skin)
    } else {
        SuggestState::Replied(Answer::SkinNameUnknown(skin))
    }
}

/// The state after a skin lookup was decided: with no skin asked for the
/// suggestion is posted without one, else the skin is checked (`check`).
pub open spec fn posting_without_skin(s2: SuggestState, kind: PostKind, map_id: u32, mode: GameMode) -> bool {
    s2 matches SuggestState::Posting(k, m, g, ident) && k == kind && m == map_id && g == mode
        && ident@ == EMPTY_VALUE@
}

/// `s2` is the state that follows `s` when the lookup it waits for gives
/// `e`. An outcome of another lookup leaves the state as it is, and a
/// finished suggestion stays finished.
pub open spec fn suggest_transition(s: SuggestState, req: SuggestRequest, e: SuggestEvent, s2: SuggestState) -> bool {
    match (s, e) {
        (SuggestState::CheckScore(id), SuggestEvent::Requested(seen)) => if seen {
            s2 == SuggestState::Replied(Answer::ScoreAlreadyRequested(id))
        } else {
            s2 == SuggestState::FetchScore(id)
        },
        (SuggestState::FetchScore(id), SuggestEvent::ScoreFound(found)) => match found {
            None => s2 == SuggestState::Replied(Answer::ScoreNotFound(id)),
            Some(score) => if !score.has_replay {
                s2 == SuggestState::Replied(Answer::ScoreWithoutReplay)
            } else {
                match req.skin {
                    Some(name) => s2 == SuggestState::CheckScoreSkin(id, score, name),
                    None => posting_without_skin(
                        s2,
                        PostKind::Score { requested: id, shown: score.id },
                        score.map_id,
                        score.mode,
                    ),
                }
            },
        },
        (SuggestState::CheckScoreSkin(id, score, name), SuggestEvent::SkinFound(found)) => s2
            == after_skin_check(PostKind::Score { requested: id, shown: score.id }, score.map_id, score.mode, name, found),
        (SuggestState::DownloadReplay, SuggestEvent::ReplayDownloaded(bytes)) => match s2 {
            SuggestState::Replied(a) => a == Answer::ReplayUnreadable && (replay_lengths_overflow(bytes@)
                || parsed_replay(bytes@) is None),
            SuggestState::CheckReplay(r) => !replay_lengths_overflow(bytes@) && parsed_replay(bytes@) == Some(
                replay_view(r),
            ) && r.mode < 4,
            _ => false,
        },
        (SuggestState::CheckReplay(r), SuggestEvent::Requested(seen)) => if seen {
            s2 == SuggestState::Replied(Answer::ReplayAlreadyRequested)
        } else {
            s2 == SuggestState::FindMap(r)
        },
        (SuggestState::FindMap(r), SuggestEvent::MapFound(found)) => match found {
            None => s2 == SuggestState::Replied(Answer::ReplayMapNotFound),
            Some(map_id) => match req.skin {
                Some(name) => match r.player_name {
                    Some(player) => s2 == SuggestState::FindPlayer(r, map_id, player, name),
                    None => s2 == SuggestState::PlayerNameMissing,
                },
                None => posting_without_skin(s2, PostKind::Replay(r), map_id, spec_game_mode_from(r.mode)),
            },
        },
        (SuggestState::FindPlayer(r, map_id, player, name), SuggestEvent::PlayerFound(found)) => match found {
            None => s2 == SuggestState::Replied(Answer::PlayerNotFound(player)),
            Some(player_id) => s2 == SuggestState::CheckReplaySkin(r, map_id, player_id, name),
        },
        (SuggestState::CheckReplaySkin(r, map_id, _player_id, name), SuggestEvent::SkinFound(found)) => s2
            == after_skin_check(PostKind::Replay(r), map_id, spec_game_mode_from(r.mode), name, found),
        _ => s2 == s,
    }
}

/// The key under which a checked score or replay is recorded.
pub open spec fn post_key(kind: PostKind) -> Seq<char> {
    match kind {
        PostKind::Score { requested, shown: _ } => decimal(requested as nat),
        PostKind::Replay(r) => checksum_view(r),
    }
}

/// The source shown in the suggestion's parameters.
pub open spec fn post_head(kind: PostKind) -> Seq<char> {
    match kind {
        PostKind::Score { requested: _, shown } => "scoreid:"@ + decimal(shown as nat),
        PostKind::Replay(r) => "replayfile:"@ + checksum_view(r),
    }
}

/// `a` is the action of state `s`.
pub open spec fn suggest_action(s: SuggestState, req: SuggestRequest, a: SuggestAction) -> bool {
    match s {
        SuggestState::CheckScore(id) => a matches SuggestAction::IsRequested(k) && k@ == decimal(id as nat),
        SuggestState::FetchScore(id) => a == SuggestAction::FetchScore(id),
        SuggestState::CheckScoreSkin(_, score, name) => a matches SuggestAction::HasSkin(u, n) && u
            == score.user_id && n@ == name@,
        SuggestState::DownloadReplay => a == SuggestAction::DownloadReplay,
        SuggestState::CheckReplay(r) => a matches SuggestAction::IsRequested(k) && k@ == checksum_view(r),
        SuggestState::FindMap(r) => a matches SuggestAction::FindMap(h) && match (h, r.beatmap_hash) {
            (Some(x), Some(y)) => x@ == y@,
            (None, None) => true,
            _ => false,
        },
        SuggestState::FindPlayer(_, _, player, _) => a matches SuggestAction::FindPlayer(p) && p@ == player@,
        SuggestState::CheckReplaySkin(_, _, player_id, name) => a matches SuggestAction::HasSkin(u, n) && u
            == player_id && n@ == name@,
        SuggestState::Posting(kind, map_id, mode, ident) => a matches SuggestAction::Post {
            record,
            parameters,
            mode: m,
        } && record@ == post_key(kind) && parameters@ == spec_parameters(
            post_head(kind),
            map_id,
            req.requesting_user,
            ident@,
        ) && m == mode,
        SuggestState::Replied(answer) => a == SuggestAction::Reply(answer),
        SuggestState::PlayerNameMissing => a == SuggestAction::Fail,
    }
}

/// The suggestion is over: answered, posted or stopped.
pub open spec fn is_finished(s: SuggestState) -> bool {
    s is Posting || s is Replied || s is PlayerNameMissing
}

/// The state a suggestion of `score_id` or of an uploaded file
/// (`has_file`) starts in: a score id wins over a file, and with neither
/// the suggestion is answered at once.
pub fn suggest_start(score_id: Option<u64>, has_file: bool) -> (s: SuggestState)
    ensures
        s == spec_suggest_start(
            match score_id {
                Some(id) => ScoreInput::Id(id),
                None => if has_file {
                    ScoreInput::File
                } else {
                    ScoreInput::Nothing
                },
            },
        ),
{
    match score_input(score_id, has_file) {
        ScoreInput::Id(id) => SuggestState::CheckScore(id),
        ScoreInput::File => SuggestState::DownloadReplay,
        ScoreInput::Nothing => SuggestState::Replied(Answer::NoScoreGiven),
    }
}

fn clone_opt(s: &Option<String>) -> (c: Option<String>)
    ensures
        c == *s,
{
    match s {
        Some(x) => Some(x.clone()),
        None => None,
    }
}

/// The state after a skin check, or posting without skin when none was
/// asked for.
fn skin_outcome(kind: PostKind, map_id: u32, mode: GameMode, skin: Option<String>, found: bool) -> (s2: SuggestState)
    ensures
        match skin {
            Some(name) => s2 == after_skin_check(kind, map_id, mode, name, found),
            None => posting_without_skin(s2, kind, map_id, mode),
        },
{
    match chosen_skin(skin, found) {
        Ok(identifier) => SuggestState::Posting(kind, map_id, mode, identifier),
        Err(a) => SuggestState::Replied(a),
    }
}

/// The state that follows when the lookup the suggestion waits for gives
/// `event`.
pub fn suggest_step(state: SuggestState, request: &SuggestRequest, event: SuggestEvent) -> (next: SuggestState)
    ensures
        suggest_transition(state, *request, event, next),
{
    match (state, event) {
        (SuggestState::CheckScore(id), SuggestEvent::Requested(seen)) => if seen {
            SuggestState::Replied(Answer::ScoreAlreadyRequested(id))
        } else {
            SuggestState::FetchScore(id)
        },
        (SuggestState::FetchScore(id), SuggestEvent::ScoreFound(found)) => match found {
            None => SuggestState::Replied(Answer::ScoreNotFound(id)),
            Some(score) => if !score.has_replay {
                SuggestState::Replied(Answer::ScoreWithoutReplay)
            } else {
                match clone_opt(&request.skin) {
                    Some(name) => SuggestState::CheckScoreSkin(id, score, name),
                    None => skin_outcome(
                        PostKind::Score { requested: id, shown: score.id },
                        score.map_id,
                        score.mode,
                        None,
                        false,
                    ),
                }
            },
        },
        (SuggestState::CheckScoreSkin(id, score, name), SuggestEvent::SkinFound(found)) => skin_outcome(
            PostKind::Score { requested: id, shown: score.id },
            score.map_id,
            score.mode,
            Some(name),
            found,
        ),
        (SuggestState::DownloadReplay, SuggestEvent::ReplayDownloaded(bytes)) => match read_replay(
            bytes.as_slice(),
        ) {
            Ok(r) => SuggestState::CheckReplay(r),
            Err(a) => SuggestState::Replied(a),
        },
        (SuggestState::CheckReplay(r), SuggestEvent::Requested(seen)) => if seen {
            SuggestState::Replied(Answer::ReplayAlreadyRequested)
        } else {
            SuggestState::FindMap(r)
        },
        (SuggestState::FindMap(r), SuggestEvent::MapFound(found)) => match found {
            None => SuggestState::Replied(Answer::ReplayMapNotFound),
            Some(map_id) => match clone_opt(&request.skin) {
                Some(name) => match clone_opt(&r.player_name) {
                    Some(player) => SuggestState::FindPlayer(r, map_id, player, name),
                    None => SuggestState::PlayerNameMissing,
                },
                None => {
                    let mode = game_mode_from(r.mode);
                    skin_outcome(PostKind::Replay(r), map_id, mode, None, false)
                },
            },
        },
        (SuggestState::FindPlayer(r, map_id, player, name), SuggestEvent::PlayerFound(found)) => match found {
            None => SuggestState::Replied(Answer::PlayerNotFound(player)),
            Some(player_id) => SuggestState::CheckReplaySkin(r, map_id, player_id, name),
        },
        (SuggestState::CheckReplaySkin(r, map_id, player_id, name), SuggestEvent::SkinFound(found)) => {
            let mode = game_mode_from(r.mode);
            skin_outcome(PostKind::Replay(r), map_id, mode, Some(name), found)
        },
        (s, _) => s,
    }
}

/// What the bot does next for a suggestion in `state`.
pub fn next_action(state: &SuggestState, request: &SuggestRequest) -> (a: SuggestAction)
    ensures
        suggest_action(*state, *request, a),
{
    match state {
        SuggestState::CheckScore(id) => SuggestAction::IsRequested(to_decimal(*id)),
        SuggestState::FetchScore(id) => SuggestAction::FetchScore(*id),
        SuggestState::CheckScoreSkin(_, score, name) => SuggestAction::HasSkin(score.user_id, name.clone()),
        SuggestState::DownloadReplay => SuggestAction::DownloadReplay,
        SuggestState::CheckReplay(r) => SuggestAction::IsRequested(replay_checksum(r)),
        SuggestState::FindMap(r) => SuggestAction::FindMap(clone_opt(&r.beatmap_hash)),
        SuggestState::FindPlayer(_, _, player, _) => SuggestAction::FindPlayer(player.clone()),
        SuggestState::CheckReplaySkin(_, _, player_id, name) => SuggestAction::HasSkin(*player_id, name.clone()),
        SuggestState::Posting(kind, map_id, mode, identifier) => {
            let (record, source) = match kind {
                PostKind::Score { requested, shown } => (to_decimal(*requested), SuggestSource::ScoreId(*shown)),
                PostKind::Replay(r) => (replay_checksum(r), SuggestSource::ReplayFile(replay_checksum(r))),
            };
            let parameters = suggestion_parameters(&source, *map_id, request.requesting_user, identifier.as_str());
            SuggestAction::Post { record, parameters, mode: *mode }
        },
        SuggestState::Replied(answer) => SuggestAction::Reply(copy_answer(answer)),
        SuggestState::PlayerNameMissing => SuggestAction::Fail,
    }
}

/// The key a state asks the duplicate check about.
pub open spec fn checked_key(s: SuggestState) -> Option<Seq<char>> {
    match s {
        SuggestState::CheckScore(id) => Some(decimal(id as nat)),
        SuggestState::CheckReplay(r) => Some(checksum_view(r)),
        _ => None,
    }
}

/// The key of a state past the duplicate check: the score id asked for or
/// the replay's checksum, which is what gets recorded when posting.
pub open spec fn cleared_key(s: SuggestState) -> Option<Seq<char>> {
    match s {
        SuggestState::FetchScore(id) => Some(decimal(id as nat)),
        SuggestState::CheckScoreSkin(id, _, _) => Some(decimal(id as nat)),
        SuggestState::FindMap(r) => Some(checksum_view(r)),
        SuggestState::FindPlayer(r, _, _, _) => Some(checksum_view(r)),
        SuggestState::CheckReplaySkin(r, _, _, _) => Some(checksum_view(r)),
        SuggestState::Posting(kind, _, _, _) => Some(post_key(kind)),
        _ => None,
    }
}

/// `states` is a run of the suggestion machine on `events`: each state
/// follows from the one before it by the event between them.
pub open spec fn is_suggest_run(req: SuggestRequest, events: Seq<SuggestEvent>, states: Seq<SuggestState>) -> bool {
    &&& states.len() == events.len() + 1
    &&& forall|i: int|
        0 <= i < events.len() ==> #[trigger] suggest_transition(states[i], req, events[i], states[i + 1])
}

proof fn lemma_cleared_key_step(s: SuggestState, req: SuggestRequest, e: SuggestEvent, s2: SuggestState, k: Seq<char>)
    requires
        suggest_transition(s, req, e, s2),
        cleared_key(s2) == Some(k),
    ensures
        cleared_key(s) == Some(k) || (checked_key(s) == Some(k) && e == SuggestEvent::Requested(false)),
{
}

proof fn lemma_cleared_key_run(
    req: SuggestRequest,
    events: Seq<SuggestEvent>,
    states: Seq<SuggestState>,
    j: int,
    k: Seq<char>,
)
    requires
        is_suggest_run(req, events, states),
        cleared_key(states[0]) is None,
        0 <= j < states.len(),
        cleared_key(states[j]) == Some(k),
    ensures
        exists|i: int|
            0 <= i < j && checked_key(#[trigger] states[i]) == Some(k) && events[i] == SuggestEvent::Requested(
                false,
            ),
    decreases j,
{
    if j > 0 {
        let i = j - 1;
        assert(suggest_transition(states[i], req, events[i], states[i + 1]));
        assert(i + 1 == j);
        lemma_cleared_key_step(states[i], req, events[i], states[i + 1], k);
        if cleared_key(states[j - 1]) == Some(k) {
            lemma_cleared_key_run(req, events, states, j - 1, k);
        }
    }
}

/// No suggestion is posted without the duplicate check: whatever the
/// lookups answer, a run from the start that ends posting passed a check
/// that found the recorded key (the score id asked for, or the replay's
/// checksum) not requested before.
pub proof fn law_posted_only_after_duplicate_check(
    input: ScoreInput,
    req: SuggestRequest,
    events: Seq<SuggestEvent>,
    states: Seq<SuggestState>,
)
    requires
        is_suggest_run(req, events, states),
        states[0] == spec_suggest_start(input),
        states.last() is Posting,
    ensures
        exists|i: int|
            0 <= i < events.len() && checked_key(#[trigger] states[i]) == Some(post_key(states.last()->Posting_0))
                && events[i] == SuggestEvent::Requested(false),
{
    let j = states.len() - 1;
    lemma_cleared_key_run(req, events, states, j, post_key(states.last()->Posting_0));
}

/// A finished suggestion stays finished: answered, posted or stopped, no
/// lookup outcome changes it.
pub proof fn law_finished_is_final(s: SuggestState, req: SuggestRequest, e: SuggestEvent, s2: SuggestState)
    requires
        is_finished(s),
        suggest_transition(s, req, e, s2),
    ensures
        s2 == s,
{
}

/// A score (or replay) is suggested at most once. `recorded` holds the keys
/// recorded as requested; a posted suggestion records its key (the action of
/// a posting state records `post_key`). When every duplicate check of a
/// later suggestion is answered from records that hold that key, the later
/// suggestion is not posted under the same key.
pub proof fn law_suggested_at_most_once(
    earlier: PostKind,
    recorded: Set<Seq<char>>,
    input: ScoreInput,
    req: SuggestRequest,
    events: Seq<SuggestEvent>,
    states: Seq<SuggestState>,
)
    requires
        recorded.contains(post_key(earlier)),
        is_suggest_run(req, events, states),
        states[0] == spec_suggest_start(input),
        forall|i: int|
            0 <= i < events.len() && #[trigger] checked_key(states[i]) is Some && events[i] is Requested
                ==> events[i] == SuggestEvent::Requested(recorded.contains(checked_key(states[i])->0)),
    ensures
        !(states.last() matches SuggestState::Posting(kind, _, _, _) && post_key(kind) == post_key(earlier)),
{
    if states.last() matches SuggestState::Posting(kind, _, _, _) && post_key(kind) == post_key(earlier) {
        law_posted_only_after_duplicate_check(input, req, events, states);
        let i = choose|i: int|
            0 <= i < events.len() && checked_key(#[trigger] states[i]) == Some(post_key(states.last()->Posting_0))
                && events[i] == SuggestEvent::Requested(false);
        assert(checked_key(states[i]) is Some);
        assert(events[i] == SuggestEvent::Requested(recorded.contains(checked_key(states[i])->0)));
    }
}

/// A skin the player does not have is refused: when the check of the named
/// skin answers that the player has no skin of that name, the suggestion
/// ends with the answer that the skin does not exist, for a score found by
/// id and for a replay file alike.
pub proof fn law_unknown_skin_is_refused(s: SuggestState, req: SuggestRequest, s2: SuggestState)
    requires
        suggest_transition(s, req, SuggestEvent::SkinFound(false), s2),
    ensures
        s matches SuggestState::CheckScoreSkin(_, _, name) ==> s2 == SuggestState::Replied(
            Answer::SkinNameUnknown(name),
        ),
        s matches SuggestState::CheckReplaySkin(_, _, _, name) ==> s2 == SuggestState::Replied(
            Answer::SkinNameUnknown(name),
        ),
{
}

/// The state checks whether the player has a skin named `name`.
pub open spec fn checks_skin(s: SuggestState, name: String) -> bool {
    match s {
        SuggestState::CheckScoreSkin(_, _, n) => n == name,
        SuggestState::CheckReplaySkin(_, _, _, n) => n == name,
        _ => false,
    }
}

proof fn lemma_named_skin_confirmed(req: SuggestRequest, events: Seq<SuggestEvent>, states: Seq<SuggestState>, j: int)
    requires
        is_suggest_run(req, events, states),
        !(states[0] is Posting),
        0 <= j < states.len(),
        states[j] matches SuggestState::Posting(_, _, _, ident) && ident@ != EMPTY_VALUE@,
    ensures
        exists|i: int|
            0 <= i < j && events[i] == SuggestEvent::SkinFound(true) && checks_skin(#[trigger] states[i], states[j]->Posting_3),
    decreases j,
{
    let i = j - 1;
    assert(suggest_transition(states[i], req, events[i], states[i + 1]));
    assert(i + 1 == j);
    if states[i] is Posting {
        assert(states[i] == states[j]);
        lemma_named_skin_confirmed(req, events, states, i);
    }
}

/// A suggestion is posted with a named skin only after the check that the
/// player has a skin of that name answered yes: in a run from the start
/// that ends posting with a skin identifier other than the empty value,
/// some step checked a skin of exactly that name and found it.
pub proof fn law_named_skin_was_confirmed(
    input: ScoreInput,
    req: SuggestRequest,
    events: Seq<SuggestEvent>,
    states: Seq<SuggestState>,
)
    requires
        is_suggest_run(req, events, states),
        states[0] == spec_suggest_start(input),
        states.last() matches SuggestState::Posting(_, _, _, ident) && ident@ != EMPTY_VALUE@,
    ensures
        exists|i: int|
            0 <= i < events.len() && events[i] == SuggestEvent::SkinFound(true) && checks_skin(#[trigger] states[i], states.last()->Posting_3),
{
    lemma_named_skin_confirmed(req, events, states, states.len() - 1);
}

} // verus!
