//! The skin commands (save a skin link, list skins, remove a skin) as a
//! machine: each state names the lookup or write the command waits for.

use vstd::prelude::*;
use crate::commands::{
    copy_answer, relink_skin, skin_host, skin_link_is_valid, skin_listing, spec_skin_line, url_parses, Answer,
};
use crate::skin::DEFAULTS;
use crate::store::{
    apply_row_updates, create_writes, found_by_default, law_create_keeps_defaults_unique,
    law_update_keeps_defaults_unique, opt_record_of, record_of, table_wf, update_writes, Skin, SkinRecord, User,
};
use crate::text::{ends_with, starts_with};

verus! {

/// Which skin command runs, with its arguments.
#[derive(Debug)]
pub enum SkinCommand {
    /// Save `url` as the skin `identifier`, default for `default`.
    Save { url: String, identifier: String, default: DEFAULTS },
    /// List the skins, or the one with this identifier.
    Show { identifier: Option<String> },
    /// Remove the skin with this identifier, or every skin of the member
    /// when the identifier is empty.
    Remove { identifier: String },
}

/// A skin command and whether it was run for another member.
#[derive(Debug)]
pub struct SkinRequest {
    pub command: SkinCommand,
    pub for_member: bool,
}

/// The member a command is about: display name and Discord id.
#[derive(Debug)]
pub struct Target {
    pub username: String,
    pub discord_id: u64,
}

/// What the skin with the identifier is looked up for.
#[derive(Debug)]
pub enum SkinLookup {
    /// To give it a new link and default.
    Save { url: String, default: DEFAULTS },
    /// To show it.
    Show,
    /// To remove it.
    Remove,
}

/// Where a skin command stands.
#[derive(Debug)]
pub enum SkinState {
    /// Has the invoking user the replay role?
    CheckRole,
    /// Who is the member the command is about?
    ResolveTarget,
    /// Which osu! account has the member's display name?
    FindAccount(Target),
    /// Is the member (with this osu! account) in the database?
    FindUser(Target, u32),
    /// The member is being added to the database with this osu! account.
    CreateUser(Target, u32),
    /// Can the skin file at this link be downloaded (member, user, link,
    /// identifier)?
    Download(Target, User, String, String),
    /// Which skin stored under this user key has this identifier?
    FindSkin(Target, User, i64, String, SkinLookup),
    /// Which skins has the user?
    FindAllSkins(Target, User),
    /// Which skins has the user, to remove them all?
    FindSkinsToRemove(Target, User),
    /// The skin is being written with its new link and default.
    Update(Skin),
    /// A new skin is being stored: user, identifier, link, default.
    Create(User, String, String, DEFAULTS),
    /// The skin with this identifier is being deleted.
    Delete(Skin, String),
    /// These skins (all of the member's) are being deleted.
    DeleteAll(Vec<Skin>),
    /// Finished: these skins of the member are listed.
    List(Target, Vec<Skin>),
    /// Finished with an answer.
    Replied(Answer),
}

/// The outcome of what a skin command waits for.
#[derive(Debug)]
pub enum SkinEvent {
    RoleChecked(bool),
    TargetResolved(Target),
    AccountFound(Option<u32>),
    UserFound(Option<User>),
    UserCreated(User),
    Downloaded(bool),
    SkinFound(Option<Skin>),
    SkinsFound(Vec<Skin>),
    Written,
}

/// What the bot does next for a skin command.
#[derive(Debug)]
pub enum SkinAction {
    CheckReplayRole,
    ResolveTarget,
    FindAccount(String),
    FindUser(u64),
    CreateUser { osu_id: u32, discord_id: u64 },
    Download(String),
    /// Look up the skin with this identifier among the skins stored under
    /// this user key.
    FindSkin { user_key: i64, identifier: String },
    FindAllSkins(i64),
    UpdateSkin(Skin),
    CreateSkin { user: User, identifier: String, url: String, default: DEFAULTS },
    DeleteSkin(Skin),
    /// Delete all of these skins.
    DeleteSkins(Vec<Skin>),
    /// Show the listing: heading and one line per skin.
    List { heading: String, lines: Vec<String> },
    Reply(Answer),
}

/// The link rule for skins.
pub open spec fn link_ok(url: Seq<char>) -> bool {
    url_parses(url) && starts_with(url, skin_host()) && ends_with(url, ".osk"@)
}

/// The state after the permission check passed (or was not needed): saving
/// checks the link first.
pub open spec fn after_role(cmd: SkinCommand) -> SkinState {
    match cmd {
        SkinCommand::Save { url, identifier: _, default: _ } => if link_ok(url@) {
            SkinState::ResolveTarget
        } else {
            SkinState::Replied(Answer::InvalidSkinLink)
        },
        _ => SkinState::ResolveTarget,
    }
}

/// The state a skin command starts in: commands for another member (save
/// and remove) first check the invoking user's role.
pub open spec fn spec_skin_start(req: SkinRequest) -> SkinState {
    if req.for_member && !(req.command is Show) {
        SkinState::CheckRole
    } else {
        after_role(req.command)
    }
}

/// The state once the member's user record is known: saving downloads the
/// skin file first, showing looks up one skin or all, and removing looks up
/// the skin with the identifier, or all skins when the identifier is empty.
pub open spec fn after_user(cmd: SkinCommand, t: Target, u: User) -> SkinState {
    match cmd {
        SkinCommand::Save { url, identifier, default: _ } => SkinState::Download(t, u, url, identifier),
        SkinCommand::Show { identifier } => match identifier {
            Some(id) => SkinState::FindSkin(t, u, u.id, id, SkinLookup::Show),
            None => SkinState::FindAllSkins(t, u),
        },
        SkinCommand::Remove { identifier } => if identifier@.len() == 0 {
            SkinState::FindSkinsToRemove(t, u)
        } else {
            SkinState::FindSkin(t, u, u.id, identifier, SkinLookup::Remove)
        },
    }
}

/// `s2` is the state after looking up the skin with the identifier.
pub open spec fn after_skin(t: Target, u: User, identifier: String, lookup: SkinLookup, found: Option<Skin>, s2: SkinState) -> bool {
    match lookup {
        SkinLookup::Save { url, default } => match found {
            Some(s) => s2 == SkinState::Update(Skin { url, default, ..s }),
            None => s2 == SkinState::Create(u, identifier, url, default),
        },
        SkinLookup::Show => match found {
            Some(s) => s2 matches SkinState::List(t2, v) && t2 == t && v@ == seq![s],
            None => s2 == SkinState::Replied(Answer::NoSkinWithIdentifier),
        },
        SkinLookup::Remove => match found {
            Some(s) => s2 == SkinState::Delete(s, identifier),
            None => s2 == SkinState::Replied(Answer::SkinMissing(identifier)),
        },
    }
}

/// The answer when the member's display name is no osu! account.
pub open spec fn unlinked_answer(cmd: SkinCommand) -> Answer {
    if cmd is Save {
        Answer::AccountNotLinked
    } else {
        Answer::AccountNotLinkedOnLookup
    }
}

/// `s2` is the state that follows `s` when what it waits for gives `e`;
/// another outcome leaves the state as it is, and a finished command stays
/// finished.
///
/// After the download, a save looks the skin up among the skins stored under
/// the member's user record (`u.id`), the key every skin is stored under.
/// This is a deliberate choice: the identifier is the "name to reference
/// your skin", so saving again under a name replaces that skin rather than
/// adding a second one. A lookup under the member's Discord id would find
/// no stored skin and always add a new row.
pub open spec fn skin_transition(s: SkinState, req: SkinRequest, e: SkinEvent, s2: SkinState) -> bool {
    match (s, e) {
        (SkinState::CheckRole, SkinEvent::RoleChecked(ok)) => if ok {
            s2 == after_role(req.command)
        } else {
            s2 == SkinState::Replied(Answer::NoPermission)
        },
        (SkinState::ResolveTarget, SkinEvent::TargetResolved(t)) => s2 == SkinState::FindAccount(t),
        (SkinState::FindAccount(t), SkinEvent::AccountFound(found)) => match found {
            Some(osu_id) => s2 == SkinState::FindUser(t, osu_id),
            None => s2 == SkinState::Replied(unlinked_answer(req.command)),
        },
        (SkinState::FindUser(t, osu_id), SkinEvent::UserFound(found)) => match found {
            Some(u) => s2 == after_user(req.command, t, u),
            None => s2 == SkinState::CreateUser(t, osu_id),
        },
        (SkinState::CreateUser(t, _), SkinEvent::UserCreated(u)) => s2 == after_user(req.command, t, u),
        (SkinState::Download(t, u, url, identifier), SkinEvent::Downloaded(ok)) => if ok {
            match req.command {
                SkinCommand::Save { url: _, identifier: _, default } => s2 == SkinState::FindSkin(
                    t,
                    u,
                    u.id,
                    identifier,
                    SkinLookup::Save { url, default },
                ),
                _ => s2 == s,
            }
        } else {
            s2 == SkinState::Replied(Answer::SkinNotDownloadable)
        },
        (SkinState::FindSkin(t, u, _, identifier, lookup), SkinEvent::SkinFound(found)) => after_skin(
            t,
            u,
            identifier,
            lookup,
            found,
            s2,
        ),
        (SkinState::FindAllSkins(t, _), SkinEvent::SkinsFound(v)) => s2 matches SkinState::List(t2, v2) && t2 == t
            && v2@ == v@,
        (SkinState::FindSkinsToRemove(_, _), SkinEvent::SkinsFound(v)) => if v@.len() == 0 {
            s2 == SkinState::Replied(Answer::NoSkinsSaved)
        } else {
            s2 matches SkinState::DeleteAll(v2) && v2@ == v@
        },
        (SkinState::DeleteAll(_), SkinEvent::Written) => s2 == SkinState::Replied(Answer::AllSkinsRemoved),
        (SkinState::Update(_), SkinEvent::Written) => s2 == SkinState::Replied(Answer::SkinSaved),
        (SkinState::Create(..), SkinEvent::Written) => s2 == SkinState::Replied(Answer::SkinSaved),
        (SkinState::Delete(_, identifier), SkinEvent::Written) => s2 == SkinState::Replied(
            Answer::SkinRemoved(identifier),
        ),
        _ => s2 == s,
    }
}

/// `a` is the action of state `s`.
pub open spec fn skin_action(s: SkinState, a: SkinAction) -> bool {
    match s {
        SkinState::CheckRole => a == SkinAction::CheckReplayRole,
        SkinState::ResolveTarget => a == SkinAction::ResolveTarget,
        SkinState::FindAccount(t) => a matches SkinAction::FindAccount(n) && n@ == t.username@,
        SkinState::FindUser(t, _) => a == SkinAction::FindUser(t.discord_id),
        SkinState::CreateUser(t, osu_id) => a == (SkinAction::CreateUser { osu_id, discord_id: t.discord_id }),
        SkinState::Download(_, _, url, _) => a matches SkinAction::Download(x) && x@ == url@,
        SkinState::FindSkin(_, _, key, identifier, _) => a matches SkinAction::FindSkin { user_key, identifier: i }
            && user_key == key && i@ == identifier@,
        SkinState::FindAllSkins(_, u) => a == SkinAction::FindAllSkins(u.id),
        SkinState::FindSkinsToRemove(_, u) => a == SkinAction::FindAllSkins(u.id),
        SkinState::DeleteAll(skins) => a matches SkinAction::DeleteSkins(v) && v@ == skins@,
        SkinState::Update(skin) => a == SkinAction::UpdateSkin(skin),
        SkinState::Create(u, identifier, url, default) => a matches SkinAction::CreateSkin {
            user,
            identifier: i,
            url: l,
            default: d,
        } && user == u && i@ == identifier@ && l@ == url@ && d == default,
        SkinState::Delete(skin, _) => a == SkinAction::DeleteSkin(skin),
        SkinState::List(t, skins) => if skins@.len() == 0 {
            a == SkinAction::Reply(Answer::NoSkinsSaved)
        } else {
            a matches SkinAction::List { heading, lines } && heading@ == "Skins: "@ + t.username@
                && lines@.len() == skins@.len() && forall|i: int|
                0 <= i < skins@.len() ==> #[trigger] lines@[i]@ == spec_skin_line(
                    skins@[i].identifier@,
                    skins@[i].url@,
                    skins@[i].default,
                )
        },
        SkinState::Replied(answer) => a == SkinAction::Reply(answer),
    }
}

fn clone_skin(s: &Skin) -> (c: Skin)
    ensures
        c == *s,
{
    Skin { id: s.id, user: s.user, identifier: s.identifier.clone(), url: s.url.clone(), default: s.default }
}

fn clone_skins(skins: &Vec<Skin>) -> (c: Vec<Skin>)
    ensures
        c@ == skins@,
{
    let mut c: Vec<Skin> = Vec::new();
    let mut i: usize = 0;
    while i < skins.len()
        invariant
            i <= skins.len(),
            c@ == skins@.take(i as int),
        decreases skins.len() - i,
    {
        c.push(clone_skin(&skins[i]));
        assert(c@ =~= skins@.take(i + 1));
        i = i + 1;
    }
    assert(c@ =~= skins@);
    c
}

fn role_passed(command: &SkinCommand) -> (s: SkinState)
    ensures
        s == after_role(*command),
{
    match command {
        SkinCommand::Save { url, .. } => if skin_link_is_valid(url.as_str()) {
            SkinState::ResolveTarget
        } else {
            SkinState::Replied(Answer::InvalidSkinLink)
        },
        _ => SkinState::ResolveTarget,
    }
}

/// The state a skin command starts in.
pub fn skin_start(request: &SkinRequest) -> (s: SkinState)
    ensures
        s == spec_skin_start(*request),
{
    let is_show = match &request.command {
        SkinCommand::Show { .. } => true,
        _ => false,
    };
    if request.for_member && !is_show {
        SkinState::CheckRole
    } else {
        role_passed(&request.command)
    }
}

fn user_known(command: &SkinCommand, t: Target, u: User) -> (s: SkinState)
    ensures
        s == after_user(*command, t, u),
{
    match command {
        SkinCommand::Save { url, identifier, .. } => SkinState::Download(t, u, url.clone(), identifier.clone()),
        SkinCommand::Show { identifier } => match identifier {
            Some(id) => SkinState::FindSkin(t, u, u.id, id.clone(), SkinLookup::Show),
            None => SkinState::FindAllSkins(t, u),
        },
        SkinCommand::Remove { identifier } => if identifier.as_str().unicode_len() == 0 {
            SkinState::FindSkinsToRemove(t, u)
        } else {
            SkinState::FindSkin(t, u, u.id, identifier.clone(), SkinLookup::Remove)
        },
    }
}

/// The state that follows when what the command waits for gives `event`.
pub fn skin_step(state: SkinState, request: &SkinRequest, event: SkinEvent) -> (next: SkinState)
    ensures
        skin_transition(state, *request, event, next),
{
    match (state, event) {
        (SkinState::CheckRole, SkinEvent::RoleChecked(ok)) => if ok {
            role_passed(&request.command)
        } else {
            SkinState::Replied(Answer::NoPermission)
        },
        (SkinState::ResolveTarget, SkinEvent::TargetResolved(t)) => SkinState::FindAccount(t),
        (SkinState::FindAccount(t), SkinEvent::AccountFound(found)) => match found {
            Some(osu_id) => SkinState::FindUser(t, osu_id),
            None => match &request.command {
                SkinCommand::Save { .. } => SkinState::Replied(Answer::AccountNotLinked),
                _ => SkinState::Replied(Answer::AccountNotLinkedOnLookup),
            },
        },
        (SkinState::FindUser(t, osu_id), SkinEvent::UserFound(found)) => match found {
            Some(u) => user_known(&request.command, t, u),
            None => SkinState::CreateUser(t, osu_id),
        },
        (SkinState::CreateUser(t, _), SkinEvent::UserCreated(u)) => user_known(&request.command, t, u),
        (SkinState::Download(t, u, url, identifier), SkinEvent::Downloaded(ok)) => if ok {
            match &request.command {
                SkinCommand::Save { default, .. } => {
                    let key = u.id;
                    SkinState::FindSkin(t, u, key, identifier, SkinLookup::Save { url, default: *default })
                },
                _ => SkinState::Download(t, u, url, identifier),
            }
        } else {
            SkinState::Replied(Answer::SkinNotDownloadable)
        },
        (SkinState::FindSkin(t, u, key, identifier, lookup), SkinEvent::SkinFound(found)) => match lookup {
            SkinLookup::Save { url, default } => match found {
                Some(s) => SkinState::Update(relink_skin(s, url, default)),
                None => SkinState::Create(u, identifier, url, default),
            },
            SkinLookup::Show => match found {
                Some(s) => {
                    let mut v: Vec<Skin> = Vec::new();
                    v.push(s);
                    assert(v@ =~= seq![s]);
                    SkinState::List(t, v)
                },
                None => SkinState::Replied(Answer::NoSkinWithIdentifier),
            },
            SkinLookup::Remove => match found {
                Some(s) => SkinState::Delete(s, identifier),
                None => SkinState::Replied(Answer::SkinMissing(identifier)),
            },
        },
        (SkinState::FindAllSkins(t, _), SkinEvent::SkinsFound(v)) => SkinState::List(t, v),
        (SkinState::FindSkinsToRemove(_, _), SkinEvent::SkinsFound(v)) => if v.len() == 0 {
            SkinState::Replied(Answer::NoSkinsSaved)
        } else {
            SkinState::DeleteAll(v)
        },
        (SkinState::DeleteAll(_), SkinEvent::Written) => SkinState::Replied(Answer::AllSkinsRemoved),
        (SkinState::Update(_), SkinEvent::Written) => SkinState::Replied(Answer::SkinSaved),
        (SkinState::Create(..), SkinEvent::Written) => SkinState::Replied(Answer::SkinSaved),
        (SkinState::Delete(_, identifier), SkinEvent::Written) => SkinState::Replied(Answer::SkinRemoved(identifier)),
        (s, _) => s,
    }
}

/// What the bot does next for a skin command in `state`.
pub fn skin_next_action(state: &SkinState) -> (a: SkinAction)
    ensures
        skin_action(*state, a),
{
    match state {
        SkinState::CheckRole => SkinAction::CheckReplayRole,
        SkinState::ResolveTarget => SkinAction::ResolveTarget,
        SkinState::FindAccount(t) => SkinAction::FindAccount(t.username.clone()),
        SkinState::FindUser(t, _) => SkinAction::FindUser(t.discord_id),
        SkinState::CreateUser(t, osu_id) => SkinAction::CreateUser { osu_id: *osu_id, discord_id: t.discord_id },
        SkinState::Download(_, _, url, _) => SkinAction::Download(url.clone()),
        SkinState::FindSkin(_, _, key, identifier, _) => SkinAction::FindSkin {
            user_key: *key,
            identifier: identifier.clone(),
        },
        SkinState::FindAllSkins(_, u) => SkinAction::FindAllSkins(u.id),
        SkinState::FindSkinsToRemove(_, u) => SkinAction::FindAllSkins(u.id),
        SkinState::DeleteAll(skins) => SkinAction::DeleteSkins(clone_skins(skins)),
        SkinState::Update(skin) => SkinAction::UpdateSkin(clone_skin(skin)),
        SkinState::Create(u, identifier, url, default) => SkinAction::CreateSkin {
            user: *u,
            identifier: identifier.clone(),
            url: url.clone(),
            default: *default,
        },
        SkinState::Delete(skin, _) => SkinAction::DeleteSkin(clone_skin(skin)),
        SkinState::List(t, skins) => match skin_listing(t.username.as_str(), skins) {
            Ok((heading, lines)) => SkinAction::List { heading, lines },
            Err(a) => SkinAction::Reply(a),
        },
        SkinState::Replied(answer) => SkinAction::Reply(copy_answer(answer)),
    }
}

/// `states` is a run of the skin command `req`: each state follows the one
/// before it on the event between them.
pub open spec fn is_skin_run(req: SkinRequest, events: Seq<SkinEvent>, states: Seq<SkinState>) -> bool {
    &&& states.len() == events.len() + 1
    &&& forall|i: int| 0 <= i < events.len() ==> #[trigger] skin_transition(states[i], req, events[i], states[i + 1])
}

/// The command got past its permission check and link rule.
pub open spec fn past_gate(s: SkinState) -> bool {
    !(s is CheckRole) && !(s is Replied)
}

/// A skin is about to be written for a save: looked up for saving, updated
/// or created.
pub open spec fn saving(s: SkinState) -> bool {
    ||| s matches SkinState::FindSkin(_, _, _, _, lookup) && lookup is Save
    ||| s is Update
    ||| s is Create
}

/// Where a predicate on states holds at `j` but not at the start, the run
/// enters it at some step before `j`.
proof fn lemma_entry(states: Seq<SkinState>, q: spec_fn(SkinState) -> bool, j: int)
    requires
        0 <= j < states.len(),
        !q(states[0]),
        q(states[j]),
    ensures
        exists|i: int| 0 <= i < j && !q(#[trigger] states[i]) && q(states[i + 1]),
    decreases j,
{
    if !q(states[j - 1]) {
        assert(!q(states[j - 1]) && q(states[(j - 1) + 1]));
    } else {
        lemma_entry(states, q, j - 1);
    }
}

/// A skin is written only by a save whose link obeys the link rule, after
/// the skin file was downloaded, and, for another member, after the
/// invoking user's replay role was confirmed.
pub proof fn law_skin_written_only_when_valid(
    req: SkinRequest,
    events: Seq<SkinEvent>,
    states: Seq<SkinState>,
    j: int,
)
    requires
        is_skin_run(req, events, states),
        states[0] == spec_skin_start(req),
        0 <= j < states.len(),
        states[j] is Update || states[j] is Create,
    ensures
        req.command is Save,
        link_ok(req.command->Save_url@),
        exists|i: int| 0 <= i < j && #[trigger] states[i] is Download && events[i] == SkinEvent::Downloaded(true),
        req.for_member ==> exists|i: int|
            0 <= i < j && #[trigger] states[i] is CheckRole && events[i] == SkinEvent::RoleChecked(true),
{
    let sv = |s: SkinState| saving(s);
    lemma_entry(states, sv, j);
    let k = choose|i: int| 0 <= i < j && !sv(#[trigger] states[i]) && sv(states[i + 1]);
    assert(skin_transition(states[k], req, events[k], states[k + 1]));
    assert(states[k] is Download && events[k] == SkinEvent::Downloaded(true));
    assert(req.command is Save);
    let pg = |s: SkinState| past_gate(s);
    if pg(states[0]) {
        assert(link_ok(req.command->Save_url@));
    } else {
        lemma_entry(states, pg, j);
        let m = choose|i: int| 0 <= i < j && !pg(#[trigger] states[i]) && pg(states[i + 1]);
        assert(skin_transition(states[m], req, events[m], states[m + 1]));
        assert(states[m] is CheckRole && events[m] == SkinEvent::RoleChecked(true));
        assert(link_ok(req.command->Save_url@));
    }
}

/// A finished skin command (answered or listed) stays finished whatever
/// event comes.
pub proof fn law_skin_finished_is_final(s: SkinState, req: SkinRequest, e: SkinEvent, s2: SkinState)
    requires
        s is Replied || s is List,
        skin_transition(s, req, e, s2),
    ensures
        s2 == s,
{
}

/// Saving a skin over one found stored keeps every user's defaults unique:
/// `t` is the skin table, in which the found skin has its row; writing the
/// updated skin as the store plans it (given `found`, the user's stored skin
/// with the same default) keeps the table well formed and stores the skin.
pub proof fn law_skin_update_keeps_defaults_unique(
    t: Seq<SkinRecord>,
    s: SkinState,
    req: SkinRequest,
    old_skin: Skin,
    s2: SkinState,
    found: Option<Skin>,
)
    requires
        table_wf(t),
        skin_transition(s, req, SkinEvent::SkinFound(Some(old_skin)), s2),
        s is FindSkin,
        s2 is Update,
        exists|m: int| 0 <= m < t.len() && t[m].id == old_skin.id && t[m].user == old_skin.user.id,
        found_by_default(t, s2->Update_0.user.id, s2->Update_0.default, opt_record_of(found)),
    ensures
        table_wf(apply_row_updates(t, update_writes(record_of(s2->Update_0), opt_record_of(found)))),
        apply_row_updates(t, update_writes(record_of(s2->Update_0), opt_record_of(found))).contains(
            record_of(s2->Update_0),
        ),
{
    law_update_keeps_defaults_unique(t, s2->Update_0, found);
}

/// Saving a new skin keeps every user's defaults unique: inserting the skin
/// the command creates (its user, identifier, link and default, with an id
/// no row has) after the store's planned demotion of the user's skin with
/// the same default (`found`) keeps the table well formed.
pub proof fn law_skin_create_keeps_defaults_unique(
    t: Seq<SkinRecord>,
    s2: SkinState,
    new_skin: Skin,
    found: Option<Skin>,
)
    requires
        table_wf(t),
        s2 matches SkinState::Create(u, identifier, url, default) && new_skin.user == u && new_skin.identifier@
            == identifier@ && new_skin.url@ == url@ && new_skin.default == default,
        forall|i: int| 0 <= i < t.len() ==> t[i].id != new_skin.id,
        found_by_default(t, new_skin.user.id, new_skin.default, opt_record_of(found)),
    ensures
        table_wf(apply_row_updates(t, create_writes(opt_record_of(found))).push(record_of(new_skin))),
{
    law_create_keeps_defaults_unique(t, found, new_skin);
}

/// Showing all of a member's skins lists exactly the skins found, in order:
/// after the lookup of all skins gives `found`, the command answers that
/// the member has saved no skin when `found` is empty, and otherwise shows a
/// listing headed with the member's name with one line per skin found, the
/// line of skin `i` naming skin `i`.
pub proof fn law_listing_shows_every_skin_found(
    t: Target,
    u: User,
    req: SkinRequest,
    found: Vec<Skin>,
    s2: SkinState,
    a: SkinAction,
)
    requires
        skin_transition(SkinState::FindAllSkins(t, u), req, SkinEvent::SkinsFound(found), s2),
        skin_action(s2, a),
    ensures
        found@.len() == 0 <==> a == SkinAction::Reply(Answer::NoSkinsSaved),
        found@.len() > 0 ==> (a matches SkinAction::List { heading, lines } && heading@ == "Skins: "@ + t.username@
            && lines@.len() == found@.len() && forall|i: int|
            0 <= i < found@.len() ==> #[trigger] lines@[i]@ == spec_skin_line(
                found@[i].identifier@,
                found@[i].url@,
                found@[i].default,
            )),
{
}

/// Saving writes the link and default the command was given: over a stored
/// skin of that name it keeps the skin's id, user and identifier and takes
/// the new link and default; with no such skin it creates one for the
/// member's user with the given name, link and default.
pub proof fn law_save_writes_given_link(
    t: Target,
    u: User,
    key: i64,
    identifier: String,
    url: String,
    default: DEFAULTS,
    req: SkinRequest,
    found: Option<Skin>,
    s2: SkinState,
)
    requires
        skin_transition(
            SkinState::FindSkin(t, u, key, identifier, SkinLookup::Save { url, default }),
            req,
            SkinEvent::SkinFound(found),
            s2,
        ),
    ensures
        found matches Some(old) ==> (s2 matches SkinState::Update(sk) && sk.id == old.id && sk.user == old.user
            && sk.identifier == old.identifier && sk.url == url && sk.default == default),
        found is None ==> s2 == SkinState::Create(u, identifier, url, default),
{
}

/// Removing deletes what was found and nothing else: the skin of that name
/// when one is found (else the answer that it does not exist), and, for an
/// empty name, exactly the member's skins found (else the answer that the
/// member has saved no skin).
pub proof fn law_remove_deletes_what_was_found(
    t: Target,
    u: User,
    key: i64,
    identifier: String,
    req: SkinRequest,
    found: Option<Skin>,
    all: Vec<Skin>,
    s2: SkinState,
    s3: SkinState,
)
    requires
        skin_transition(
            SkinState::FindSkin(t, u, key, identifier, SkinLookup::Remove),
            req,
            SkinEvent::SkinFound(found),
            s2,
        ),
        skin_transition(SkinState::FindSkinsToRemove(t, u), req, SkinEvent::SkinsFound(all), s3),
    ensures
        found matches Some(sk) ==> s2 == SkinState::Delete(sk, identifier),
        found is None ==> s2 == SkinState::Replied(Answer::SkinMissing(identifier)),
        all@.len() > 0 ==> (s3 matches SkinState::DeleteAll(v) && v@ == all@),
        all@.len() == 0 ==> s3 == SkinState::Replied(Answer::NoSkinsSaved),
{
}

} // verus!
