//! The blacklist commands (put a member on the blacklist, take one off) as
//! a machine: each state names the lookup or write the command waits for.

use vstd::prelude::*;
use crate::commands::{blacklist_account, copy_answer, Answer};
use crate::store::User;

verus! {

/// A blacklist change: the member's Discord id and display name, and
/// whether the member is put on the blacklist (or taken off).
#[derive(Debug)]
pub struct BlacklistRequest {
    pub discord_id: u64,
    pub display_name: String,
    pub adding: bool,
}

/// Where a blacklist change stands.
#[derive(Debug)]
pub enum BlacklistState {
    /// Is the member in the database?
    FindUser,
    /// Which osu! account has the member's display name?
    FindAccount,
    /// The member's name is no osu! account: the moderators are told, then
    /// the member is recorded with this account anyway.
    Warn(u32),
    /// The member is being added to the database with this osu! account.
    CreateUser(u32),
    /// The member's record is being written with its new flag.
    Update(User),
    /// Finished with an answer.
    Replied(Answer),
}

/// The outcome of what a blacklist change waits for.
#[derive(Debug)]
pub enum BlacklistEvent {
    UserFound(Option<User>),
    AccountFound(Option<u32>),
    Warned,
    UserCreated(User),
    Written,
}

/// What the bot does next for a blacklist change.
#[derive(Debug)]
pub enum BlacklistAction {
    FindUser(u64),
    FindAccount(String),
    /// Send this answer and go on.
    Warn(Answer),
    CreateUser { osu_id: u32, discord_id: u64 },
    UpdateUser(User),
    Reply(Answer),
}

/// The state once the member's record is known: it is written with the
/// requested flag.
pub open spec fn flagged(req: BlacklistRequest, u: User) -> BlacklistState {
    BlacklistState::Update(User { is_blacklisted: req.adding, ..u })
}

/// The answer once the record is written.
pub open spec fn done_answer(req: BlacklistRequest) -> Answer {
    if req.adding {
        Answer::UserBlacklisted(req.discord_id)
    } else {
        Answer::UserUnblacklisted(req.discord_id)
    }
}

/// `s2` is the state that follows `s` when what it waits for gives `e`;
/// another outcome leaves the state as it is.
pub open spec fn blacklist_transition(
    s: BlacklistState,
    req: BlacklistRequest,
    e: BlacklistEvent,
    s2: BlacklistState,
) -> bool {
    match (s, e) {
        (BlacklistState::FindUser, BlacklistEvent::UserFound(found)) => match found {
            Some(u) => s2 == flagged(req, u),
            None => s2 == BlacklistState::FindAccount,
        },
        (BlacklistState::FindAccount, BlacklistEvent::AccountFound(found)) => match found {
            Some(osu_id) => s2 == BlacklistState::CreateUser(osu_id),
            None => if req.adding {
                s2 == BlacklistState::Warn(0)
            } else {
                s2 == BlacklistState::Replied(Answer::WrongUsername(req.discord_id))
            },
        },
        (BlacklistState::Warn(osu_id), BlacklistEvent::Warned) => s2 == BlacklistState::CreateUser(osu_id),
        (BlacklistState::CreateUser(_), BlacklistEvent::UserCreated(u)) => s2 == flagged(req, u),
        (BlacklistState::Update(_), BlacklistEvent::Written) => s2 == BlacklistState::Replied(done_answer(req)),
        _ => s2 == s,
    }
}

/// `a` is the action of state `s`.
pub open spec fn blacklist_action(s: BlacklistState, req: BlacklistRequest, a: BlacklistAction) -> bool {
    match s {
        BlacklistState::FindUser => a == BlacklistAction::FindUser(req.discord_id),
        BlacklistState::FindAccount => a matches BlacklistAction::FindAccount(n) && n@ == req.display_name@,
        BlacklistState::Warn(_) => a == BlacklistAction::Warn(Answer::WrongUsername(req.discord_id)),
        BlacklistState::CreateUser(osu_id) => a == (BlacklistAction::CreateUser {
            osu_id,
            discord_id: req.discord_id,
        }),
        BlacklistState::Update(u) => a == BlacklistAction::UpdateUser(u),
        BlacklistState::Replied(answer) => a == BlacklistAction::Reply(answer),
    }
}

/// A blacklist change starts by looking the member up.
pub fn blacklist_start() -> (s: BlacklistState)
    ensures
        s == BlacklistState::FindUser,
{
    BlacklistState::FindUser
}

/// The state that follows when what the change waits for gives `event`.
pub fn blacklist_step(state: BlacklistState, request: &BlacklistRequest, event: BlacklistEvent) -> (next:
    BlacklistState)
    ensures
        blacklist_transition(state, *request, event, next),
{
    match (state, event) {
        (BlacklistState::FindUser, BlacklistEvent::UserFound(found)) => match found {
            Some(u) => BlacklistState::Update(u.with_blacklist(request.adding)),
            None => BlacklistState::FindAccount,
        },
        (BlacklistState::FindAccount, BlacklistEvent::AccountFound(found)) => {
            let known = found.is_some();
            match blacklist_account(found, request.adding) {
                Some(osu_id) => if known {
                    BlacklistState::CreateUser(osu_id)
                } else {
                    BlacklistState::Warn(osu_id)
                },
                None => BlacklistState::Replied(Answer::WrongUsername(request.discord_id)),
            }
        },
        (BlacklistState::Warn(osu_id), BlacklistEvent::Warned) => BlacklistState::CreateUser(osu_id),
        (BlacklistState::CreateUser(_), BlacklistEvent::UserCreated(u)) => BlacklistState::Update(
            u.with_blacklist(request.adding),
        ),
        (BlacklistState::Update(_), BlacklistEvent::Written) => if request.adding {
            BlacklistState::Replied(Answer::UserBlacklisted(request.discord_id))
        } else {
            BlacklistState::Replied(Answer::UserUnblacklisted(request.discord_id))
        },
        (s, _) => s,
    }
}

/// What the bot does next for a blacklist change in `state`.
pub fn blacklist_next_action(state: &BlacklistState, request: &BlacklistRequest) -> (a: BlacklistAction)
    ensures
        blacklist_action(*state, *request, a),
{
    match state {
        BlacklistState::FindUser => BlacklistAction::FindUser(request.discord_id),
        BlacklistState::FindAccount => BlacklistAction::FindAccount(request.display_name.clone()),
        BlacklistState::Warn(_) => BlacklistAction::Warn(Answer::WrongUsername(request.discord_id)),
        BlacklistState::CreateUser(osu_id) => BlacklistAction::CreateUser {
            osu_id: *osu_id,
            discord_id: request.discord_id,
        },
        BlacklistState::Update(u) => BlacklistAction::UpdateUser(*u),
        BlacklistState::Replied(answer) => BlacklistAction::Reply(copy_answer(answer)),
    }
}

/// A record is written only with the flag the change asked for, and only
/// for the member it names.
pub proof fn law_blacklist_writes_requested_flag(
    s: BlacklistState,
    req: BlacklistRequest,
    e: BlacklistEvent,
    s2: BlacklistState,
)
    requires
        blacklist_transition(s, req, e, s2),
        !(s is Update),
        s2 is Update,
    ensures
        s2->Update_0.is_blacklisted == req.adding,
        e matches BlacklistEvent::UserFound(Some(u)) ==> s2->Update_0 == (User { is_blacklisted: req.adding, ..u }),
        e matches BlacklistEvent::UserCreated(u) ==> s2->Update_0 == (User { is_blacklisted: req.adding, ..u }),
{
}

/// Taking a member off the blacklist never records an account for a name
/// that is no osu! account: only a change that puts the member on the
/// blacklist goes on after an unknown name.
pub proof fn law_unknown_name_recorded_only_when_adding(
    req: BlacklistRequest,
    e: BlacklistEvent,
    s2: BlacklistState,
)
    requires
        blacklist_transition(BlacklistState::FindAccount, req, e, s2),
        e == BlacklistEvent::AccountFound(None),
    ensures
        req.adding <==> s2 == BlacklistState::Warn(0),
        !req.adding <==> s2 == BlacklistState::Replied(Answer::WrongUsername(req.discord_id)),
{
}

/// The later of two blacklist changes of a member decides: `users` is the
/// user table by row id, and each change writes the member's record (the
/// same row). After both writes, in order, the row carries the flag the
/// later change asked for; putting a member on the blacklist and then taking
/// them off leaves them off.
pub proof fn law_later_blacklist_change_decides(
    users: Map<i64, User>,
    s1: BlacklistState,
    req1: BlacklistRequest,
    e1: BlacklistEvent,
    w1: BlacklistState,
    s2: BlacklistState,
    req2: BlacklistRequest,
    e2: BlacklistEvent,
    w2: BlacklistState,
)
    requires
        blacklist_transition(s1, req1, e1, w1),
        !(s1 is Update),
        w1 is Update,
        blacklist_transition(s2, req2, e2, w2),
        !(s2 is Update),
        w2 is Update,
        w1->Update_0.id == w2->Update_0.id,
    ensures
        users.insert(w1->Update_0.id, w1->Update_0).insert(w2->Update_0.id, w2->Update_0)[w2->Update_0.id].is_blacklisted
            == req2.adding,
        req1.adding && !req2.adding ==> !users.insert(w1->Update_0.id, w1->Update_0).insert(
            w2->Update_0.id,
            w2->Update_0,
        )[w2->Update_0.id].is_blacklisted,
{
    law_blacklist_writes_requested_flag(s2, req2, e2, w2);
}

/// A member whose display name is an osu! account is recorded with that
/// account, without a warning, whether the change puts them on the
/// blacklist or takes them off; the warning (and the stand-in account) comes
/// only after the lookup found no account, and only when blacklisting.
pub proof fn law_known_account_is_recorded(
    s: BlacklistState,
    req: BlacklistRequest,
    e: BlacklistEvent,
    s2: BlacklistState,
)
    requires
        blacklist_transition(s, req, e, s2),
    ensures
        s is FindAccount ==> (e matches BlacklistEvent::AccountFound(Some(osu_id)) ==> s2
            == BlacklistState::CreateUser(osu_id)),
        s2 is Warn && !(s is Warn) ==> s is FindAccount && e == BlacklistEvent::AccountFound(None) && req.adding,
{
}

} // verus!
