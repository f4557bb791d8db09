//! The decisions and answers of the bot's commands: permission checks,
//! blacklist management, skin links, score suggestions and error handling.

use vstd::prelude::*;
use url::Url;
use crate::embeds::{MessageState, Reply};
use crate::replay::GameMode;
use crate::skin::{DEFAULTS, spec_default_name};
use crate::store::{Skin, User};
use crate::text::{decimal, ends_with, push_decimal, starts_with, str_ends_with, str_starts_with};

verus! {

// ---------------------------------------------------------------------------
// Answers

/// Every one-line answer the bot gives to a command.
#[derive(Debug, PartialEq, Eq)]
pub enum Answer {
    /// The user lacks the replay role.
    NoPermission,
    /// The user is on the blacklist.
    Blacklisted,
    /// The bot lacks permissions in the channel.
    BotMissingPermissions,
    /// A command failed.
    SomethingWentWrong,
    /// The member's display name is no osu! account (Discord id given).
    WrongUsername(u64),
    /// The member (Discord id given) was put on the blacklist.
    UserBlacklisted(u64),
    /// The member (Discord id given) was taken off the blacklist.
    UserUnblacklisted(u64),
    /// Nobody is on the blacklist.
    BlacklistEmpty,
    /// A skin link that is not a `.osk` download from the skin host.
    InvalidSkinLink,
    /// Saving a skin: the member's name is no osu! account.
    AccountNotLinked,
    /// Looking up skins: the member's name is no osu! account.
    AccountNotLinkedOnLookup,
    /// The skin file could not be downloaded.
    SkinNotDownloadable,
    /// The skin was saved.
    SkinSaved,
    /// The member has no skin with the identifier asked for.
    NoSkinWithIdentifier,
    /// The member has no skin at all.
    NoSkinsSaved,
    /// The skin with this identifier was removed.
    SkinRemoved(String),
    /// There is no skin with this identifier to remove.
    SkinMissing(String),
    /// Every skin of the member was removed.
    AllSkinsRemoved,
    /// The score with this id was requested before.
    ScoreAlreadyRequested(u64),
    /// There is no score with this id.
    ScoreNotFound(u64),
    /// The score has no replay to download.
    ScoreWithoutReplay,
    /// The player has no skin of this name.
    SkinNameUnknown(String),
    /// The replay file could not be read.
    ReplayUnreadable,
    /// The replay file was requested before.
    ReplayAlreadyRequested,
    /// The beatmap of the replay is unknown.
    ReplayMapNotFound,
    /// There is no osu! player of this name.
    PlayerNotFound(String),
    /// Neither a score id nor a replay file was given.
    NoScoreGiven,
    /// The score was posted for approval.
    ScoreRequested,
}

/// A Discord user mention, `<@id>`.
pub open spec fn spec_mention(discord_id: u64) -> Seq<char> {
    "<@"@ + decimal(discord_id as nat) + ">"@
}

/// Text, tone and visibility (only to the invoking user) of each answer.
pub open spec fn spec_answer(a: Answer) -> (Seq<char>, MessageState, bool) {
    match a {
        Answer::NoPermission => ("No permission L"@, MessageState::INFO, true),
        Answer::Blacklisted => ("You are blacklisted"@, MessageState::INFO, true),
        Answer::BotMissingPermissions => ("Bot has missing permissions"@, MessageState::ERROR, true),
        Answer::SomethingWentWrong => ("Something went wrong. blame Mikumin."@, MessageState::ERROR, false),
        Answer::WrongUsername(id) => (
            "User "@ + spec_mention(id) + " has the wrong username. please inform a moderator!"@,
            MessageState::SUCCESS,
            false,
        ),
        Answer::UserBlacklisted(id) => (
            "User "@ + spec_mention(id) + " has been blacklisted"@,
            MessageState::SUCCESS,
            false,
        ),
        Answer::UserUnblacklisted(id) => (
            "User "@ + spec_mention(id) + " has been removed from the blacklist"@,
            MessageState::SUCCESS,
            false,
        ),
        Answer::BlacklistEmpty => ("The blacklist is empty"@, MessageState::INFO, false),
        Answer::InvalidSkinLink => (
            "Please enter the download link to your skin in https://git.sulej.net/"@,
            MessageState::WARN,
            false,
        ),
        Answer::AccountNotLinked => (
            "Your username is not related to your osu!account. Please inform the mods to rename you!"@,
            MessageState::WARN,
            false,
        ),
        Answer::AccountNotLinkedOnLookup => (
            "Your username is not related to your osu!account. Please inform the mods to rename you!"@,
            MessageState::SUCCESS,
            false,
        ),
        Answer::SkinNotDownloadable => ("The skin file could not be downloaded"@, MessageState::WARN, false),
        Answer::SkinSaved => ("Skin has been saved"@, MessageState::SUCCESS, false),
        Answer::NoSkinWithIdentifier => (
            "This user has not a skin with that identifier"@,
            MessageState::INFO,
            false,
        ),
        Answer::NoSkinsSaved => ("This user has not saved a skin"@, MessageState::INFO, false),
        Answer::SkinRemoved(id) => ("Skin ```"@ + id@ + "``` has been removed!"@, MessageState::SUCCESS, false),
        Answer::SkinMissing(id) => ("Skin ```"@ + id@ + "``` does not exist!"@, MessageState::INFO, false),
        Answer::AllSkinsRemoved => ("All skins have been removed!"@, MessageState::SUCCESS, false),
        Answer::ScoreAlreadyRequested(id) => (
            "Score "@ + decimal(id as nat) + " has already been requested"@,
            MessageState::WARN,
            false,
        ),
        Answer::ScoreNotFound(id) => (
            "Score with id "@ + decimal(id as nat) + " does not exist"@,
            MessageState::ERROR,
            false,
        ),
        Answer::ScoreWithoutReplay => (
            "Score has no replay to download. Please provide the replay file"@,
            MessageState::ERROR,
            false,
        ),
        Answer::SkinNameUnknown(name) => (
            "Skin with that name "@ + name@ + " does not exist"@,
            MessageState::ERROR,
            false,
        ),
        Answer::ReplayUnreadable => ("Replay could not be parsed"@, MessageState::ERROR, false),
        Answer::ReplayAlreadyRequested => ("Score file has already been requested"@, MessageState::WARN, false),
        Answer::ReplayMapNotFound => ("Cannot find map related to the replay"@, MessageState::WARN, false),
        Answer::PlayerNotFound(name) => ("Could not find player ``"@ + name@ + "``"@, MessageState::ERROR, false),
        Answer::NoScoreGiven => ("Please define scoreid or scorefile"@, MessageState::WARN, false),
        Answer::ScoreRequested => ("Score has been requested!"@, MessageState::INFO, false),
    }
}

/// A Discord user mention.
pub fn mention(discord_id: u64) -> (m: String)
    ensures
        m@ == spec_mention(discord_id),
{
    let mut m = String::from_str("<@");
    push_decimal(&mut m, discord_id);
    m.append(">");
    m
}

fn around(before: &str, middle: &str, after: &str) -> (s: String)
    ensures
        s@ == before@ + middle@ + after@,
{
    let mut s = String::from_str(before);
    s.append(middle);
    s.append(after);
    s
}

fn around_number(before: &str, n: u64, after: &str) -> (s: String)
    ensures
        s@ == before@ + decimal(n as nat) + after@,
{
    let mut s = String::from_str(before);
    push_decimal(&mut s, n);
    s.append(after);
    s
}

fn reply(text: String, state: MessageState, ephemeral: bool) -> (r: Reply)
    ensures
        r.text@ == text@,
        r.state == state,
        r.ephemeral == ephemeral,
{
    Reply { text, state, ephemeral }
}

/// The reply that gives an answer.
pub fn answer(a: &Answer) -> (r: Reply)
    ensures
        (r.text@, r.state, r.ephemeral) == spec_answer(*a),
{
    match a {
        Answer::NoPermission => reply(String::from_str("No permission L"), MessageState::INFO, true),
        Answer::Blacklisted => reply(String::from_str("You are blacklisted"), MessageState::INFO, true),
        Answer::BotMissingPermissions => reply(
            String::from_str("Bot has missing permissions"),
            MessageState::ERROR,
            true,
        ),
        Answer::SomethingWentWrong => reply(
            String::from_str("Something went wrong. blame Mikumin."),
            MessageState::ERROR,
            false,
        ),
        Answer::WrongUsername(id) => {
            let m = mention(*id);
            reply(
                around("User ", m.as_str(), " has the wrong username. please inform a moderator!"),
                MessageState::SUCCESS,
                false,
            )
        },
        Answer::UserBlacklisted(id) => {
            let m = mention(*id);
            reply(around("User ", m.as_str(), " has been blacklisted"), MessageState::SUCCESS, false)
        },
        Answer::UserUnblacklisted(id) => {
            let m = mention(*id);
            reply(
                around("User ", m.as_str(), " has been removed from the blacklist"),
                MessageState::SUCCESS,
                false,
            )
        },
        Answer::BlacklistEmpty => reply(String::from_str("The blacklist is empty"), MessageState::INFO, false),
        Answer::InvalidSkinLink => reply(
            String::from_str("Please enter the download link to your skin in https://git.sulej.net/"),
            MessageState::WARN,
            false,
        ),
        Answer::AccountNotLinked => reply(
            String::from_str(
                "Your username is not related to your osu!account. Please inform the mods to rename you!",
            ),
            MessageState::WARN,
            false,
        ),
        Answer::AccountNotLinkedOnLookup => reply(
            String::from_str(
                "Your username is not related to your osu!account. Please inform the mods to rename you!",
            ),
            MessageState::SUCCESS,
            false,
        ),
        Answer::SkinNotDownloadable => reply(
            String::from_str("The skin file could not be downloaded"),
            MessageState::WARN,
            false,
        ),
        Answer::SkinSaved => reply(String::from_str("Skin has been saved"), MessageState::SUCCESS, false),
        Answer::NoSkinWithIdentifier => reply(
            String::from_str("This user has not a skin with that identifier"),
            MessageState::INFO,
            false,
        ),
        Answer::NoSkinsSaved => reply(
            String::from_str("This user has not saved a skin"),
            MessageState::INFO,
            false,
        ),
        Answer::SkinRemoved(id) => reply(
            around("Skin ```", id.as_str(), "``` has been removed!"),
            MessageState::SUCCESS,
            false,
        ),
        Answer::SkinMissing(id) => reply(
            around("Skin ```", id.as_str(), "``` does not exist!"),
            MessageState::INFO,
            false,
        ),
        Answer::AllSkinsRemoved => reply(
            String::from_str("All skins have been removed!"),
            MessageState::SUCCESS,
            false,
        ),
        Answer::ScoreAlreadyRequested(id) => reply(
            around_number("Score ", *id, " has already been requested"),
            MessageState::WARN,
            false,
        ),
        Answer::ScoreNotFound(id) => reply(
            around_number("Score with id ", *id, " does not exist"),
            MessageState::ERROR,
            false,
        ),
        Answer::ScoreWithoutReplay => reply(
            String::from_str("Score has no replay to download. Please provide the replay file"),
            MessageState::ERROR,
            false,
        ),
        Answer::SkinNameUnknown(name) => reply(
            around("Skin with that name ", name.as_str(), " does not exist"),
            MessageState::ERROR,
            false,
        ),
        Answer::ReplayUnreadable => reply(
            String::from_str("Replay could not be parsed"),
            MessageState::ERROR,
            false,
        ),
        Answer::ReplayAlreadyRequested => reply(
            String::from_str("Score file has already been requested"),
            MessageState::WARN,
            false,
        ),
        Answer::ReplayMapNotFound => reply(
            String::from_str("Cannot find map related to the replay"),
            MessageState::WARN,
            false,
        ),
        Answer::PlayerNotFound(name) => reply(
            around("Could not find player ``", name.as_str(), "``"),
            MessageState::ERROR,
            false,
        ),
        Answer::NoScoreGiven => reply(
            String::from_str("Please define scoreid or scorefile"),
            MessageState::WARN,
            false,
        ),
        Answer::ScoreRequested => reply(
            String::from_str("Score has been requested!"),
            MessageState::INFO,
            false,
        ),
    }
}

// ---------------------------------------------------------------------------
// Checks run before commands

/// `role` is among the roles of a member.
pub fn has_role(roles: &Vec<u64>, role: u64) -> (b: bool)
    ensures
        b == roles@.contains(role),
{
    let mut i: usize = 0;
    while i < roles.len()
        invariant
            i <= roles.len(),
            forall|k: int| 0 <= k < i ==> roles@[k] != role,
        decreases roles.len() - i,
    {
        if roles[i] == role {
            assert(roles@[i as int] == role);
            return true;
        }
        i = i + 1;
    }
    false
}

/// Whether a command guarded by the replay role may run, and the answer to
/// give when it may not.
pub fn replay_role_check(has_replay_role: bool) -> (res: (bool, Option<Answer>))
    ensures
        res.0 == has_replay_role,
        res.1 == if has_replay_role { None } else { Some(Answer::NoPermission) },
{
    if !has_replay_role {
        return (false, Some(Answer::NoPermission));
    }
    (true, None)
}

/// Whether any command may run for a user, and the answer to give when the
/// user is blacklisted.
pub fn global_check(is_blacklisted: bool) -> (res: (bool, Option<Answer>))
    ensures
        res.0 == !is_blacklisted,
        res.1 == if is_blacklisted { Some(Answer::Blacklisted) } else { None },
{
    if is_blacklisted {
        return (false, Some(Answer::Blacklisted));
    }
    (true, None)
}

// ---------------------------------------------------------------------------
// Errors of the command framework

/// The kinds of failure the command framework reports.
#[derive(Debug, Clone, Copy, PartialEq, Eq, Structural)]
pub enum FrameworkErrorKind {
    CommandCheckFailed,
    MissingBotPermissions,
    MissingUserPermissions,
    CommandPanic,
    Other,
}

/// How a framework error is handled: the answer to give, if any, and
/// whether the error is written to the log.
pub struct ErrorHandling {
    pub answer: Option<Answer>,
    pub log: bool,
}

/// How an error is handled, given whether it came with a command context
/// (a panic always does).
pub open spec fn spec_handle_error(kind: FrameworkErrorKind, has_context: bool) -> (Option<Answer>, bool) {
    match kind {
        FrameworkErrorKind::CommandCheckFailed => (None, false),
        FrameworkErrorKind::MissingBotPermissions => if has_context {
            (Some(Answer::BotMissingPermissions), false)
        } else {
            (None, false)
        },
        FrameworkErrorKind::MissingUserPermissions => (None, false),
        FrameworkErrorKind::CommandPanic => (Some(Answer::SomethingWentWrong), true),
        FrameworkErrorKind::Other => if has_context {
            (Some(Answer::SomethingWentWrong), true)
        } else {
            (None, false)
        },
    }
}

/// Handling of an error of the command framework: failed checks and missing
/// user permissions are silent (the check answered already), missing bot
/// permissions are told to the user, anything else is logged and answered
/// with a generic failure.
pub fn handle_error(kind: FrameworkErrorKind, has_context: bool) -> (h: ErrorHandling)
    ensures
        (h.answer, h.log) == spec_handle_error(kind, has_context),
{
    match kind {
        FrameworkErrorKind::CommandCheckFailed => ErrorHandling { answer: None, log: false },
        FrameworkErrorKind::MissingBotPermissions => if has_context {
            ErrorHandling { answer: Some(Answer::BotMissingPermissions), log: false }
        } else {
            ErrorHandling { answer: None, log: false }
        },
        FrameworkErrorKind::MissingUserPermissions => ErrorHandling { answer: None, log: false },
        FrameworkErrorKind::CommandPanic => ErrorHandling { answer: Some(Answer::SomethingWentWrong), log: true },
        FrameworkErrorKind::Other => if has_context {
            ErrorHandling { answer: Some(Answer::SomethingWentWrong), log: true }
        } else {
            ErrorHandling { answer: None, log: false }
        },
    }
}

// ---------------------------------------------------------------------------
// Blacklist

/// The osu! account to record for a member who is not in the database yet,
/// given the lookup of their display name: when blacklisting, an unknown
/// name is recorded as account 0 (after a warning); when taking a member off
/// the blacklist, an unknown name stops the command (`None`).
pub fn blacklist_account(lookup: Option<u32>, adding: bool) -> (osu_id: Option<u32>)
    ensures
        osu_id == if adding {
            Some(
                match lookup {
                    Some(id) => id,
                    None => 0u32,
                },
            )
        } else {
            lookup
        },
{
    if adding {
        match lookup {
            Some(id) => Some(id),
            None => Some(0),
        }
    } else {
        lookup
    }
}

/// The lines listing blacklisted users: one mention per user, each followed
/// by a line break.
pub open spec fn spec_blacklist_lines(users: Seq<User>) -> Seq<char>
    decreases users.len(),
{
    if users.len() == 0 {
        Seq::empty()
    } else {
        spec_blacklist_lines(users.drop_last()) + spec_mention(users.last().discord_id) + "\n"@
    }
}

/// The description of the blacklist embed, or the answer that the blacklist
/// is empty.
pub fn blacklist_description(users: &Vec<User>) -> (res: Result<String, Answer>)
    ensures
        users@.len() == 0 ==> res == Err::<String, Answer>(Answer::BlacklistEmpty),
        users@.len() > 0 ==> (res matches Ok(d) && d@ == spec_blacklist_lines(users@)),
{
    if users.len() == 0 {
        return Err(Answer::BlacklistEmpty);
    }
    let mut content = String::new();
    let mut i: usize = 0;
    while i < users.len()
        invariant
            i <= users.len(),
            content@ == spec_blacklist_lines(users@.take(i as int)),
        decreases users.len() - i,
    {
        let m = mention(users[i].discord_id);
        content.append(m.as_str());
        content.append("\n");
        assert(users@.take(i + 1).drop_last() =~= users@.take(i as int));
        i = i + 1;
    }
    assert(users@.take(users.len() as int) =~= users@);
    Ok(content)
}

// ---------------------------------------------------------------------------
// Skins

/// The address skins are downloaded from.
pub open spec fn skin_host() -> Seq<char> {
    "https://git.sulej.net/"@
}

/// What the `url` crate's parser makes of a string: whether it is an
/// absolute URL.
pub uninterp spec fn url_parses(s: Seq<char>) -> bool;

/// Whether `url::Url::parse` accepts `s` as an absolute URL. The result is
/// named `url_parses`, a function of the string alone; what the parser
/// accepts is not stated.
#[verifier::external_body]
fn is_url(s: &str) -> (b: bool)
    ensures
        b == url_parses(s@),
{
    Url::parse(s).is_ok()
}

/// A skin link is accepted when it parses as a URL (`parses`), points into
/// the skin host and names an `.osk` file.
pub fn skin_link_accepted(parses: bool, url: &str) -> (ok: bool)
    ensures
        ok == (parses && starts_with(url@, skin_host()) && ends_with(url@, ".osk"@)),
{
    parses && str_starts_with(url, "https://git.sulej.net/") && str_ends_with(url, ".osk")
}

/// A skin link is accepted when it is a URL into the skin host that names an
/// `.osk` file.
pub fn skin_link_is_valid(url: &str) -> (ok: bool)
    ensures
        ok == (url_parses(url@) && starts_with(url@, skin_host()) && ends_with(url@, ".osk"@)),
{
    let parses = is_url(url);
    skin_link_accepted(parses, url)
}

/// The skin with a new link and default, other fields unchanged.
pub fn relink_skin(skin: Skin, url: String, default: DEFAULTS) -> (s: Skin)
    ensures
        s.id == skin.id,
        s.user == skin.user,
        s.identifier == skin.identifier,
        s.url == url,
        s.default == default,
{
    Skin { url, default, ..skin }
}

/// The line listing a skin: `[<identifier> (<default>)](<url>)`, with the
/// parenthesised default left out for a skin that is the default for
/// nothing.
pub open spec fn spec_skin_line(identifier: Seq<char>, url: Seq<char>, default: DEFAULTS) -> Seq<char> {
    let default_text = if default != DEFAULTS::NODEFAULT {
        "("@ + spec_default_name(default) + ")"@
    } else {
        Seq::empty()
    };
    "["@ + identifier + " "@ + default_text + "]("@ + url + ")"@
}

/// The line listing a skin.
pub fn skin_line(skin: &Skin) -> (line: String)
    ensures
        line@ == spec_skin_line(skin.identifier@, skin.url@, skin.default),
{
    let mut line = String::from_str("[");
    line.append(skin.identifier.as_str());
    line.append(" ");
    if skin.default != DEFAULTS::NODEFAULT {
        line.append("(");
        line.append(skin.default.name());
        line.append(")");
    }
    line.append("](");
    line.append(skin.url.as_str());
    line.append(")");
    line
}

/// The heading of a skin listing: `Skins: <name>`.
pub fn skins_heading(username: &str) -> (h: String)
    ensures
        h@ == "Skins: "@ + username@,
{
    let mut h = String::from_str("Skins: ");
    h.append(username);
    h
}

// ---------------------------------------------------------------------------
// Score suggestions

/// What a score suggestion names the score by.
pub enum SuggestSource {
    /// An osu! score id.
    ScoreId(u64),
    /// The checksum of an uploaded replay file.
    ReplayFile(String),
}

/// The identifier recorded for a suggestion that names no skin.
pub const EMPTY_VALUE: &'static str = "none";

/// The parameters carried by a suggestion's buttons:
/// `<kind>:<score>:<beatmap>:<requesting user>:<skin>`.
pub open spec fn spec_suggestion_parameters(
    source: SuggestSource,
    map_id: u32,
    requesting_user: u64,
    identifier: Seq<char>,
) -> Seq<char> {
    spec_parameters(spec_source_head(source), map_id, requesting_user, identifier)
}

/// The first two parameters: the kind of source and the score id or replay
/// checksum.
pub open spec fn spec_source_head(source: SuggestSource) -> Seq<char> {
    match source {
        SuggestSource::ScoreId(id) => "scoreid:"@ + decimal(id as nat),
        SuggestSource::ReplayFile(checksum) => "replayfile:"@ + checksum@,
    }
}

/// The parameters after the source `head`.
pub open spec fn spec_parameters(head: Seq<char>, map_id: u32, requesting_user: u64, identifier: Seq<char>) -> Seq<
    char,
> {
    head + ":"@ + decimal(map_id as nat) + ":"@ + decimal(requesting_user as nat) + ":"@ + identifier
}

/// Parameters of a suggestion.
pub fn suggestion_parameters(
    source: &SuggestSource,
    map_id: u32,
    requesting_user: u64,
    identifier: &str,
) -> (p: String)
    ensures
        p@ == spec_suggestion_parameters(*source, map_id, requesting_user, identifier@),
{
    let mut p = match source {
        SuggestSource::ScoreId(id) => {
            let mut p = String::from_str("scoreid:");
            push_decimal(&mut p, *id);
            p
        },
        SuggestSource::ReplayFile(checksum) => {
            let mut p = String::from_str("replayfile:");
            p.append(checksum.as_str());
            p
        },
    };
    p.append(":");
    push_decimal(&mut p, map_id as u64);
    p.append(":");
    push_decimal(&mut p, requesting_user);
    p.append(":");
    p.append(identifier);
    p
}

/// The skin recorded for a suggestion: the skin asked for when the player
/// has a skin of that name (`skin_exists`), no skin when none was asked
/// for, and otherwise the answer that the skin does not exist.
pub fn chosen_skin(requested: Option<String>, skin_exists: bool) -> (res: Result<String, Answer>)
    ensures
        match requested {
            None => res matches Ok(s) && s@ == EMPTY_VALUE@,
            Some(name) => if skin_exists {
                res == Ok::<String, Answer>(name)
            } else {
                res == Err::<String, Answer>(Answer::SkinNameUnknown(name))
            },
        },
{
    match requested {
        None => Ok(String::from_str(EMPTY_VALUE)),
        Some(name) => if skin_exists {
            Ok(name)
        } else {
            Err(Answer::SkinNameUnknown(name))
        },
    }
}

/// Style of a message button.
#[derive(Debug, Clone, Copy, PartialEq, Eq, Structural)]
pub enum ButtonStyle {
    Success,
    Danger,
}

/// A message button: the id its clicks carry, its label, emoji and style.
pub struct Button {
    pub custom_id: String,
    pub label: String,
    pub emoji: String,
    pub style: ButtonStyle,
}

/// A button as plain values.
pub open spec fn button_view(b: Button) -> (Seq<char>, Seq<char>, Seq<char>, ButtonStyle) {
    (b.custom_id@, b.label@, b.emoji@, b.style)
}

/// The buttons of a suggestion: approve (with upload for osu!standard
/// scores, without upload for the other modes), then decline.
pub open spec fn spec_suggestion_buttons(mode: GameMode, parameters: Seq<char>) -> Seq<
    (Seq<char>, Seq<char>, Seq<char>, ButtonStyle),
> {
    let approve = if mode == GameMode::Osu {
        ("approveWithUpload:"@ + parameters, "Approve with upload"@, "\u{2705}"@, ButtonStyle::Success)
    } else {
        ("approveNoUpload:"@ + parameters, "Approve without upload"@, "\u{2705}"@, ButtonStyle::Success)
    };
    seq![approve, ("decline:"@ + parameters, "Decline"@, "\u{1F480}"@, ButtonStyle::Danger)]
}

fn button(prefix: &str, parameters: &str, label: &str, emoji: &str, style: ButtonStyle) -> (b: Button)
    ensures
        button_view(b) == (prefix@ + parameters@, label@, emoji@, style),
{
    let mut custom_id = String::from_str(prefix);
    custom_id.append(parameters);
    Button { custom_id, label: String::from_str(label), emoji: String::from_str(emoji), style }
}

/// Buttons of a suggestion of a score in `mode`.
pub fn suggestion_buttons(mode: GameMode, parameters: &str) -> (buttons: Vec<Button>)
    ensures
        buttons@.map_values(|b: Button| button_view(b)) == spec_suggestion_buttons(mode, parameters@),
{
    let mut buttons: Vec<Button> = Vec::new();
    if mode == GameMode::Osu {
        buttons.push(button("approveWithUpload:", parameters, "Approve with upload", "\u{2705}", ButtonStyle::Success));
    } else {
        buttons.push(button("approveNoUpload:", parameters, "Approve without upload", "\u{2705}", ButtonStyle::Success));
    }
    buttons.push(button("decline:", parameters, "Decline", "\u{1F480}", ButtonStyle::Danger));
    assert(buttons@.map_values(|b: Button| button_view(b)) =~= spec_suggestion_buttons(mode, parameters@));
    buttons
}

/// The footer naming who made a request: `Requested by @<name>`.
pub fn requested_by(name: &str) -> (f: String)
    ensures
        f@ == "Requested by @"@ + name@,
{
    let mut f = String::from_str("Requested by @");
    f.append(name);
    f
}

/// What a score command was given: a score id (which wins over a file), a
/// replay file, or nothing.
#[derive(Debug, Clone, Copy, PartialEq, Eq, Structural)]
pub enum ScoreInput {
    Id(u64),
    File,
    Nothing,
}

/// What a score command works on.
pub fn score_input(score_id: Option<u64>, has_file: bool) -> (input: ScoreInput)
    ensures
        input == match score_id {
            Some(id) => ScoreInput::Id(id),
            None => if has_file {
                ScoreInput::File
            } else {
                ScoreInput::Nothing
            },
        },
{
    match score_id {
        Some(id) => ScoreInput::Id(id),
        None => if has_file {
            ScoreInput::File
        } else {
            ScoreInput::Nothing
        },
    }
}

/// What the thumbnail command does once it knows its input and, for a score
/// id, whether the score exists: draw the thumbnail, send a text, or
/// nothing (no input).
#[derive(Debug, PartialEq, Eq)]
pub enum ThumbnailReply {
    Draw,
    Text(String),
    Silent,
}

/// The thumbnail command's decision: a score that exists is drawn, a missing
/// one is named, a replay file is not supported yet, and with no input the
/// command does nothing.
pub fn thumbnail_reply(input: ScoreInput, score_found: bool) -> (r: ThumbnailReply)
    ensures
        match input {
            ScoreInput::Id(id) => if score_found {
                r == ThumbnailReply::Draw
            } else {
                r matches ThumbnailReply::Text(t) && t@ == "Score with id "@ + decimal(id as nat)
                    + " does not exist"@
            },
            ScoreInput::File => r matches ThumbnailReply::Text(t) && t@ == "not implemented yet"@,
            ScoreInput::Nothing => r == ThumbnailReply::Silent,
        },
{
    match input {
        ScoreInput::Id(id) => if score_found {
            ThumbnailReply::Draw
        } else {
            ThumbnailReply::Text(around_number("Score with id ", id, " does not exist"))
        },
        ScoreInput::File => ThumbnailReply::Text(String::from_str("not implemented yet")),
        ScoreInput::Nothing => ThumbnailReply::Silent,
    }
}

/// The listing of a member's skins: the heading and one line per skin, in
/// order, or the answer that the member has saved no skin.
pub fn skin_listing(username: &str, skins: &Vec<Skin>) -> (res: Result<(String, Vec<String>), Answer>)
    ensures
        skins@.len() == 0 ==> res == Err::<(String, Vec<String>), Answer>(Answer::NoSkinsSaved),
        skins@.len() > 0 ==> (res matches Ok((heading, lines)) && heading@ == "Skins: "@ + username@
            && lines@.len() == skins@.len() && forall|i: int|
            0 <= i < skins@.len() ==> #[trigger] lines@[i]@ == spec_skin_line(
                skins@[i].identifier@,
                skins@[i].url@,
                skins@[i].default,
            )),
{
    if skins.len() == 0 {
        return Err(Answer::NoSkinsSaved);
    }
    let heading = skins_heading(username);
    let mut lines: Vec<String> = Vec::new();
    let mut i: usize = 0;
    while i < skins.len()
        invariant
            i <= skins.len(),
            lines@.len() == i,
            forall|k: int|
                0 <= k < i ==> #[trigger] lines@[k]@ == spec_skin_line(
                    skins@[k].identifier@,
                    skins@[k].url@,
                    skins@[k].default,
                ),
        decreases skins.len() - i,
    {
        lines.push(skin_line(&skins[i]));
        i = i + 1;
    }
    Ok((heading, lines))
}

/// A copy of an answer.
pub fn copy_answer(a: &Answer) -> (c: Answer)
    ensures
        c == *a,
{
    match a {
        Answer::NoPermission => Answer::NoPermission,
        Answer::Blacklisted => Answer::Blacklisted,
        Answer::BotMissingPermissions => Answer::BotMissingPermissions,
        Answer::SomethingWentWrong => Answer::SomethingWentWrong,
        Answer::WrongUsername(id) => Answer::WrongUsername(*id),
        Answer::UserBlacklisted(id) => Answer::UserBlacklisted(*id),
        Answer::UserUnblacklisted(id) => Answer::UserUnblacklisted(*id),
        Answer::BlacklistEmpty => Answer::BlacklistEmpty,
        Answer::InvalidSkinLink => Answer::InvalidSkinLink,
        Answer::AccountNotLinked => Answer::AccountNotLinked,
        Answer::AccountNotLinkedOnLookup => Answer::AccountNotLinkedOnLookup,
        Answer::SkinNotDownloadable => Answer::SkinNotDownloadable,
        Answer::SkinSaved => Answer::SkinSaved,
        Answer::NoSkinWithIdentifier => Answer::NoSkinWithIdentifier,
        Answer::NoSkinsSaved => Answer::NoSkinsSaved,
        Answer::AllSkinsRemoved => Answer::AllSkinsRemoved,
        Answer::SkinRemoved(s) => Answer::SkinRemoved(s.clone()),
        Answer::SkinMissing(s) => Answer::SkinMissing(s.clone()),
        Answer::ScoreAlreadyRequested(id) => Answer::ScoreAlreadyRequested(*id),
        Answer::ScoreNotFound(id) => Answer::ScoreNotFound(*id),
        Answer::ScoreWithoutReplay => Answer::ScoreWithoutReplay,
        Answer::SkinNameUnknown(s) => Answer::SkinNameUnknown(s.clone()),
        Answer::ReplayUnreadable => Answer::ReplayUnreadable,
        Answer::ReplayAlreadyRequested => Answer::ReplayAlreadyRequested,
        Answer::ReplayMapNotFound => Answer::ReplayMapNotFound,
        Answer::PlayerNotFound(s) => Answer::PlayerNotFound(s.clone()),
        Answer::NoScoreGiven => Answer::NoScoreGiven,
        Answer::ScoreRequested => Answer::ScoreRequested,
    }
}

} // verus!
