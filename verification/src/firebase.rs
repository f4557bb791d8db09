//! Where the bot keeps its records in the Firebase realtime database, and the
//! writes that saving a skin makes there.

use vstd::prelude::*;
use crate::skin::{DEFAULTS, spec_default_name};
use crate::text::{decimal, to_decimal};

verus! {

/// A write of `value` under `key` at the node `path` (its segments, from the
/// root).
pub struct FirebaseWrite {
    pub path: Vec<String>,
    pub key: String,
    pub value: String,
}

/// The views of a list of strings.
pub open spec fn segments(v: Seq<String>) -> Seq<Seq<char>> {
    v.map_values(|s: String| s@)
}

/// A write as plain values.
pub open spec fn write_view(w: FirebaseWrite) -> (Seq<Seq<char>>, Seq<char>, Seq<char>) {
    (segments(w.path@), w.key@, w.value@)
}

/// `users/<osu user>/skins`: the skins of a player.
pub open spec fn spec_skins_path(osu_user_id: Seq<char>) -> Seq<Seq<char>> {
    seq!["users"@, osu_user_id, "skins"@]
}

fn strings3(a: &str, b: &str, c: &str) -> (v: Vec<String>)
    ensures
        segments(v@) == seq![a@, b@, c@],
{
    let mut v: Vec<String> = Vec::new();
    v.push(String::from_str(a));
    v.push(String::from_str(b));
    v.push(String::from_str(c));
    assert(segments(v@) =~= seq![a@, b@, c@]);
    v
}

fn push_segment(v: &mut Vec<String>, s: &str)
    ensures
        segments(final(v)@) == segments(old(v)@).push(s@),
{
    v.push(String::from_str(s));
    assert(segments(v@) =~= segments(old(v)@).push(s@));
}

/// Path of a player's skins.
pub fn path_to_skins(osu_user_id: &str) -> (path: Vec<String>)
    ensures
        segments(path@) == spec_skins_path(osu_user_id@),
{
    strings3("users", osu_user_id, "skins")
}

/// `users/<osu user>/skins/list/<identifier>`: a player's skin by name.
pub open spec fn spec_identifier_path(osu_user_id: Seq<char>, identifier: Seq<char>) -> Seq<Seq<char>> {
    spec_skins_path(osu_user_id) + seq!["list"@, identifier]
}

/// `users/<osu user>/skins/defaults/<default name>`: a player's default skin
/// for a mod combination.
pub open spec fn spec_default_path(osu_user_id: Seq<char>, default: DEFAULTS) -> Seq<Seq<char>> {
    spec_skins_path(osu_user_id) + seq!["defaults"@, spec_default_name(default)]
}

/// Path of a player's skin with the given identifier.
pub fn skin_by_identifier_path(osu_user_id: &str, identifier: &str) -> (path: Vec<String>)
    ensures
        segments(path@) == spec_identifier_path(osu_user_id@, identifier@),
{
    let mut path = path_to_skins(osu_user_id);
    push_segment(&mut path, "list");
    push_segment(&mut path, identifier);
    assert(segments(path@) =~= spec_skins_path(osu_user_id@) + seq!["list"@, identifier@]);
    path
}

/// Path of a player's default skin for a mod combination.
pub fn skin_by_default_path(osu_user_id: &str, default: DEFAULTS) -> (path: Vec<String>)
    ensures
        segments(path@) == spec_default_path(osu_user_id@, default),
{
    let mut path = path_to_skins(osu_user_id);
    push_segment(&mut path, "defaults");
    push_segment(&mut path, default.name());
    assert(segments(path@) =~= spec_skins_path(osu_user_id@) + seq![
        "defaults"@,
        spec_default_name(default),
    ]);
    path
}

/// Path of a Discord user's blacklist entry: `blacklist/<discord user>`.
pub fn blacklist_entry_path(discord_user_id: &str) -> (path: Vec<String>)
    ensures
        segments(path@) == seq!["blacklist"@, discord_user_id@],
{
    let mut path: Vec<String> = Vec::new();
    push_segment(&mut path, "blacklist");
    push_segment(&mut path, discord_user_id);
    assert(segments(path@) =~= seq!["blacklist"@, discord_user_id@]);
    path
}

/// Path of the mark of a checked score: `checked_scores/<score id>`.
pub fn checked_score_path(score_id: u64) -> (path: Vec<String>)
    ensures
        segments(path@) == seq!["checked_scores"@, decimal(score_id as nat)],
{
    let mut path: Vec<String> = Vec::new();
    push_segment(&mut path, "checked_scores");
    let id = to_decimal(score_id);
    push_segment(&mut path, id.as_str());
    assert(segments(path@) =~= seq!["checked_scores"@, decimal(score_id as nat)]);
    path
}

/// The writes that saving a skin makes: its link under its identifier and,
/// when it is the default for a mod combination, its link as that default.
/// (The skin's default name is not written: that write is never awaited.)
pub open spec fn spec_save_skin_writes(
    osu_user_id: Seq<char>,
    skin: Seq<char>,
    identifier: Seq<char>,
    default: DEFAULTS,
) -> Seq<(Seq<Seq<char>>, Seq<char>, Seq<char>)> {
    let link = (spec_skins_path(osu_user_id) + seq!["list"@, identifier], "url"@, skin);
    if default != DEFAULTS::NODEFAULT {
        seq![link, (spec_skins_path(osu_user_id) + seq!["defaults"@], spec_default_name(default), skin)]
    } else {
        seq![link]
    }
}

/// Writes that save a skin.
pub fn save_skin_writes(osu_user_id: &str, skin: &str, identifier: &str, default: DEFAULTS) -> (writes: Vec<
    FirebaseWrite,
>)
    ensures
        writes@.map_values(|w: FirebaseWrite| write_view(w)) == spec_save_skin_writes(
            osu_user_id@,
            skin@,
            identifier@,
            default,
        ),
{
    let mut writes: Vec<FirebaseWrite> = Vec::new();
    let mut list = path_to_skins(osu_user_id);
    push_segment(&mut list, "list");
    push_segment(&mut list, identifier);
    assert(segments(list@) =~= spec_skins_path(osu_user_id@) + seq!["list"@, identifier@]);
    writes.push(FirebaseWrite { path: list, key: String::from_str("url"), value: String::from_str(skin) });
    if default != DEFAULTS::NODEFAULT {
        let mut defaults = path_to_skins(osu_user_id);
        push_segment(&mut defaults, "defaults");
        assert(segments(defaults@) =~= spec_skins_path(osu_user_id@) + seq!["defaults"@]);
        writes.push(
            FirebaseWrite {
                path: defaults,
                key: String::from_str(default.name()),
                value: String::from_str(skin),
            },
        );
    }
    assert(writes@.map_values(|w: FirebaseWrite| write_view(w)) =~= spec_save_skin_writes(
        osu_user_id@,
        skin@,
        identifier@,
        default,
    ));
    writes
}

/// A score is marked as checked when reading its mark gave `true`;
/// `read` is `None` when reading failed.
pub fn score_marked_checked(read: Option<Option<bool>>) -> (b: bool)
    ensures
        b == (read == Some(Some(true))),
{
    match read {
        Some(Some(true)) => true,
        _ => false,
    }
}

/// Saving a skin writes its link under the key `url` of the node of its
/// identifier, and, when the skin is the default for a mod combination,
/// writes its link at the node that reading that default looks at.
pub proof fn law_saved_skin_locations(
    osu_user_id: Seq<char>,
    skin: Seq<char>,
    identifier: Seq<char>,
    default: DEFAULTS,
)
    ensures
        spec_save_skin_writes(osu_user_id, skin, identifier, default)[0] == (
            spec_identifier_path(osu_user_id, identifier),
            "url"@,
            skin,
        ),
        default != DEFAULTS::NODEFAULT ==> ({
            let w = spec_save_skin_writes(osu_user_id, skin, identifier, default)[1];
            w.0.push(w.1) == spec_default_path(osu_user_id, default) && w.2 == skin
        }),
        default == DEFAULTS::NODEFAULT ==> spec_save_skin_writes(osu_user_id, skin, identifier, default).len()
            == 1,
{
    assert((spec_skins_path(osu_user_id) + seq!["defaults"@]).push(spec_default_name(default))
        =~= spec_default_path(osu_user_id, default));
}

} // verus!
