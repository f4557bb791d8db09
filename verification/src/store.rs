//! The bot's database records (users and their skins) and the rules that keep
//! at most one skin per user as the default for each mod combination.

use vstd::prelude::*;
use crate::skin::DEFAULTS;

verus! {

/// A Discord member known to the bot, with their osu! account.
#[derive(Debug, Clone, Copy, PartialEq, Eq, Structural)]
pub struct User {
    pub id: i64,
    pub osu_id: u32,
    pub discord_id: u64,
    pub is_blacklisted: bool,
}

/// A saved skin of a user.
#[derive(Debug)]
pub struct Skin {
    pub id: i64,
    pub user: User,
    pub identifier: String,
    pub url: String,
    pub default: DEFAULTS,
}

/// A skin as stored: the user by id, and no default stored as `None`.
pub struct DbSkin {
    pub id: i64,
    pub user: i64,
    pub identifier: String,
    pub url: String,
    pub default: Option<DEFAULTS>,
}

/// The stored form of a skin's default: `NODEFAULT` is stored as no value.
pub open spec fn spec_convert_default_for_db(default: DEFAULTS) -> Option<DEFAULTS> {
    if default != DEFAULTS::NODEFAULT {
        Some(default)
    } else {
        None
    }
}

/// The default a stored value stands for: no value is `NODEFAULT`.
pub open spec fn spec_default_from_db(stored: Option<DEFAULTS>) -> DEFAULTS {
    match stored {
        Some(d) => d,
        None => DEFAULTS::NODEFAULT,
    }
}

/// Stored form of a skin default.
pub fn convert_default_for_db(default: DEFAULTS) -> (stored: Option<DEFAULTS>)
    ensures
        stored == spec_convert_default_for_db(default),
{
    if default != DEFAULTS::NODEFAULT {
        Some(default)
    } else {
        None
    }
}

/// Skin default of a stored value.
pub fn default_from_db(stored: Option<DEFAULTS>) -> (default: DEFAULTS)
    ensures
        default == spec_default_from_db(stored),
{
    match stored {
        Some(d) => d,
        None => DEFAULTS::NODEFAULT,
    }
}

/// Storing a default and reading it back gives the same default, and every
/// stored value other than an explicit `NODEFAULT` is read and stored back
/// unchanged.
pub proof fn law_default_storage_roundtrip(default: DEFAULTS, stored: Option<DEFAULTS>)
    ensures
        spec_default_from_db(spec_convert_default_for_db(default)) == default,
        stored != Some(DEFAULTS::NODEFAULT) ==> spec_convert_default_for_db(
            spec_default_from_db(stored),
        ) == stored,
{
}

impl User {
    /// The same user with the blacklist flag set to `is_blacklisted`.
    pub fn with_blacklist(self, is_blacklisted: bool) -> (user: User)
        ensures
            user == (User { is_blacklisted, ..self }),
    {
        User { is_blacklisted, ..self }
    }
}

// ---------------------------------------------------------------------------
// The skin table

/// A row of the skin table, with its texts as character sequences.
pub struct SkinRecord {
    pub id: i64,
    pub user: i64,
    pub identifier: Seq<char>,
    pub url: Seq<char>,
    pub default: Option<DEFAULTS>,
}

/// The row a skin is stored as.
pub open spec fn record_of(skin: Skin) -> SkinRecord {
    SkinRecord {
        id: skin.id,
        user: skin.user.id,
        identifier: skin.identifier@,
        url: skin.url@,
        default: spec_convert_default_for_db(skin.default),
    }
}

/// Rows of the skin table are told apart by their ids.
pub open spec fn ids_unique(t: Seq<SkinRecord>) -> bool {
    forall|i: int, j: int| 0 <= i < t.len() && 0 <= j < t.len() && i != j ==> t[i].id != t[j].id
}

/// No row stores `NODEFAULT` explicitly.
pub open spec fn no_stored_nodefault(t: Seq<SkinRecord>) -> bool {
    forall|i: int| 0 <= i < t.len() ==> t[i].default != Some(DEFAULTS::NODEFAULT)
}

/// No user has two skins that are the default for the same mod combination.
pub open spec fn one_skin_per_default(t: Seq<SkinRecord>) -> bool {
    forall|i: int, j: int|
        0 <= i < t.len() && 0 <= j < t.len() && i != j && t[i].user == t[j].user
            && t[i].default is Some ==> t[i].default != t[j].default
}

/// The invariant of the skin table.
pub open spec fn table_wf(t: Seq<SkinRecord>) -> bool {
    &&& ids_unique(t)
    &&& no_stored_nodefault(t)
    &&& one_skin_per_default(t)
}

/// `found` is what looking up the skin of `user` stored with default
/// `default` gives: the matching row, or nothing when there is none.
pub open spec fn found_by_default(
    t: Seq<SkinRecord>,
    user: i64,
    default: DEFAULTS,
    found: Option<SkinRecord>,
) -> bool {
    match found {
        None => forall|i: int|
            0 <= i < t.len() ==> !(t[i].user == user && t[i].default == Some(default)),
        Some(f) => exists|i: int| 0 <= i < t.len() && t[i] == f && f.user == user && f.default == Some(default),
    }
}

/// The table after `UPDATE skin SET identifier, url, default WHERE id = r.id`.
pub open spec fn apply_row_update(t: Seq<SkinRecord>, r: SkinRecord) -> Seq<SkinRecord> {
    Seq::new(
        t.len(),
        |i: int|
            if t[i].id == r.id {
                SkinRecord { id: t[i].id, user: t[i].user, identifier: r.identifier, url: r.url, default: r.default }
            } else {
                t[i]
            },
    )
}

/// The table after the updates `writes`, in order.
pub open spec fn apply_row_updates(t: Seq<SkinRecord>, writes: Seq<SkinRecord>) -> Seq<SkinRecord>
    decreases writes.len(),
{
    if writes.len() == 0 {
        t
    } else {
        apply_row_updates(apply_row_update(t, writes[0]), writes.drop_first())
    }
}

/// The table after `DELETE FROM skin WHERE id = id`.
pub open spec fn apply_row_delete(t: Seq<SkinRecord>, id: i64) -> Seq<SkinRecord>
    decreases t.len(),
{
    if t.len() == 0 {
        t
    } else {
        let rest = apply_row_delete(t.drop_last(), id);
        if t.last().id == id {
            rest
        } else {
            rest.push(t.last())
        }
    }
}

/// A row that is the default for nothing.
pub open spec fn demoted(r: SkinRecord) -> SkinRecord {
    SkinRecord { default: None, ..r }
}

/// The rows written when a skin is saved: the user's other skin with the
/// same default, if there is one, loses its default first.
pub open spec fn update_writes(skin: SkinRecord, found: Option<SkinRecord>) -> Seq<SkinRecord> {
    match found {
        Some(f) => if f.id != skin.id {
            seq![demoted(f), skin]
        } else {
            seq![skin]
        },
        None => seq![skin],
    }
}

/// The rows written before a new skin is inserted: the user's skin with the
/// same default, if there is one, loses its default.
pub open spec fn create_writes(found: Option<SkinRecord>) -> Seq<SkinRecord> {
    match found {
        Some(f) => seq![demoted(f)],
        None => Seq::empty(),
    }
}

/// The rows of a list of skins.
pub open spec fn records_of(skins: Seq<Skin>) -> Seq<SkinRecord> {
    skins.map_values(|s: Skin| record_of(s))
}

/// The row of an optional skin.
pub open spec fn opt_record_of(skin: Option<Skin>) -> Option<SkinRecord> {
    match skin {
        Some(s) => Some(record_of(s)),
        None => None,
    }
}

impl Skin {
    /// The skin a stored row stands for, given the row's user.
    pub fn from_db_skin(db_skin: &DbSkin, user: User) -> (skin: Skin)
        ensures
            skin.id == db_skin.id,
            skin.user == user,
            skin.identifier@ == db_skin.identifier@,
            skin.url@ == db_skin.url@,
            skin.default == spec_default_from_db(db_skin.default),
    {
        Skin {
            id: db_skin.id,
            user,
            identifier: db_skin.identifier.clone(),
            url: db_skin.url.clone(),
            default: default_from_db(db_skin.default),
        }
    }

    /// The same skin, default for nothing.
    pub fn demote(self) -> (skin: Skin)
        ensures
            record_of(skin) == demoted(record_of(self)),
            skin.user == self.user,
            skin.default == DEFAULTS::NODEFAULT,
    {
        Skin { default: DEFAULTS::NODEFAULT, ..self }
    }

    /// The skins to write, in order, to save this skin, given `found`, the
    /// user's stored skin with the same default (if any).
    pub fn plan_update(self, found: Option<Skin>) -> (writes: Vec<Skin>)
        ensures
            records_of(writes@) == update_writes(record_of(self), opt_record_of(found)),
    {
        let mut writes: Vec<Skin> = Vec::new();
        match found {
            Some(f) => {
                if f.id != self.id {
                    writes.push(f.demote());
                }
            },
            None => {},
        }
        writes.push(self);
        assert(records_of(writes@) =~= update_writes(record_of(self), opt_record_of(found)));
        writes
    }
}

/// The skins to write before inserting a new skin, given `found`, the user's
/// stored skin with the new skin's default (if any).
pub fn plan_create(found: Option<Skin>) -> (writes: Vec<Skin>)
    ensures
        records_of(writes@) == create_writes(opt_record_of(found)),
{
    let mut writes: Vec<Skin> = Vec::new();
    match found {
        Some(f) => writes.push(f.demote()),
        None => {},
    }
    assert(records_of(writes@) =~= create_writes(opt_record_of(found)));
    writes
}

proof fn lemma_row_update_at(t: Seq<SkinRecord>, r: SkinRecord, m: int)
    requires
        ids_unique(t),
        0 <= m < t.len(),
        t[m].id == r.id,
    ensures
        apply_row_update(t, r).len() == t.len(),
        forall|i: int| 0 <= i < t.len() && i != m ==> #[trigger] apply_row_update(t, r)[i] == t[i],
        apply_row_update(t, r)[m] == (SkinRecord {
            id: t[m].id,
            user: t[m].user,
            identifier: r.identifier,
            url: r.url,
            default: r.default,
        }),
{
    assert forall|i: int| 0 <= i < t.len() && i != m implies #[trigger] apply_row_update(t, r)[i] == t[i] by {
        assert(t[i].id != t[m].id);
    }
}

proof fn lemma_apply_one(t: Seq<SkinRecord>, a: SkinRecord)
    ensures
        apply_row_updates(t, seq![a]) == apply_row_update(t, a),
{
    assert(seq![a].drop_first() =~= Seq::<SkinRecord>::empty());
    reveal_with_fuel(apply_row_updates, 2);
}

proof fn lemma_apply_two(t: Seq<SkinRecord>, a: SkinRecord, b: SkinRecord)
    ensures
        apply_row_updates(t, seq![a, b]) == apply_row_update(apply_row_update(t, a), b),
{
    assert(seq![a, b].drop_first() =~= seq![b]);
    lemma_apply_one(apply_row_update(t, a), b);
}

/// Demoting a stored skin keeps the table well formed.
proof fn lemma_demote_keeps_wf(t: Seq<SkinRecord>, k: int)
    requires
        table_wf(t),
        0 <= k < t.len(),
    ensures
        table_wf(apply_row_update(t, demoted(t[k]))),
        apply_row_update(t, demoted(t[k]))[k].default is None,
        forall|i: int| 0 <= i < t.len() && i != k ==> #[trigger] apply_row_update(t, demoted(t[k]))[i] == t[i],
        forall|i: int| 0 <= i < t.len() ==> #[trigger] apply_row_update(t, demoted(t[k]))[i].id == t[i].id
            && apply_row_update(t, demoted(t[k]))[i].user == t[i].user,
{
    lemma_row_update_at(t, demoted(t[k]), k);
}

/// Saving a skin that is stored in the table (its row has its id and user)
/// keeps every user's defaults unique, and the skin's row then holds the
/// skin. `found` is the lookup of the user's skin with the same default.
pub proof fn law_update_keeps_defaults_unique(t: Seq<SkinRecord>, skin: Skin, found: Option<Skin>)
    requires
        table_wf(t),
        exists|m: int| 0 <= m < t.len() && t[m].id == skin.id && t[m].user == skin.user.id,
        found_by_default(t, skin.user.id, skin.default, opt_record_of(found)),
    ensures
        table_wf(apply_row_updates(t, update_writes(record_of(skin), opt_record_of(found)))),
        apply_row_updates(t, update_writes(record_of(skin), opt_record_of(found))).contains(
            record_of(skin),
        ),
{
    let s = record_of(skin);
    let m = choose|m: int| 0 <= m < t.len() && t[m].id == skin.id && t[m].user == skin.user.id;
    // the table after the demotion, if any
    let t1 = match opt_record_of(found) {
        Some(f) => if f.id != s.id {
            apply_row_update(t, demoted(f))
        } else {
            t
        },
        None => t,
    };
    match opt_record_of(found) {
        Some(f) => {
            let k = choose|i: int| 0 <= i < t.len() && t[i] == f && f.user == skin.user.id
                && f.default == Some(skin.default);
            if f.id != s.id {
                lemma_demote_keeps_wf(t, k);
                lemma_apply_two(t, demoted(f), s);
                assert(k != m);
            } else {
                lemma_apply_one(t, s);
                assert(k == m);
            }
        },
        None => {
            lemma_apply_one(t, s);
        },
    }
    assert(table_wf(t1));
    assert(t1[m].id == s.id && t1[m].user == s.user);
    lemma_row_update_at(t1, s, m);
    let t2 = apply_row_update(t1, s);
    assert(t2[m] == s);
    assert forall|i: int, j: int|
        0 <= i < t2.len() && 0 <= j < t2.len() && i != j && t2[i].user == t2[j].user
            && t2[i].default is Some implies t2[i].default != t2[j].default by {
        if i == m || j == m {
            let o = if i == m { j } else { i };
            if t2[o].default == s.default && s.default is Some {
                // `o` would be another stored skin of this user with this default
                assert(t2[o] == t1[o]);
                match opt_record_of(found) {
                    Some(f) => {
                        let k = choose|x: int| 0 <= x < t.len() && t[x] == f && f.user == skin.user.id
                            && f.default == Some(skin.default);
                        if f.id != s.id {
                            if o == k {
                                assert(t1[o].default is None);
                            } else {
                                assert(t1[o] == t[o]);
                                assert(t[o].user == t[k].user);
                            }
                        } else {
                            assert(k == m);
                            assert(t1[o] == t[o]);
                        }
                    },
                    None => {
                        assert(t1[o] == t[o]);
                    },
                }
            }
        } else {
            assert(t2[i] == t1[i] && t2[j] == t1[j]);
        }
    }
    assert forall|i: int| 0 <= i < t2.len() implies t2[i].default != Some(DEFAULTS::NODEFAULT) by {
        if i != m {
            assert(t2[i] == t1[i]);
        }
    }
    assert forall|i: int, j: int| 0 <= i < t2.len() && 0 <= j < t2.len() && i != j implies t2[i].id != t2[j].id by {
        assert(t2[i].id == t1[i].id && t2[j].id == t1[j].id);
    }
    assert(t2.contains(s));
}

/// Inserting a new skin with a fresh id, after its user's skin with the same
/// default (`found`) has lost its default, keeps every user's defaults
/// unique.
pub proof fn law_create_keeps_defaults_unique(
    t: Seq<SkinRecord>,
    found: Option<Skin>,
    new_skin: Skin,
)
    requires
        table_wf(t),
        forall|i: int| 0 <= i < t.len() ==> t[i].id != new_skin.id,
        found_by_default(t, new_skin.user.id, new_skin.default, opt_record_of(found)),
    ensures
        table_wf(apply_row_updates(t, create_writes(opt_record_of(found))).push(record_of(new_skin))),
{
    let s = record_of(new_skin);
    let t1 = apply_row_updates(t, create_writes(opt_record_of(found)));
    match opt_record_of(found) {
        Some(f) => {
            let k = choose|i: int| 0 <= i < t.len() && t[i] == f && f.user == new_skin.user.id
                && f.default == Some(new_skin.default);
            lemma_apply_one(t, demoted(f));
            lemma_demote_keeps_wf(t, k);
        },
        None => {
            assert(t1 == t);
        },
    }
    assert(table_wf(t1));
    let t2 = t1.push(s);
    let n = t1.len() as int;
    assert forall|i: int, j: int|
        0 <= i < t2.len() && 0 <= j < t2.len() && i != j && t2[i].user == t2[j].user
            && t2[i].default is Some implies t2[i].default != t2[j].default by {
        if i == n || j == n {
            let o = if i == n { j } else { i };
            if t2[o].default == s.default && s.default is Some {
                match opt_record_of(found) {
                    Some(f) => {
                        let k = choose|x: int| 0 <= x < t.len() && t[x] == f && f.user == new_skin.user.id
                            && f.default == Some(new_skin.default);
                        if o != k {
                            assert(t1[o] == t[o]);
                        }
                    },
                    None => {
                        assert(t1[o] == t[o]);
                    },
                }
            }
        } else {
            assert(t2[i] == t1[i] && t2[j] == t1[j]);
        }
    }
    assert forall|i: int, j: int| 0 <= i < t2.len() && 0 <= j < t2.len() && i != j implies t2[i].id != t2[j].id by {
        if i < n {
            assert(t1[i].id == t[i].id);
        }
        if j < n {
            assert(t1[j].id == t[j].id);
        }
    }
}

/// Deleting a skin keeps the table well formed, removes the skin's row and
/// keeps every other row.
pub proof fn law_delete_keeps_defaults_unique(t: Seq<SkinRecord>, id: i64)
    requires
        table_wf(t),
    ensures
        table_wf(apply_row_delete(t, id)),
        forall|i: int| 0 <= i < apply_row_delete(t, id).len() ==> #[trigger] apply_row_delete(t, id)[i].id != id,
        forall|i: int| 0 <= i < apply_row_delete(t, id).len() ==> t.contains(#[trigger] apply_row_delete(t, id)[i]),
        forall|k: int| 0 <= k < t.len() && t[k].id != id ==> apply_row_delete(t, id).contains(#[trigger] t[k]),
    decreases t.len(),
{
    if t.len() > 0 {
        let p = t.drop_last();
        assert(table_wf(p));
        law_delete_keeps_defaults_unique(p, id);
        let rest = apply_row_delete(p, id);
        let l = t.last();
        assert forall|i: int| 0 <= i < rest.len() implies t.contains(#[trigger] rest[i]) by {
            assert(p.contains(rest[i]));
            let k = choose|k: int| 0 <= k < p.len() && p[k] == rest[i];
            assert(t[k] == rest[i]);
        }
        if l.id != id {
            let d = rest.push(l);
            // rows of `rest` come from `p`, so they differ from the last row
            assert forall|i: int| 0 <= i < rest.len() implies #[trigger] rest[i].id != l.id
                && (rest[i].user == l.user && l.default is Some ==> rest[i].default != l.default) by {
                assert(p.contains(rest[i]));
                let k = choose|k: int| 0 <= k < p.len() && p[k] == rest[i];
                assert(t[k] == rest[i]);
                assert(k != t.len() - 1);
            }
            assert forall|i: int, j: int| 0 <= i < d.len() && 0 <= j < d.len() && i != j implies d[i].id != d[j].id by {
                if i < rest.len() && j < rest.len() {
                    assert(d[i] == rest[i] && d[j] == rest[j]);
                } else if i < rest.len() {
                    assert(d[i] == rest[i]);
                } else {
                    assert(d[j] == rest[j]);
                }
            }
            assert forall|i: int, j: int|
                0 <= i < d.len() && 0 <= j < d.len() && i != j && d[i].user == d[j].user
                    && d[i].default is Some implies d[i].default != d[j].default by {
                if i < rest.len() && j < rest.len() {
                    assert(d[i] == rest[i] && d[j] == rest[j]);
                } else if i < rest.len() {
                    assert(d[i] == rest[i]);
                    assert(d[j] == l);
                    // one_skin_per_default on t, for the pair (k, last)
                    assert(p.contains(rest[i]));
                    let k = choose|k: int| 0 <= k < p.len() && p[k] == rest[i];
                    assert(t[k] == rest[i]);
                    assert(k != t.len() - 1);
                    assert(t[k].default != t[t.len() - 1].default);
                } else {
                    assert(d[j] == rest[j]);
                }
            }
            assert forall|i: int| 0 <= i < d.len() implies d[i].default != Some(DEFAULTS::NODEFAULT) by {
                if i < rest.len() {
                    assert(d[i] == rest[i]);
                }
            }
            assert forall|i: int| 0 <= i < d.len() implies t.contains(#[trigger] d[i]) by {
                if i < rest.len() {
                    assert(d[i] == rest[i]);
                } else {
                    assert(t[t.len() - 1] == d[i]);
                }
            }
            assert forall|k: int| 0 <= k < t.len() && t[k].id != id implies d.contains(#[trigger] t[k]) by {
                if k < t.len() - 1 {
                    assert(p[k] == t[k]);
                    assert(rest.contains(p[k]));
                    let x = choose|x: int| 0 <= x < rest.len() && rest[x] == p[k];
                    assert(d[x] == t[k]);
                } else {
                    assert(d[rest.len() as int] == t[k]);
                }
            }
        } else {
            assert forall|k: int| 0 <= k < t.len() && t[k].id != id implies rest.contains(#[trigger] t[k]) by {
                assert(k < t.len() - 1);
                assert(p[k] == t[k]);
            }
        }
    }
}

} // verus!
