use osc_bot::skin::DEFAULTS;
use osc_bot::store::{convert_default_for_db, default_from_db, plan_create, DbSkin, Skin, User};

fn user(id: i64) -> User {
    User { id, osu_id: 2, discord_id: 3, is_blacklisted: false }
}

fn skin(id: i64, owner: i64, default: DEFAULTS) -> Skin {
    Skin {
        id,
        user: user(owner),
        identifier: format!("skin{}", id),
        url: format!("https://git.sulej.net/skin{}.osk", id),
        default,
    }
}

#[test]
fn nodefault_is_stored_as_nothing() {
    assert_eq!(convert_default_for_db(DEFAULTS::NODEFAULT), None);
    assert_eq!(convert_default_for_db(DEFAULTS::HDDT), Some(DEFAULTS::HDDT));
    assert_eq!(default_from_db(None), DEFAULTS::NODEFAULT);
    assert_eq!(default_from_db(Some(DEFAULTS::DEFAULT)), DEFAULTS::DEFAULT);
}

#[test]
fn defaults_survive_storage() {
    let all = [
        DEFAULTS::DEFAULT,
        DEFAULTS::NM,
        DEFAULTS::HD,
        DEFAULTS::DT,
        DEFAULTS::HR,
        DEFAULTS::EZ,
        DEFAULTS::HDDT,
        DEFAULTS::HDHR,
        DEFAULTS::NODEFAULT,
    ];
    for d in all {
        assert_eq!(default_from_db(convert_default_for_db(d)), d);
    }
}

#[test]
fn default_names() {
    assert_eq!(DEFAULTS::DEFAULT.name(), "Default");
    assert_eq!(DEFAULTS::HDHR.name(), "HDHR");
    assert_eq!(DEFAULTS::NODEFAULT.name(), "No default");
}

#[test]
fn blacklist_flag_changes_only_the_flag() {
    let u = User { id: 4, osu_id: 5, discord_id: 6, is_blacklisted: false };
    let b = u.with_blacklist(true);
    assert_eq!(b, User { id: 4, osu_id: 5, discord_id: 6, is_blacklisted: true });
    assert_eq!(b.with_blacklist(false), u);
}

#[test]
fn stored_skin_reads_back_with_its_user() {
    let row = DbSkin {
        id: 9,
        user: 1,
        identifier: "main".to_string(),
        url: "https://git.sulej.net/main.osk".to_string(),
        default: None,
    };
    let s = Skin::from_db_skin(&row, user(1));
    assert_eq!(s.id, 9);
    assert_eq!(s.user, user(1));
    assert_eq!(s.identifier, "main");
    assert_eq!(s.url, "https://git.sulej.net/main.osk");
    assert_eq!(s.default, DEFAULTS::NODEFAULT);
}

#[test]
fn updating_demotes_the_other_skin_with_the_same_default() {
    let writes = skin(1, 7, DEFAULTS::HD).plan_update(Some(skin(2, 7, DEFAULTS::HD)));
    assert_eq!(writes.len(), 2);
    assert_eq!(writes[0].id, 2);
    assert_eq!(writes[0].default, DEFAULTS::NODEFAULT);
    assert_eq!(writes[0].url, "https://git.sulej.net/skin2.osk");
    assert_eq!(writes[1].id, 1);
    assert_eq!(writes[1].default, DEFAULTS::HD);
}

#[test]
fn updating_the_default_skin_itself_writes_only_it() {
    let writes = skin(1, 7, DEFAULTS::HD).plan_update(Some(skin(1, 7, DEFAULTS::HD)));
    assert_eq!(writes.len(), 1);
    assert_eq!(writes[0].id, 1);
    assert_eq!(writes[0].default, DEFAULTS::HD);
    let writes = skin(3, 7, DEFAULTS::NODEFAULT).plan_update(None);
    assert_eq!(writes.len(), 1);
    assert_eq!(writes[0].id, 3);
}

#[test]
fn creating_demotes_the_previous_default() {
    let writes = plan_create(Some(skin(5, 7, DEFAULTS::DT)));
    assert_eq!(writes.len(), 1);
    assert_eq!(writes[0].id, 5);
    assert_eq!(writes[0].default, DEFAULTS::NODEFAULT);
    assert!(plan_create(None).is_empty());
}

#[test]
fn demoted_skin_keeps_its_link() {
    let d = skin(8, 1, DEFAULTS::EZ).demote();
    assert_eq!(d.default, DEFAULTS::NODEFAULT);
    assert_eq!(d.identifier, "skin8");
    assert_eq!(d.id, 8);
}
