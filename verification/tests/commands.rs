use osc_bot::commands::{
    answer, blacklist_account, blacklist_description, chosen_skin, global_check, handle_error,
    has_role, mention, relink_skin, replay_role_check, requested_by, skin_line, skin_link_accepted,
    skin_link_is_valid, skins_heading, suggestion_buttons, suggestion_parameters, Answer,
    ButtonStyle, FrameworkErrorKind, SuggestSource, EMPTY_VALUE, score_input, skin_listing, ScoreInput,
    thumbnail_reply, ThumbnailReply,
};
use osc_bot::embeds::{get_embed_color, score_embed, MessageState, ScoreFacts};
use osc_bot::formatter::{Beatmap, HitStatistics, Mapset};
use osc_bot::replay::GameMode;
use osc_bot::skin::DEFAULTS;
use osc_bot::store::{Skin, User};

fn user(discord_id: u64) -> User {
    User { id: 1, osu_id: 2, discord_id, is_blacklisted: true }
}

#[test]
fn every_state_has_its_colour() {
    assert_eq!(get_embed_color(&MessageState::SUCCESS), 0x873D48);
    assert_eq!(get_embed_color(&MessageState::WARN), 0xFFA53F);
    assert_eq!(get_embed_color(&MessageState::ERROR), 0xcc3300);
    assert_eq!(get_embed_color(&MessageState::INFO), 0x1434A4);
}

#[test]
fn answers_have_text_tone_and_visibility() {
    let r = answer(&Answer::NoPermission);
    assert_eq!((r.text.as_str(), r.state, r.ephemeral), ("No permission L", MessageState::INFO, true));
    let r = answer(&Answer::Blacklisted);
    assert_eq!((r.text.as_str(), r.state, r.ephemeral), ("You are blacklisted", MessageState::INFO, true));
    let r = answer(&Answer::BotMissingPermissions);
    assert_eq!((r.text.as_str(), r.state, r.ephemeral), ("Bot has missing permissions", MessageState::ERROR, true));
    let r = answer(&Answer::WrongUsername(42));
    assert_eq!(r.text, "User <@42> has the wrong username. please inform a moderator!");
    assert_eq!(r.state, MessageState::SUCCESS);
    let r = answer(&Answer::UserBlacklisted(42));
    assert_eq!(r.text, "User <@42> has been blacklisted");
    let r = answer(&Answer::UserUnblacklisted(42));
    assert_eq!(r.text, "User <@42> has been removed from the blacklist");
    let r = answer(&Answer::AccountNotLinked);
    assert_eq!(r.state, MessageState::WARN);
    let r = answer(&Answer::AccountNotLinkedOnLookup);
    assert_eq!(r.state, MessageState::SUCCESS);
    assert_eq!(r.text, "Your username is not related to your osu!account. Please inform the mods to rename you!");
    let r = answer(&Answer::SkinRemoved("main".to_string()));
    assert_eq!((r.text.as_str(), r.state), ("Skin ```main``` has been removed!", MessageState::SUCCESS));
    let r = answer(&Answer::SkinMissing("main".to_string()));
    assert_eq!((r.text.as_str(), r.state), ("Skin ```main``` does not exist!", MessageState::INFO));
    let r = answer(&Answer::AllSkinsRemoved);
    assert_eq!((r.text.as_str(), r.state, r.ephemeral), ("All skins have been removed!", MessageState::SUCCESS, false));
    let r = answer(&Answer::ScoreAlreadyRequested(5));
    assert_eq!((r.text.as_str(), r.state), ("Score 5 has already been requested", MessageState::WARN));
    let r = answer(&Answer::ScoreNotFound(5));
    assert_eq!((r.text.as_str(), r.state), ("Score with id 5 does not exist", MessageState::ERROR));
    let r = answer(&Answer::SkinNameUnknown("x".to_string()));
    assert_eq!(r.text, "Skin with that name x does not exist");
    let r = answer(&Answer::PlayerNotFound("peppy".to_string()));
    assert_eq!(r.text, "Could not find player ``peppy``");
    let r = answer(&Answer::ScoreRequested);
    assert_eq!((r.text.as_str(), r.state, r.ephemeral), ("Score has been requested!", MessageState::INFO, false));
    let r = answer(&Answer::NoScoreGiven);
    assert_eq!((r.text.as_str(), r.state), ("Please define scoreid or scorefile", MessageState::WARN));
}

#[test]
fn mentions() {
    assert_eq!(mention(1234), "<@1234>");
}

#[test]
fn role_membership() {
    assert!(has_role(&vec![1, 2, 3], 2));
    assert!(!has_role(&vec![1, 3], 2));
    assert!(!has_role(&vec![], 2));
}

#[test]
fn checks_before_commands() {
    assert_eq!(replay_role_check(true), (true, None));
    assert_eq!(replay_role_check(false), (false, Some(Answer::NoPermission)));
    assert_eq!(global_check(false), (true, None));
    assert_eq!(global_check(true), (false, Some(Answer::Blacklisted)));
}

#[test]
fn framework_errors_are_handled_by_kind() {
    let h = handle_error(FrameworkErrorKind::CommandCheckFailed, true);
    assert_eq!((h.answer, h.log), (None, false));
    let h = handle_error(FrameworkErrorKind::MissingBotPermissions, true);
    assert_eq!((h.answer, h.log), (Some(Answer::BotMissingPermissions), false));
    let h = handle_error(FrameworkErrorKind::MissingBotPermissions, false);
    assert_eq!((h.answer, h.log), (None, false));
    let h = handle_error(FrameworkErrorKind::MissingUserPermissions, true);
    assert_eq!((h.answer, h.log), (None, false));
    let h = handle_error(FrameworkErrorKind::CommandPanic, true);
    assert_eq!((h.answer, h.log), (Some(Answer::SomethingWentWrong), true));
    let h = handle_error(FrameworkErrorKind::Other, true);
    assert_eq!((h.answer, h.log), (Some(Answer::SomethingWentWrong), true));
    let h = handle_error(FrameworkErrorKind::Other, false);
    assert_eq!((h.answer, h.log), (None, false));
}

#[test]
fn blacklist_accounts_for_new_members() {
    assert_eq!(blacklist_account(Some(7), true), Some(7));
    assert_eq!(blacklist_account(None, true), Some(0));
    assert_eq!(blacklist_account(Some(7), false), Some(7));
    assert_eq!(blacklist_account(None, false), None);
}

#[test]
fn blacklist_listing() {
    assert_eq!(blacklist_description(&vec![]), Err(Answer::BlacklistEmpty));
    assert_eq!(blacklist_description(&vec![user(11), user(22)]), Ok("<@11>\n<@22>\n".to_string()));
}

#[test]
fn skin_links_must_be_osk_files_on_the_skin_host() {
    assert!(skin_link_is_valid("https://git.sulej.net/user/skins/raw/main.osk"));
    assert!(!skin_link_is_valid("https://example.com/main.osk"));
    assert!(!skin_link_is_valid("https://git.sulej.net/user/main.zip"));
    assert!(!skin_link_is_valid("https://git.sulej.net:99999/main.osk"));
    assert!(!skin_link_accepted(false, "https://git.sulej.net/main.osk"));
    assert!(skin_link_accepted(true, "https://git.sulej.net/main.osk"));
}

fn a_skin(default: DEFAULTS) -> Skin {
    Skin {
        id: 1,
        user: user(1),
        identifier: "main".to_string(),
        url: "https://git.sulej.net/main.osk".to_string(),
        default,
    }
}

#[test]
fn skin_lines_show_the_default() {
    assert_eq!(skin_line(&a_skin(DEFAULTS::HDDT)), "[main (HDDT)](https://git.sulej.net/main.osk)");
    assert_eq!(skin_line(&a_skin(DEFAULTS::DEFAULT)), "[main (Default)](https://git.sulej.net/main.osk)");
    assert_eq!(skin_line(&a_skin(DEFAULTS::NODEFAULT)), "[main ](https://git.sulej.net/main.osk)");
    assert_eq!(skins_heading("mikumin"), "Skins: mikumin");
}

#[test]
fn relinking_a_skin() {
    let s = relink_skin(a_skin(DEFAULTS::HD), "https://git.sulej.net/new.osk".to_string(), DEFAULTS::DT);
    assert_eq!(s.url, "https://git.sulej.net/new.osk");
    assert_eq!(s.default, DEFAULTS::DT);
    assert_eq!(s.identifier, "main");
}

#[test]
fn suggestion_parameters_name_score_map_user_and_skin() {
    assert_eq!(
        suggestion_parameters(&SuggestSource::ScoreId(1724681877), 129891, 555, "main"),
        "scoreid:1724681877:129891:555:main"
    );
    assert_eq!(
        suggestion_parameters(&SuggestSource::ReplayFile("d41d8cd9".to_string()), 1, 2, EMPTY_VALUE),
        format!("replayfile:d41d8cd9:1:2:{}", EMPTY_VALUE)
    );
}

#[test]
fn chosen_skins() {
    assert_eq!(chosen_skin(None, false), Ok(EMPTY_VALUE.to_string()));
    assert_eq!(chosen_skin(Some("main".to_string()), true), Ok("main".to_string()));
    assert_eq!(chosen_skin(Some("main".to_string()), false), Err(Answer::SkinNameUnknown("main".to_string())));
}

#[test]
fn suggestion_buttons_depend_on_the_mode() {
    let b = suggestion_buttons(GameMode::Osu, "p");
    assert_eq!(b.len(), 2);
    assert_eq!(b[0].custom_id, "approveWithUpload:p");
    assert_eq!(b[0].label, "Approve with upload");
    assert_eq!(b[0].emoji, "\u{2705}");
    assert_eq!(b[0].style, ButtonStyle::Success);
    assert_eq!(b[1].custom_id, "decline:p");
    assert_eq!(b[1].label, "Decline");
    assert_eq!(b[1].emoji, "\u{1F480}");
    assert_eq!(b[1].style, ButtonStyle::Danger);
    let b = suggestion_buttons(GameMode::Mania, "p");
    assert_eq!(b[0].custom_id, "approveNoUpload:p");
    assert_eq!(b[0].label, "Approve without upload");
}

#[test]
fn footer_names_the_requester() {
    assert_eq!(requested_by("mikumin"), "Requested by @mikumin");
}

#[test]
fn score_embed_fields() {
    let facts = ScoreFacts {
        score_id: 1724681877,
        player: "mrekk".to_string(),
        avatar_url: "https://a.ppy.sh/7562902".to_string(),
        cover: "https://assets.ppy.sh/beatmaps/1/covers/card.jpg".to_string(),
        score: 1234567,
        accuracy: "99.5".to_string(),
        statistics: HitStatistics { great: 100, ok: 2, meh: 1, miss: 0 },
        max_combo: 512,
        mods: vec!["HD".to_string(), "DT".to_string()],
        pp: "727".to_string(),
    };
    let map = Beatmap {
        map_id: 1,
        url: "https://osu.ppy.sh/beatmaps/1".to_string(),
        version: "Extra".to_string(),
        checksum: None,
        mapset: Some(Mapset { artist: "Artist".to_string(), title: "Song".to_string() }),
    };
    let e = score_embed(&facts, &map);
    assert_eq!(e.author, "Score done by mrekk");
    assert_eq!(e.author_url, "https://osu.ppy.sh/scores/1724681877");
    assert_eq!(e.title, "Artist - Song [Extra]");
    assert_eq!(e.state, MessageState::SUCCESS);
    assert_eq!(e.url, "https://osu.ppy.sh/beatmaps/1");
    assert_eq!(e.thumbnail, "https://a.ppy.sh/7562902");
    assert_eq!(e.image, "https://assets.ppy.sh/beatmaps/1/covers/card.jpg");
    let fields: Vec<(&str, &str, bool)> =
        e.fields.iter().map(|f| (f.name.as_str(), f.value.as_str(), f.inline)).collect();
    assert_eq!(
        fields,
        vec![
            ("Score:", "1234567", true),
            ("Accuracy:", "99.5", true),
            ("Hits:", "100/2/1/0", true),
            ("Combo:", "512x", true),
            ("Mods:", "HDDT", true),
            ("PP:", "727", true),
        ]
    );
}

#[test]
fn score_id_wins_over_a_file() {
    assert_eq!(score_input(Some(5), true), ScoreInput::Id(5));
    assert_eq!(score_input(None, true), ScoreInput::File);
    assert_eq!(score_input(None, false), ScoreInput::Nothing);
}

#[test]
fn skin_listings() {
    assert!(matches!(skin_listing("m", &vec![]), Err(Answer::NoSkinsSaved)));
    let (heading, lines) = skin_listing("m", &vec![a_skin(DEFAULTS::HD), a_skin(DEFAULTS::NODEFAULT)]).unwrap();
    assert_eq!(heading, "Skins: m");
    assert_eq!(
        lines,
        vec!["[main (HD)](https://git.sulej.net/main.osk)", "[main ](https://git.sulej.net/main.osk)"]
    );
}


#[test]
fn thumbnail_replies() {
    assert_eq!(thumbnail_reply(ScoreInput::Id(42), true), ThumbnailReply::Draw);
    assert_eq!(
        thumbnail_reply(ScoreInput::Id(42), false),
        ThumbnailReply::Text("Score with id 42 does not exist".to_string())
    );
    assert_eq!(thumbnail_reply(ScoreInput::File, false), ThumbnailReply::Text("not implemented yet".to_string()));
    assert_eq!(thumbnail_reply(ScoreInput::Nothing, false), ThumbnailReply::Silent);
}
