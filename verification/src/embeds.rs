//! Embed colours, text replies and the score embed.

use vstd::prelude::*;
use crate::formatter::{
    Beatmap, HitStatistics, concat_all, map_title, mods_string, osu_hits, score_url,
    spec_map_title, spec_osu_hits, spec_score_url,
};
use crate::text::{decimal, to_decimal};

verus! {

/// The tone of a message, shown by the colour of its embed.
#[derive(Debug, Clone, Copy, PartialEq, Eq, Structural)]
pub enum MessageState {
    SUCCESS,
    WARN,
    ERROR,
    INFO,
}

/// The embed colour (`0xRRGGBB`) of each message state.
pub open spec fn spec_embed_color(state: MessageState) -> u32 {
    match state {
        MessageState::SUCCESS => 0x873D48,
        MessageState::WARN => 0xFFA53F,
        MessageState::ERROR => 0xcc3300,
        MessageState::INFO => 0x1434A4,
    }
}

/// Embed colour of a message state; every state has one.
pub fn get_embed_color(message_state: &MessageState) -> (colour: u32)
    ensures
        colour == spec_embed_color(*message_state),
{
    match message_state {
        MessageState::SUCCESS => 0x873D48,
        MessageState::WARN => 0xFFA53F,
        MessageState::ERROR => 0xcc3300,
        MessageState::INFO => 0x1434A4,
    }
}

/// A one-line answer to a command: its text, tone, and whether only the
/// invoking user sees it.
pub struct Reply {
    pub text: String,
    pub state: MessageState,
    pub ephemeral: bool,
}

/// A field of an embed.
pub struct EmbedField {
    pub name: String,
    pub value: String,
    pub inline: bool,
}

/// What an embed for a score shows.
pub struct ScoreEmbed {
    /// The tone, shown by the embed's colour.
    pub state: MessageState,
    /// `"Score done by <player>"`.
    pub author: String,
    /// Link of the author line: the score's web page.
    pub author_url: String,
    /// The beatmap's title.
    pub title: String,
    /// Link of the title: the beatmap's web page.
    pub url: String,
    /// The small picture: the player's avatar.
    pub thumbnail: String,
    /// The large picture: the cover of the beatmap set.
    pub image: String,
    pub fields: Vec<EmbedField>,
}

/// The facts of a score that its embed shows. Accuracy and performance
/// points are fractional and come already rendered.
pub struct ScoreFacts {
    pub score_id: u64,
    pub player: String,
    /// The player's avatar picture.
    pub avatar_url: String,
    /// The cover picture of the score's beatmap set.
    pub cover: String,
    pub score: u32,
    pub accuracy: String,
    pub statistics: HitStatistics,
    pub max_combo: u32,
    pub mods: Vec<String>,
    pub pp: String,
}

/// A field's name and value, as views.
pub open spec fn field_view(f: EmbedField) -> (Seq<char>, Seq<char>, bool) {
    (f.name@, f.value@, f.inline)
}

/// The fields of a score embed, in order, all inline.
pub open spec fn spec_score_fields(s: ScoreFacts) -> Seq<(Seq<char>, Seq<char>, bool)> {
    seq![
        ("Score:"@, decimal(s.score as nat), true),
        ("Accuracy:"@, s.accuracy@, true),
        ("Hits:"@, spec_osu_hits(s.statistics), true),
        ("Combo:"@, decimal(s.max_combo as nat) + "x"@, true),
        ("Mods:"@, concat_all(s.mods@.map_values(|m: String| m@)), true),
        ("PP:"@, s.pp@, true),
    ]
}

fn field(name: &str, value: String) -> (f: EmbedField)
    ensures
        f.name@ == name@,
        f.value@ == value@,
        f.inline,
{
    EmbedField { name: String::from_str(name), value, inline: true }
}

/// The embed that presents a score on a beatmap. The beatmap must come
/// with its set (artist and title).
pub fn score_embed(score: &ScoreFacts, map: &Beatmap) -> (embed: ScoreEmbed)
    requires
        map.mapset is Some,
    ensures
        embed.author@ == "Score done by "@ + score.player@,
        embed.author_url@ == spec_score_url(score.score_id),
        embed.state == MessageState::SUCCESS,
        embed.title@ == spec_map_title(map.mapset->0.artist@, map.mapset->0.title@, map.version@),
        embed.url@ == map.url@,
        embed.thumbnail@ == score.avatar_url@,
        embed.image@ == score.cover@,
        embed.fields@.map_values(|f: EmbedField| field_view(f)) == spec_score_fields(*score),
{
    let mut author = String::from_str("Score done by ");
    author.append(score.player.as_str());
    let author_url = score_url(&score.score_id);
    let title = map_title(map);
    let mut combo = to_decimal(score.max_combo as u64);
    combo.append("x");
    let mut fields: Vec<EmbedField> = Vec::new();
    fields.push(field("Score:", to_decimal(score.score as u64)));
    fields.push(field("Accuracy:", score.accuracy.clone()));
    fields.push(field("Hits:", osu_hits(&score.statistics)));
    fields.push(field("Combo:", combo));
    fields.push(field("Mods:", mods_string(&score.mods)));
    fields.push(field("PP:", score.pp.clone()));
    assert(fields@.map_values(|f: EmbedField| field_view(f)) =~= spec_score_fields(*score));
    ScoreEmbed {
        state: MessageState::SUCCESS,
        author,
        author_url,
        title,
        url: map.url.clone(),
        thumbnail: score.avatar_url.clone(),
        image: score.cover.clone(),
        fields,
    }
}

} // verus!
