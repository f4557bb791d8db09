//! Display strings for osu! scores and beatmaps.

use vstd::prelude::*;
use crate::text::{decimal, push_decimal};

verus! {

/// The beatmap set a beatmap belongs to, as far as the bot displays it.
pub struct Mapset {
    pub artist: String,
    pub title: String,
}

/// A beatmap (one difficulty of a beatmap set).
pub struct Beatmap {
    pub map_id: u32,
    /// The beatmap's web page.
    pub url: String,
    pub version: String,
    pub checksum: Option<String>,
    pub mapset: Option<Mapset>,
}

/// Hit counts of an osu!standard score.
pub struct HitStatistics {
    pub great: u32,
    pub ok: u32,
    pub meh: u32,
    pub miss: u32,
}

/// `"<artist> - <title> [<difficulty>]"`.
pub open spec fn spec_map_title(artist: Seq<char>, title: Seq<char>, version: Seq<char>) -> Seq<char> {
    artist + " - "@ + title + " ["@ + version + "]"@
}

/// `"<300s>/<100s>/<50s>/<misses>"`.
pub open spec fn spec_osu_hits(s: HitStatistics) -> Seq<char> {
    decimal(s.great as nat) + "/"@ + decimal(s.ok as nat) + "/"@ + decimal(s.meh as nat) + "/"@
        + decimal(s.miss as nat)
}

/// The web page of an osu! score: `https://osu.ppy.sh/scores/<id>`.
pub open spec fn spec_score_url(score_id: u64) -> Seq<char> {
    "https://osu.ppy.sh/scores/"@ + decimal(score_id as nat)
}

/// The concatenation of all strings of `parts`, in order.
pub open spec fn concat_all(parts: Seq<Seq<char>>) -> Seq<char>
    decreases parts.len(),
{
    if parts.len() == 0 {
        Seq::empty()
    } else {
        concat_all(parts.drop_last()) + parts.last()
    }
}

/// Title of a beatmap as shown in score embeds. A beatmap without its set is
/// not displayable.
pub fn map_title(map: &Beatmap) -> (title: String)
    requires
        map.mapset is Some,
    ensures
        title@ == spec_map_title(
            map.mapset->0.artist@,
            map.mapset->0.title@,
            map.version@,
        ),
{
    let mapset = match &map.mapset {
        Some(m) => m,
        None => { return String::new(); },
    };
    let mut title = mapset.artist.clone();
    title.append(" - ");
    title.append(mapset.title.as_str());
    title.append(" [");
    title.append(map.version.as_str());
    title.append("]");
    title
}

/// Hit counts of a score, `great/ok/meh/miss`.
pub fn osu_hits(score_statistics: &HitStatistics) -> (hits: String)
    ensures
        hits@ == spec_osu_hits(*score_statistics),
{
    let mut hits = String::new();
    push_decimal(&mut hits, score_statistics.great as u64);
    hits.append("/");
    push_decimal(&mut hits, score_statistics.ok as u64);
    hits.append("/");
    push_decimal(&mut hits, score_statistics.meh as u64);
    hits.append("/");
    push_decimal(&mut hits, score_statistics.miss as u64);
    hits
}

/// Link to the score with the given id on the osu! website.
pub fn score_url(score_id: &u64) -> (url: String)
    ensures
        url@ == spec_score_url(*score_id),
{
    let mut url = String::from_str("https://osu.ppy.sh/scores/");
    push_decimal(&mut url, *score_id);
    url
}

/// The mods of a score as one word: the acronyms, in the order given, with
/// nothing between them (`"HDDT"`).
pub fn mods_string(mods: &Vec<String>) -> (s: String)
    ensures
        s@ == concat_all(mods@.map_values(|m: String| m@)),
{
    let ghost parts = mods@.map_values(|m: String| m@);
    let mut s = String::new();
    let mut i: usize = 0;
    while i < mods.len()
        invariant
            i <= mods.len(),
            parts == mods@.map_values(|m: String| m@),
            s@ == concat_all(parts.take(i as int)),
        decreases mods.len() - i,
    {
        s.append(mods[i].as_str());
        assert(parts.take(i + 1).drop_last() =~= parts.take(i as int));
        i = i + 1;
    }
    assert(parts.take(mods.len() as int) =~= parts);
    s
}

} // verus!
