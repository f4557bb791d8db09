//! Replay files (`.osr`) and game modes.

use vstd::prelude::*;
use osu_db::Replay;

verus! {

/// The osu! game modes.
#[derive(Debug, Clone, Copy, PartialEq, Eq, Structural)]
pub enum GameMode {
    Osu,
    Taiko,
    Catch,
    Mania,
}

/// The game mode of a raw mode number: 0 osu!, 1 taiko, 2 catch, 3 mania;
/// any other number stands for osu!.
pub open spec fn spec_game_mode_from(mode: u8) -> GameMode {
    if mode == 1 {
        GameMode::Taiko
    } else if mode == 2 {
        GameMode::Catch
    } else if mode == 3 {
        GameMode::Mania
    } else {
        GameMode::Osu
    }
}

/// Game mode of a raw mode number.
pub fn game_mode_from(mode: u8) -> (m: GameMode)
    ensures
        m == spec_game_mode_from(mode),
{
    match mode {
        1 => GameMode::Taiko,
        2 => GameMode::Catch,
        3 => GameMode::Mania,
        _ => GameMode::Osu,
    }
}

/// What the bot reads from a replay file.
pub struct ReplayInfo {
    /// Raw game mode number.
    pub mode: u8,
    /// MD5 checksum of the beatmap played.
    pub beatmap_hash: Option<String>,
    /// Name of the player.
    pub player_name: Option<String>,
    /// MD5 checksum of the replay itself.
    pub replay_hash: Option<String>,
}

/// The view of an optional string.
pub open spec fn opt_view(s: Option<String>) -> Option<Seq<char>> {
    match s {
        Some(x) => Some(x@),
        None => None,
    }
}

/// The fields of a replay as plain values.
pub open spec fn replay_view(r: ReplayInfo) -> (u8, Option<Seq<char>>, Option<Seq<char>>, Option<Seq<char>>) {
    (r.mode, opt_view(r.beatmap_hash), opt_view(r.player_name), opt_view(r.replay_hash))
}

// ---------------------------------------------------------------------------
// Length prefixes of the strings in a replay's header

/// How reading the string at a position of a replay file ends: at the given
/// position after it, with the reader stopping there (an error), or with a
/// length prefix too long to decode.
#[derive(Debug, Clone, Copy, PartialEq, Eq, Structural)]
pub enum StringStep {
    Next(usize),
    Stop,
    Overflow,
}

/// The length of the run of bytes with the high bit set that starts at `q`.
pub open spec fn high_run(b: Seq<u8>, q: int) -> nat
    decreases b.len() - q,
{
    if 0 <= q < b.len() && b[q] >= 0x80 {
        1 + high_run(b, q + 1)
    } else {
        0
    }
}

/// The value the first `k` bytes of the length prefix at `q` give in a
/// `usize`: the low seven bits of byte `i` shifted left by `7 * i`.
pub open spec fn prefix_value(b: Seq<u8>, q: int, k: nat) -> usize
    decreases k,
{
    if k == 0 {
        0
    } else {
        prefix_value(b, q, (k - 1) as nat) | (((b[q + k - 1] & 0x7f) as usize) << ((7 * (k - 1)) as usize))
    }
}

/// Reading the optional string at `p`: `0x00` is no string; `0x0b` is
/// followed by a ULEB128 length (bytes with the high bit set, then a last
/// byte) and that many bytes. Decoding a length whose last byte would be
/// shifted by `usize::BITS` bits or more overflows. The reader stops at a
/// missing byte, another tag, or a length beyond the end of the file.
pub open spec fn string_step(b: Seq<u8>, p: int) -> StringStep {
    if p < 0 || p >= b.len() {
        StringStep::Stop
    } else if b[p] == 0 {
        StringStep::Next((p + 1) as usize)
    } else if b[p] != 0x0b {
        StringStep::Stop
    } else {
        let q = p + 1;
        let k = high_run(b, q);
        if q + k >= b.len() {
            StringStep::Stop
        } else if 7 * k >= usize::BITS {
            StringStep::Overflow
        } else {
            let v = prefix_value(b, q, k) | ((b[q + k] as usize) << ((7 * k) as usize));
            if v > b.len() - (q + k + 1) {
                StringStep::Stop
            } else {
                StringStep::Next((q + k + 1 + v) as usize)
            }
        }
    }
}

/// Some string of a replay's header (beatmap checksum, player name, replay
/// checksum, and after 23 bytes of counts the life graph) has a length
/// prefix too long to decode. The header starts with a mode number below 4
/// and a 4-byte version.
pub open spec fn replay_lengths_overflow(b: Seq<u8>) -> bool {
    b.len() >= 5 && b[0] < 4 && match string_step(b, 5) {
        StringStep::Overflow => true,
        StringStep::Stop => false,
        StringStep::Next(p1) => match string_step(b, p1 as int) {
            StringStep::Overflow => true,
            StringStep::Stop => false,
            StringStep::Next(p2) => match string_step(b, p2 as int) {
                StringStep::Overflow => true,
                StringStep::Stop => false,
                StringStep::Next(p3) => string_step(b, p3 + 23) is Overflow,
            },
        },
    }
}

/// How reading the string at `p` ends.
fn string_step_at(b: &[u8], p: usize) -> (s: StringStep)
    ensures
        s == string_step(b@, p as int),
{
    let n = b.len();
    if p >= n {
        return StringStep::Stop;
    }
    if b[p] == 0 {
        return StringStep::Next(p + 1);
    }
    if b[p] != 0x0b {
        return StringStep::Stop;
    }
    let q = p + 1;
    let mut k: usize = 0;
    while q + k < n && b[q + k] >= 0x80
        invariant
            p < n,
            q == p + 1,
            n == b@.len(),
            q + k <= n,
            high_run(b@, q as int) == k + high_run(b@, (q + k) as int),
        decreases n - (q + k),
    {
        assert(high_run(b@, (q + k) as int) == 1 + high_run(b@, (q + k + 1) as int));
        k = k + 1;
    }
    assert(high_run(b@, (q + k) as int) == 0);
    if q + k >= n {
        return StringStep::Stop;
    }
    if (k as u128) * 7 >= usize::BITS as u128 {
        return StringStep::Overflow;
    }
    let mut v: usize = 0;
    let mut i: usize = 0;
    while i < k
        invariant
            i <= k,
            7 * k < usize::BITS,
            q + k < n,
            n == b@.len(),
            v == prefix_value(b@, q as int, i as nat),
        decreases k - i,
    {
        v = v | (((b[q + i] & 0x7f) as usize) << (7 * i));
        i = i + 1;
    }
    let v = v | ((b[q + k] as usize) << (7 * k));
    if v > n - (q + k + 1) {
        StringStep::Stop
    } else {
        StringStep::Next(q + k + 1 + v)
    }
}

/// Whether a string of the replay's header has a length prefix too long to
/// decode.
pub fn lengths_overflow(bytes: &[u8]) -> (o: bool)
    ensures
        o == replay_lengths_overflow(bytes@),
{
    let n = bytes.len();
    if n < 5 || bytes[0] >= 4 {
        return false;
    }
    match string_step_at(bytes, 5) {
        StringStep::Overflow => true,
        StringStep::Stop => false,
        StringStep::Next(p1) => match string_step_at(bytes, p1) {
            StringStep::Overflow => true,
            StringStep::Stop => false,
            StringStep::Next(p2) => match string_step_at(bytes, p2) {
                StringStep::Overflow => true,
                StringStep::Stop => false,
                StringStep::Next(p3) => {
                    if p3 >= n || n - p3 <= 23 {
                        false
                    } else {
                        match string_step_at(bytes, p3 + 23) {
                            StringStep::Overflow => true,
                            _ => false,
                        }
                    }
                },
            },
        },
    }
}

/// The `k` bytes after position `p` all have the high bit set.
pub open spec fn high_bytes_after(b: Seq<u8>, p: int, k: int) -> bool {
    forall|i: int| 0 <= i < k ==> #[trigger] b[p + 1 + i] >= 0x80
}

proof fn lemma_high_run(b: Seq<u8>, q: int)
    requires
        0 <= q,
    ensures
        q + high_run(b, q) <= b.len() || high_run(b, q) == 0,
        forall|i: int| 0 <= i < high_run(b, q) ==> #[trigger] b[q + i] >= 0x80,
    decreases b.len() - q,
{
    if 0 <= q < b.len() && b[q] >= 0x80 {
        lemma_high_run(b, q + 1);
        assert forall|i: int| 0 <= i < high_run(b, q) implies #[trigger] b[q + i] >= 0x80 by {
            if i > 0 {
                assert(b[(q + 1) + (i - 1)] >= 0x80);
            }
        }
    }
}

proof fn lemma_overflow_witness(b: Seq<u8>, p: int)
    requires
        0 <= p,
        string_step(b, p) is Overflow,
    ensures
        b[p] == 0x0b,
        exists|k: int| 7 * k >= usize::BITS && p + 1 + k < b.len() && #[trigger] high_bytes_after(b, p, k),
{
    let k = high_run(b, p + 1) as int;
    lemma_high_run(b, p + 1);
    assert forall|i: int| 0 <= i < k implies #[trigger] b[p + 1 + i] >= 0x80 by {
        assert(b[(p + 1) + i] >= 0x80);
    }
    assert(high_bytes_after(b, p, k));
}

/// A replay file is refused for its header lengths only when one of them
/// really cannot be decoded: some string tag `0x0b` is followed by at least
/// `k` bytes with the high bit set, with `7 * k` at least `usize::BITS`,
/// and then a last byte. A header whose length prefixes are all shorter
/// (such as a two-byte length of a long life graph) is not refused.
pub proof fn law_only_undecodable_lengths_are_refused(b: Seq<u8>)
    requires
        replay_lengths_overflow(b),
    ensures
        exists|p: int, k: int|
            0 <= p && 7 * k >= usize::BITS && p + 1 + k < b.len() && b[p] == 0x0b && #[trigger] high_bytes_after(
                b,
                p,
                k,
            ),
{
    let s1 = string_step(b, 5);
    if s1 is Overflow {
        lemma_overflow_witness(b, 5);
    } else {
        let p1 = s1->Next_0 as int;
        let s2 = string_step(b, p1);
        if s2 is Overflow {
            lemma_overflow_witness(b, p1);
        } else {
            let p2 = s2->Next_0 as int;
            let s3 = string_step(b, p2);
            if s3 is Overflow {
                lemma_overflow_witness(b, p2);
            } else {
                let p4 = s3->Next_0 + 23;
                lemma_overflow_witness(b, p4);
            }
        }
    }
}

/// What osu_db's replay parser reads from a file: mode number, beatmap
/// checksum, player name and replay checksum, or `None` when the bytes are
/// not a replay.
pub uninterp spec fn parsed_replay(bytes: Seq<u8>) -> Option<(u8, Option<Seq<char>>, Option<Seq<char>>, Option<Seq<char>>)>;

/// Reads a replay file with `osu_db::Replay::from_bytes`. Its result is
/// named `parsed_replay`; the mode number is that of one of the four modes
/// (`Mode::from_raw` refuses any other). osu_db decodes each string length
/// into a `usize`, shifting by 7 more bits for every byte with the high bit
/// set; a shift of `usize::BITS` bits or more panics, so files whose header
/// has such a length prefix are left out. (osu_db's LZMA decoder for the
/// replay data runs without a memory limit; the contract says nothing of
/// memory use.)
#[verifier::external_body]
fn parse_replay(bytes: &[u8]) -> (info: Option<ReplayInfo>)
    requires
        !replay_lengths_overflow(bytes@),
    ensures
        match info {
            Some(i) => parsed_replay(bytes@) == Some(replay_view(i)) && i.mode < 4,
            None => parsed_replay(bytes@) is None,
        },
{
    match Replay::from_bytes(bytes) {
        Ok(r) => Some(ReplayInfo {
            mode: r.mode.raw(),
            beatmap_hash: r.beatmap_hash,
            player_name: r.player_name,
            replay_hash: r.replay_hash,
        }),
        Err(_) => None,
    }
}

/// A replay file as the bot reads it, or the answer that it cannot be read:
/// when osu_db rejects it, or when a string length in its header is too long
/// to decode (osu_db would panic on it).
pub fn read_replay(bytes: &[u8]) -> (res: Result<ReplayInfo, crate::commands::Answer>)
    ensures
        match res {
            Ok(i) => !replay_lengths_overflow(bytes@) && parsed_replay(bytes@) == Some(replay_view(i)) && i.mode
                < 4,
            Err(a) => a == crate::commands::Answer::ReplayUnreadable && (replay_lengths_overflow(bytes@)
                || parsed_replay(bytes@) is None),
        },
{
    if lengths_overflow(bytes) {
        return Err(crate::commands::Answer::ReplayUnreadable);
    }
    match parse_replay(bytes) {
        Some(i) => Ok(i),
        None => Err(crate::commands::Answer::ReplayUnreadable),
    }
}

/// The checksum that identifies a replay file among requests: the replay's
/// own checksum, or the empty string when the file has none.
pub fn replay_checksum(replay: &ReplayInfo) -> (checksum: String)
    ensures
        checksum@ == match replay.replay_hash {
            Some(h) => h@,
            None => Seq::<char>::empty(),
        },
{
    match &replay.replay_hash {
        Some(h) => h.clone(),
        None => String::new(),
    }
}

} // verus!
