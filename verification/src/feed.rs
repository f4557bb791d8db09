//! The YouTube upload feed: reading video ids out of the channel's Atom feed,
//! remembering the newest video seen, and deciding which uploads to announce.

use vstd::prelude::*;
use quick_xml::events::Event;
use quick_xml::Reader;
use crate::text::ends_with;

verus! {

/// quick_xml's pull reader, declared so that it can be held; it is opaque.
#[verifier::external_type_specification]
#[verifier::external_body]
#[verifier::reject_recursive_types(R)]
pub struct ExXmlReader<R>(Reader<R>);

/// One event of an XML document, as far as the feed reader looks at it.
pub enum XmlToken {
    /// Opening tag, with its raw (qualified) name.
    Start(Vec<u8>),
    /// Closing tag, with its raw (qualified) name.
    End(Vec<u8>),
    /// Character data between tags.
    Text(String),
    /// End of the document.
    Eof,
    /// Any other event (empty elements, comments, declarations, ...).
    Other,
    /// The reader failed; the message describes why.
    Error(String),
}

// ---------------------------------------------------------------------------
// Reading video ids

/// The bytes of `videoId`, the (local) name of the element holding a video id.
pub open spec fn video_id_tag() -> Seq<u8> {
    seq![118u8, 105u8, 100u8, 101u8, 111u8, 73u8, 100u8]
}

/// An element whose raw name ends in `videoId` (such as `yt:videoId`).
pub open spec fn is_video_id_element(name: Seq<u8>) -> bool {
    ends_with(name, video_id_tag())
}

/// Scanning `tokens` while `inside` tells whether the scanner is between the
/// tags of a video id element and `found` holds the ids read so far. The
/// first `Eof` ends the scan with the ids found, the first `Error` with that
/// error; a sequence that holds neither has no outcome yet (`None`).
pub open spec fn scan_video_ids(tokens: Seq<XmlToken>, inside: bool, found: Seq<Seq<char>>) -> Option<
    Result<Seq<Seq<char>>, Seq<char>>,
>
    decreases tokens.len(),
{
    if tokens.len() == 0 {
        None
    } else {
        let rest = tokens.drop_first();
        match tokens[0] {
            XmlToken::Eof => Some(Ok(found)),
            XmlToken::Error(e) => Some(Err(e@)),
            XmlToken::Start(n) => scan_video_ids(
                rest,
                if is_video_id_element(n@) { true } else { inside },
                found,
            ),
            XmlToken::End(n) => scan_video_ids(
                rest,
                if is_video_id_element(n@) { false } else { inside },
                found,
            ),
            XmlToken::Text(t) => scan_video_ids(
                rest,
                inside,
                if inside { found.push(t@) } else { found },
            ),
            XmlToken::Other => scan_video_ids(rest, inside, found),
        }
    }
}

/// The video ids of a document whose events are `tokens`: the texts found
/// inside `videoId` elements, in document order.
pub open spec fn video_ids_of(tokens: Seq<XmlToken>) -> Option<Result<Seq<Seq<char>>, Seq<char>>> {
    scan_video_ids(tokens, false, Seq::empty())
}

/// Entry `i` of a feed is a `videoId` element holding the text `text`: an
/// opening tag, the text, and a closing tag, at tokens `3i` to `3i + 2`.
pub open spec fn is_entry(tokens: Seq<XmlToken>, i: int, text: Seq<char>) -> bool {
    &&& tokens[3 * i] matches XmlToken::Start(n) && is_video_id_element(n@)
    &&& tokens[3 * i + 1] matches XmlToken::Text(x) && x@ == text
    &&& tokens[3 * i + 2] matches XmlToken::End(n) && is_video_id_element(n@)
}

/// The tokens are a feed listing the videos `texts`, one `videoId` element
/// each, in order, then the end of the document.
pub open spec fn lists_video_ids(tokens: Seq<XmlToken>, texts: Seq<Seq<char>>) -> bool {
    &&& tokens.len() == 3 * texts.len() + 1
    &&& tokens.last() is Eof
    &&& forall|i: int| 0 <= i < texts.len() ==> #[trigger] is_entry(tokens, i, texts[i])
}

/// The views of a list of strings.
pub open spec fn string_views(v: Seq<String>) -> Seq<Seq<char>> {
    v.map_values(|s: String| s@)
}

/// The token ends a scan.
pub open spec fn is_final_token(t: XmlToken) -> bool {
    t is Eof || t is Error
}

fn video_id_tag_bytes() -> (tag: Vec<u8>)
    ensures
        tag@ == video_id_tag(),
{
    let tag: Vec<u8> = vec![118u8, 105u8, 100u8, 101u8, 111u8, 73u8, 100u8];
    assert(tag@ =~= video_id_tag());
    tag
}

/// `suffix` is a suffix of `s` (byte strings).
pub fn bytes_end_with(s: &Vec<u8>, suffix: &Vec<u8>) -> (b: bool)
    ensures
        b == ends_with(s@, suffix@),
{
    if suffix.len() > s.len() {
        return false;
    }
    let start = s.len() - suffix.len();
    let mut i: usize = 0;
    while i < suffix.len()
        invariant
            suffix.len() <= s.len(),
            start == s.len() - suffix.len(),
            i <= suffix.len(),
            forall|k: int| 0 <= k < i ==> s@[start + k] == suffix@[k],
        decreases suffix.len() - i,
    {
        if s[start + i] != suffix[i] {
            assert(s@.subrange(start as int, s.len() as int)[i as int] != suffix@[i as int]);
            return false;
        }
        i = i + 1;
    }
    assert(s@.subrange(start as int, s.len() as int) =~= suffix@);
    true
}

/// The video ids of a document given by its events: the text of every
/// `videoId` element, in document order, or the reader's error. The scan
/// stops at the first `Eof` or `Error`; events after it are not looked at.
pub fn collect_video_ids(tokens: &Vec<XmlToken>) -> (res: Result<Vec<String>, String>)
    requires
        exists|k: int| 0 <= k < tokens.len() && is_final_token(#[trigger] tokens@[k]),
    ensures
        video_ids_of(tokens@) matches Some(outcome) && match (res, outcome) {
            (Ok(ids), Ok(expected)) => string_views(ids@) == expected,
            (Err(e), Err(expected)) => e@ == expected,
            _ => false,
        },
{
    let tag = video_id_tag_bytes();
    let mut inside = false;
    let mut ids: Vec<String> = Vec::new();
    let mut i: usize = 0;
    proof {
        assert(tokens@.skip(0) =~= tokens@);
        assert(string_views(ids@) =~= Seq::<Seq<char>>::empty());
    }
    while i < tokens.len()
        invariant
            i <= tokens.len(),
            tag@ == video_id_tag(),
            exists|k: int| 0 <= k < tokens.len() && is_final_token(#[trigger] tokens@[k]),
            forall|k: int| 0 <= k < i ==> !is_final_token(#[trigger] tokens@[k]),
            video_ids_of(tokens@) == scan_video_ids(tokens@.skip(i as int), inside, string_views(ids@)),
        decreases tokens.len() - i,
    {
        proof {
            assert(tokens@.skip(i as int).drop_first() =~= tokens@.skip(i + 1));
            assert(tokens@.skip(i as int)[0] == tokens@[i as int]);
        }
        match &tokens[i] {
            XmlToken::Eof => {
                return Ok(ids);
            },
            XmlToken::Error(e) => {
                return Err(e.clone());
            },
            XmlToken::Start(name) => {
                if bytes_end_with(name, &tag) {
                    inside = true;
                }
            },
            XmlToken::End(name) => {
                if bytes_end_with(name, &tag) {
                    inside = false;
                }
            },
            XmlToken::Text(t) => {
                if inside {
                    let t2 = t.clone();
                    proof {
                        assert(string_views(ids@.push(t2)) =~= string_views(ids@).push(t@));
                    }
                    ids.push(t2);
                }
            },
            XmlToken::Other => {},
        }
        i = i + 1;
    }
    proof {
        let k = choose|k: int| 0 <= k < tokens.len() && is_final_token(#[trigger] tokens@[k]);
        assert(!is_final_token(tokens@[k]));
    }
    Err(String::new())
}

/// The events quick_xml's reader yields for the document `xml` when it trims
/// text (`trim_text(true)`), each converted to a token as `next_xml_token`
/// converts it, up to and including the first `Eof` or `Error`.
pub uninterp spec fn feed_events(xml: Seq<char>) -> Seq<XmlToken>;

/// The events a quick_xml reader has yet to yield, converted to tokens as
/// `next_xml_token` converts them, up to and including the first `Eof` or
/// `Error`. The reader is a pull parser: it holds a queue of pending events,
/// and this names what the queue holds. What it yields after an `Eof` or an
/// `Error` (another `Eof`, or further events) lies beyond this sequence and
/// is not named.
pub uninterp spec fn events_ahead(reader: Reader<&[u8]>) -> Seq<XmlToken>;

/// The tokens end at their first `Eof` or `Error`, and only there.
pub open spec fn ends_at_first_final(tokens: Seq<XmlToken>) -> bool {
    &&& tokens.len() > 0
    &&& is_final_token(tokens.last())
    &&& forall|k: int| 0 <= k < tokens.len() - 1 ==> !is_final_token(#[trigger] tokens[k])
}

/// Opens `xml` with quick_xml's `Reader::from_str` and turns on text
/// trimming (`config_mut().trim_text(true)`), as the feed is read. The
/// contract says that the reader's events ahead are the document's events
/// (a name: quick_xml's parsing is not restated), and that they end at the
/// first `Eof` or `Error`: reading a finite slice ends.
#[verifier::external_body]
fn trimming_xml_reader(xml: &str) -> (reader: Reader<&[u8]>)
    ensures
        events_ahead(reader) == feed_events(xml@),
        ends_at_first_final(events_ahead(reader)),
{
    let mut reader = Reader::from_str(xml);
    reader.config_mut().trim_text(true);
    reader
}

/// Reads the next event with quick_xml's `Reader::read_event_into` and
/// converts it to a token: start and end tags keep their raw names, text its
/// content, other events become `Other` and a failure its message. The
/// contract says that the token is the first of the events ahead and, when
/// the token is neither `Eof` nor `Error`, that the rest stay ahead; nothing
/// is said of the reader after an `Eof` or `Error`. Which events a document
/// has is quick_xml's parsing and is only named.
#[verifier::external_body]
fn next_xml_token(reader: &mut Reader<&[u8]>) -> (token: XmlToken)
    requires
        events_ahead(*old(reader)).len() > 0,
    ensures
        token == events_ahead(*old(reader))[0],
        !is_final_token(token) ==> events_ahead(*final(reader)) == events_ahead(*old(reader)).drop_first(),
{
    let mut buf: Vec<u8> = Vec::new();
    match reader.read_event_into(&mut buf) {
        Ok(Event::Start(e)) => XmlToken::Start(e.name().as_ref().as_bytes().to_vec()),
        Ok(Event::End(e)) => XmlToken::End(e.name().as_ref().as_bytes().to_vec()),
        Ok(Event::Text(t)) => XmlToken::Text(String::from(&*t)),
        Ok(Event::Eof) => XmlToken::Eof,
        Ok(_) => XmlToken::Other,
        Err(e) => XmlToken::Error(e.to_string()),
    }
}

/// The ids of the videos listed in a YouTube channel feed, in feed order, or
/// the reader's error: the outcome of scanning the document's events.
pub fn get_video_ids(xml: &str) -> (res: Result<Vec<String>, String>)
    ensures
        video_ids_of(feed_events(xml@)) matches Some(outcome) && match (res, outcome) {
            (Ok(ids), Ok(expected)) => string_views(ids@) == expected,
            (Err(e), Err(expected)) => e@ == expected,
            _ => false,
        },
{
    let mut reader = trimming_xml_reader(xml);
    let ghost doc = feed_events(xml@);
    let mut tokens: Vec<XmlToken> = Vec::new();
    proof {
        assert(doc.skip(0) =~= doc);
        assert(tokens@ =~= doc.take(0));
    }
    loop
        invariant
            ends_at_first_final(doc),
            doc == feed_events(xml@),
            events_ahead(reader) == doc.skip(tokens.len() as int),
            tokens@ == doc.take(tokens.len() as int),
            tokens.len() < doc.len(),
        decreases doc.len() - tokens.len(),
    {
        let ghost n = tokens.len() as int;
        let tok = next_xml_token(&mut reader);
        proof {
            assert(doc.skip(n).drop_first() =~= doc.skip(n + 1));
            assert(tok == doc[n]);
        }
        let done = match &tok {
            XmlToken::Eof => true,
            XmlToken::Error(_) => true,
            _ => false,
        };
        tokens.push(tok);
        proof {
            assert(tokens@ =~= doc.take(n + 1));
        }
        if done {
            proof {
                assert(n == doc.len() - 1);
                assert(tokens@ =~= doc);
                assert(is_final_token(tokens@[n]));
            }
            return collect_video_ids(&tokens);
        }
    }
}

// ---------------------------------------------------------------------------
// Remembering the newest upload

/// The newest video the feed has shown, if the feed has been read before.
pub struct FeedState {
    last_video_id: Option<String>,
}

impl View for FeedState {
    type V = Option<Seq<char>>;

    closed spec fn view(&self) -> Option<Seq<char>> {
        match self.last_video_id {
            Some(s) => Some(s@),
            None => None,
        }
    }
}

/// The uploads listed before `last` in `ids` (newest first): all of them if
/// `last` is not listed.
pub open spec fn uploads_before(ids: Seq<Seq<char>>, last: Seq<char>) -> Seq<Seq<char>>
    decreases ids.len(),
{
    if ids.len() == 0 || ids[0] == last {
        Seq::empty()
    } else {
        seq![ids[0]].add(uploads_before(ids.drop_first(), last))
    }
}

/// The uploads to announce when the feed lists `ids` (newest first) and
/// `last` is the newest video seen at the previous reading: none on the first
/// reading, else those listed before `last`.
pub open spec fn new_uploads(last: Option<Seq<char>>, ids: Seq<Seq<char>>) -> Seq<Seq<char>> {
    match last {
        None => Seq::empty(),
        Some(l) => uploads_before(ids, l),
    }
}

/// The newest video seen after reading a feed that lists `ids`.
pub open spec fn next_last_video(last: Option<Seq<char>>, ids: Seq<Seq<char>>) -> Option<Seq<char>> {
    if ids.len() > 0 {
        Some(ids[0])
    } else {
        last
    }
}

impl FeedState {
    /// A feed that has not been read yet.
    pub fn new() -> (state: FeedState)
        ensures
            state@ is None,
    {
        FeedState { last_video_id: None }
    }

    /// The newest video seen so far.
    pub fn value(&self) -> (v: &Option<String>)
        ensures
            match *v {
                Some(s) => self@ == Some(s@),
                None => self@ is None,
            },
    {
        &self.last_video_id
    }

    /// Records `s` as the newest video seen.
    pub fn set(&mut self, s: String)
        ensures
            final(self)@ == Some(s@),
    {
        self.last_video_id = Some(s);
    }

    /// A copy of the newest video seen so far.
    pub fn get_clone(&self) -> (v: Option<String>)
        ensures
            match v {
                Some(s) => self@ == Some(s@),
                None => self@ is None,
            },
    {
        match &self.last_video_id {
            Some(s) => Some(s.clone()),
            None => None,
        }
    }

    /// Takes in a reading of the feed, which lists `video_ids` newest first:
    /// returns the uploads to announce, newest first, and remembers the
    /// newest listed video.
    pub fn record_reading(&mut self, video_ids: &Vec<String>) -> (announce: Vec<String>)
        ensures
            final(self)@ == next_last_video(old(self)@, string_views(video_ids@)),
            string_views(announce@) == new_uploads(old(self)@, string_views(video_ids@)),
    {
        let last = self.get_clone();
        if video_ids.len() > 0 {
            self.set(video_ids[0].clone());
        }
        let mut announce: Vec<String> = Vec::new();
        let last = match last {
            Some(l) => l,
            None => {
                assert(string_views(announce@) =~= Seq::<Seq<char>>::empty());
                return announce;
            },
        };
        let ghost ids = string_views(video_ids@);
        let mut i: usize = 0;
        proof {
            assert(ids.skip(0) =~= ids);
            assert(string_views(announce@) =~= Seq::<Seq<char>>::empty());
            assert(Seq::<Seq<char>>::empty() + uploads_before(ids, last@) =~= uploads_before(ids, last@));
        }
        while i < video_ids.len()
            invariant
                i <= video_ids.len(),
                ids == string_views(video_ids@),
                self@ == next_last_video(old(self)@, ids),
                old(self)@ == Some(last@),
                uploads_before(ids, last@) == string_views(announce@) + uploads_before(ids.skip(i as int), last@),
            decreases video_ids.len() - i,
        {
            proof {
                assert(ids.skip(i as int).drop_first() =~= ids.skip(i + 1));
                assert(ids.skip(i as int)[0] == video_ids@[i as int]@);
            }
            if video_ids[i] == last {
                assert(string_views(announce@) + Seq::<Seq<char>>::empty() =~= string_views(announce@));
                return announce;
            }
            let id = video_ids[i].clone();
            proof {
                assert(string_views(announce@.push(id)) =~= string_views(announce@).push(id@));
                assert(string_views(announce@).push(id@) + uploads_before(ids.skip(i + 1), last@)
                    =~= string_views(announce@) + (seq![id@] + uploads_before(ids.skip(i + 1), last@)));
            }
            announce.push(id);
            i = i + 1;
        }
        proof {
            assert(ids.skip(i as int) =~= Seq::<Seq<char>>::empty());
            assert(string_views(announce@) + Seq::<Seq<char>>::empty() =~= string_views(announce@));
        }
        announce
    }
}

/// `"https://youtu.be/<id>"`, the short link of a video.
pub open spec fn spec_video_link(video_id: Seq<char>) -> Seq<char> {
    "https://youtu.be/"@ + video_id
}

/// The message that announces a new upload.
pub open spec fn spec_upload_message(video_id: Seq<char>) -> Seq<char> {
    "A new score has been uploaded!\n"@ + spec_video_link(video_id)
}

/// The address of the Atom feed of a YouTube channel.
pub open spec fn spec_feed_url(channel_id: Seq<char>) -> Seq<char> {
    "https://www.youtube.com/feeds/videos.xml?channel_id="@ + channel_id
}

/// Short link of a video.
pub fn video_link(video_id: &str) -> (link: String)
    ensures
        link@ == spec_video_link(video_id@),
{
    let mut link = String::from_str("https://youtu.be/");
    link.append(video_id);
    link
}

/// Message posted for a new upload.
pub fn upload_message(video_id: &str) -> (msg: String)
    ensures
        msg@ == spec_upload_message(video_id@),
{
    let mut msg = String::from_str("A new score has been uploaded!\n");
    let link = video_link(video_id);
    msg.append(link.as_str());
    assert(msg@ =~= spec_upload_message(video_id@));
    msg
}

/// Feed address of the channel with the given id.
pub fn feed_url(channel_id: &str) -> (url: String)
    ensures
        url@ == spec_feed_url(channel_id@),
{
    let mut url = String::from_str("https://www.youtube.com/feeds/videos.xml?channel_id=");
    url.append(channel_id);
    url
}

/// Reading the feed for the first time announces nothing; reading it again
/// while it lists the same videos announces nothing either: every upload is
/// announced at most once per listing.
pub proof fn law_no_repeated_announcements(last: Option<Seq<char>>, ids: Seq<Seq<char>>)
    ensures
        new_uploads(None, ids) == Seq::<Seq<char>>::empty(),
        ids.len() > 0 ==> new_uploads(next_last_video(last, ids), ids) == Seq::<Seq<char>>::empty(),
{
}

/// The announced uploads are the newest listed videos, in feed order, up to
/// (and without) the video seen at the previous reading.
pub proof fn law_announced_are_newest(last: Seq<char>, ids: Seq<Seq<char>>)
    ensures
        uploads_before(ids, last).len() <= ids.len(),
        uploads_before(ids, last) == ids.take(uploads_before(ids, last).len() as int),
        !uploads_before(ids, last).contains(last),
        uploads_before(ids, last).len() < ids.len() ==> ids[uploads_before(ids, last).len() as int] == last,
    decreases ids.len(),
{
    if ids.len() > 0 && ids[0] != last {
        law_announced_are_newest(last, ids.drop_first());
        let rest = uploads_before(ids.drop_first(), last);
        assert(uploads_before(ids, last) == seq![ids[0]].add(rest));
        assert(seq![ids[0]].add(rest) =~= ids.take(rest.len() + 1 as int));
        if seq![ids[0]].add(rest).contains(last) {
            let k = choose|k: int| 0 <= k < rest.len() + 1 && seq![ids[0]].add(rest)[k] == last;
            assert(k != 0);
            assert(rest[k - 1] == last);
        }
    } else if ids.len() > 0 {
        assert(uploads_before(ids, last) =~= Seq::<Seq<char>>::empty());
        assert(ids.take(0) =~= Seq::<Seq<char>>::empty());
    } else {
        assert(ids.take(0) =~= Seq::<Seq<char>>::empty());
    }
}

proof fn lemma_scan_lists(tokens: Seq<XmlToken>, texts: Seq<Seq<char>>, found: Seq<Seq<char>>)
    requires
        lists_video_ids(tokens, texts),
    ensures
        scan_video_ids(tokens, false, found) == Some(Ok::<Seq<Seq<char>>, Seq<char>>(found + texts)),
    decreases texts.len(),
{
    if texts.len() == 0 {
        assert(found + texts =~= found);
        assert(tokens[0] is Eof);
    } else {
        assert(is_entry(tokens, 0, texts[0]));
        let t1 = tokens.drop_first();
        let t2 = t1.drop_first();
        let t3 = t2.drop_first();
        assert(t1[0] == tokens[1]);
        assert(t2[0] == tokens[2]);
        let rest = texts.drop_first();
        assert forall|i: int| 0 <= i < rest.len() implies #[trigger] is_entry(t3, i, rest[i]) by {
            assert(is_entry(tokens, i + 1, texts[i + 1]));
            assert(t3[3 * i] == tokens[3 * (i + 1)]);
            assert(t3[3 * i + 1] == tokens[3 * (i + 1) + 1]);
            assert(t3[3 * i + 2] == tokens[3 * (i + 1) + 2]);
        }
        assert(t3.last() == tokens.last());
        lemma_scan_lists(t3, rest, found.push(texts[0]));
        assert(found.push(texts[0]) + rest =~= found + texts);
        let a = found.push(texts[0]);
        match tokens[2] {
            XmlToken::End(n) => {
                assert(is_video_id_element(n@));
                assert(scan_video_ids(t2, true, a) == scan_video_ids(t3, false, a));
            },
            _ => {},
        }
        match tokens[1] {
            XmlToken::Text(x) => {
                assert(x@ == texts[0]);
                assert(scan_video_ids(t1, true, found) == scan_video_ids(t2, true, a));
            },
            _ => {},
        }
        match tokens[0] {
            XmlToken::Start(n) => {
                assert(is_video_id_element(n@));
                assert(scan_video_ids(tokens, false, found) == scan_video_ids(t1, true, found));
            },
            _ => {},
        }
    }
}

/// Every video a feed lists is read, in order and none left out: a document
/// whose events are one `videoId` element per video and then its end gives
/// exactly the listed texts, however many there are.
pub proof fn law_every_listed_video_is_read(tokens: Seq<XmlToken>, texts: Seq<Seq<char>>)
    requires
        lists_video_ids(tokens, texts),
    ensures
        video_ids_of(tokens) == Some(Ok::<Seq<Seq<char>>, Seq<char>>(texts)),
{
    lemma_scan_lists(tokens, texts, Seq::empty());
    assert(Seq::<Seq<char>>::empty() + texts =~= texts);
}

} // verus!
