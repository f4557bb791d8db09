use osc_bot::feed::{
    bytes_end_with, collect_video_ids, feed_url, get_video_ids, upload_message, video_link, FeedState,
    XmlToken,
};

const FEED: &str = r#"<?xml version="1.0" encoding="UTF-8"?>
<feed xmlns:yt="http://www.youtube.com/xml/schemas/2015" xmlns="http://www.w3.org/2005/Atom">
 <link rel="self" href="http://www.youtube.com/feeds/videos.xml?channel_id=UC123"/>
 <id>yt:channel:123</id>
 <title>osu! scores</title>
 <entry>
  <id>yt:video:abcDEF12345</id>
  <yt:videoId>abcDEF12345</yt:videoId>
  <yt:channelId>UC123</yt:channelId>
  <title>Score one</title>
 </entry>
 <entry>
  <id>yt:video:zyx-987_QWE</id>
  <yt:videoId> zyx-987_QWE </yt:videoId>
  <title>Score two</title>
 </entry>
</feed>
"#;

fn strings(v: &[&str]) -> Vec<String> {
    v.iter().map(|s| s.to_string()).collect()
}

#[test]
fn video_ids_are_read_in_feed_order() {
    assert_eq!(get_video_ids(FEED), Ok(strings(&["abcDEF12345", "zyx-987_QWE"])));
}

#[test]
fn a_feed_without_entries_has_no_video_ids() {
    let xml = r#"<feed><title>empty</title><yt:videoId/></feed>"#;
    assert_eq!(get_video_ids(xml), Ok(vec![]));
    assert_eq!(get_video_ids(""), Ok(vec![]));
}

#[test]
fn a_broken_feed_is_an_error() {
    assert!(get_video_ids("<feed><yt:videoId>abc</yt:channelId></feed>").is_err());
}

#[test]
fn scanner_collects_text_inside_video_id_elements() {
    let tokens = vec![
        XmlToken::Start(b"feed".to_vec()),
        XmlToken::Text("outside".to_string()),
        XmlToken::Start(b"yt:videoId".to_vec()),
        XmlToken::Text("first".to_string()),
        XmlToken::End(b"yt:videoId".to_vec()),
        XmlToken::Other,
        XmlToken::Start(b"videoId".to_vec()),
        XmlToken::Text("second".to_string()),
        XmlToken::End(b"videoId".to_vec()),
        XmlToken::End(b"feed".to_vec()),
        XmlToken::Eof,
        XmlToken::Start(b"videoId".to_vec()),
        XmlToken::Text("after the end".to_string()),
    ];
    assert_eq!(collect_video_ids(&tokens), Ok(strings(&["first", "second"])));
}

#[test]
fn scanner_stops_at_the_first_error() {
    let tokens = vec![
        XmlToken::Start(b"yt:videoId".to_vec()),
        XmlToken::Text("first".to_string()),
        XmlToken::Error("broken".to_string()),
        XmlToken::Eof,
    ];
    assert_eq!(collect_video_ids(&tokens), Err("broken".to_string()));
}

#[test]
fn element_names_are_matched_by_suffix() {
    assert!(bytes_end_with(&b"yt:videoId".to_vec(), &b"videoId".to_vec()));
    assert!(!bytes_end_with(&b"videoIds".to_vec(), &b"videoId".to_vec()));
    assert!(!bytes_end_with(&b"Id".to_vec(), &b"videoId".to_vec()));
}

#[test]
fn feed_state_gives_back_what_was_set() {
    let mut state = FeedState::new();
    assert_eq!(state.get_clone(), None);
    assert_eq!(state.value(), &None);
    state.set("abc".to_string());
    assert_eq!(state.get_clone(), Some("abc".to_string()));
    assert_eq!(state.value(), &Some("abc".to_string()));
}

#[test]
fn first_reading_announces_nothing_and_remembers_the_newest() {
    let mut state = FeedState::new();
    let announce = state.record_reading(&strings(&["c", "b", "a"]));
    assert!(announce.is_empty());
    assert_eq!(state.get_clone(), Some("c".to_string()));
}

#[test]
fn later_readings_announce_uploads_newer_than_the_last_seen() {
    let mut state = FeedState::new();
    state.record_reading(&strings(&["b", "a"]));
    let announce = state.record_reading(&strings(&["d", "c", "b", "a"]));
    assert_eq!(announce, strings(&["d", "c"]));
    assert_eq!(state.get_clone(), Some("d".to_string()));
}

#[test]
fn repeated_reading_announces_nothing() {
    let mut state = FeedState::new();
    state.record_reading(&strings(&["b", "a"]));
    assert_eq!(state.record_reading(&strings(&["c", "b", "a"])), strings(&["c"]));
    assert!(state.record_reading(&strings(&["c", "b", "a"])).is_empty());
}

#[test]
fn when_the_last_seen_video_is_gone_every_listed_video_is_announced() {
    let mut state = FeedState::new();
    state.set("gone".to_string());
    assert_eq!(state.record_reading(&strings(&["y", "x"])), strings(&["y", "x"]));
}

#[test]
fn an_empty_reading_keeps_the_last_seen_video() {
    let mut state = FeedState::new();
    state.set("a".to_string());
    assert!(state.record_reading(&vec![]).is_empty());
    assert_eq!(state.get_clone(), Some("a".to_string()));
}

#[test]
fn upload_messages_and_links() {
    assert_eq!(video_link("abc"), "https://youtu.be/abc");
    assert_eq!(upload_message("abc"), "A new score has been uploaded!\nhttps://youtu.be/abc");
    assert_eq!(feed_url("UC123"), "https://www.youtube.com/feeds/videos.xml?channel_id=UC123");
}
