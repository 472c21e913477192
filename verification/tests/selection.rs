use podcast_getter::feed::{filter_by_date, parse_feed, project_item, select, Episode, FeedItem};

fn ep(title: &str, url: &str, pub_date: i64) -> Episode {
    Episode { title: title.to_string(), description: None, url: url.to_string(), pub_date }
}

fn titles(eps: &[Episode]) -> Vec<String> {
    eps.iter().map(|e| e.title.clone()).collect()
}

#[test]
fn strict_inequality_filter() {
    let t = 1000;
    let candidates = vec![ep("at", "u1", t), ep("after", "u2", t + 1), ep("before", "u3", t - 1)];
    let out = select(candidates, Some(t), None);
    assert_eq!(titles(&out), vec!["after".to_string()]);
}

#[test]
fn no_checkpoint_passthrough() {
    let candidates = vec![ep("a", "u1", 3), ep("b", "u2", 1), ep("c", "u3", 2)];
    let out = select(candidates, None, None);
    assert_eq!(titles(&out), vec!["a".to_string(), "b".to_string(), "c".to_string()]);
    assert_eq!(out[0].url, "u1");
    assert_eq!(out[1].pub_date, 1);
}

#[test]
fn cap_truncation_keeps_first_in_order() {
    let candidates = vec![ep("a", "u1", 10), ep("b", "u2", 5), ep("c", "u3", 20), ep("d", "u4", 30)];
    let out = select(candidates, Some(7), Some(2));
    // passing: a, c, d; the first two in original order
    assert_eq!(titles(&out), vec!["a".to_string(), "c".to_string()]);
}

#[test]
fn cap_larger_than_passing_count() {
    let candidates = vec![ep("a", "u1", 10), ep("b", "u2", 5)];
    let out = select(candidates, Some(7), Some(10));
    assert_eq!(titles(&out), vec!["a".to_string()]);
}

#[test]
fn cap_zero_selects_nothing() {
    let candidates = vec![ep("a", "u1", 10)];
    let out = select(candidates, None, Some(0));
    assert!(out.is_empty());
}

#[test]
fn empty_candidate_list_selects_nothing() {
    assert!(select(Vec::new(), None, None).is_empty());
    assert!(select(Vec::new(), Some(5), Some(3)).is_empty());
}

#[test]
fn filter_without_cutoff_is_identity() {
    let candidates = vec![ep("a", "u1", 1), ep("b", "u2", 2)];
    let out = filter_by_date(candidates, None);
    assert_eq!(titles(&out), vec!["a".to_string(), "b".to_string()]);
}

#[test]
fn project_item_defaults() {
    let it = FeedItem {
        title: None,
        description: Some("d".to_string()),
        link: Some("http://a/2".to_string()),
        enclosure_url: None,
        pub_date: None,
    };
    let e = project_item(&it, 99).expect("entry with a link is kept");
    assert_eq!(e.title, "Unknown");
    assert_eq!(e.url, "http://a/2");
    assert_eq!(e.pub_date, 99);
    assert_eq!(e.description.as_deref(), Some("d"));
}

#[test]
fn project_item_prefers_enclosure_and_drops_urlless() {
    let it = FeedItem {
        title: Some("t".to_string()),
        description: None,
        link: Some("http://link".to_string()),
        enclosure_url: Some("http://enc/1.mp3".to_string()),
        pub_date: None,
    };
    assert_eq!(project_item(&it, 0).unwrap().url, "http://enc/1.mp3");
    let bare = FeedItem {
        title: Some("t".to_string()),
        description: Some("only text".to_string()),
        link: None,
        enclosure_url: None,
        pub_date: None,
    };
    assert!(project_item(&bare, 0).is_none());
}

#[test]
fn parse_feed_projects_entries() {
    let mut doc = String::new();
    doc.push_str("<?xml version=\"1.0\"?><rss version=\"2.0\"><channel>");
    doc.push_str("<title>T</title><link>L</link><description>D</description>");
    doc.push_str("<image><url>http://img/cover.jpg</url><title>t</title><link>L</link></image>");
    doc.push_str("<item><title>Ep1</title>");
    doc.push_str("<enclosure url=\"http://a/1.mp3\" length=\"1\" type=\"audio/mpeg\"/>");
    doc.push_str("<pubDate>Mon, 01 Jan 2024 00:00:00 GMT</pubDate></item>");
    doc.push_str("<item><link>http://a/2</link></item>");
    doc.push_str("<item><description>no url at all</description></item>");
    doc.push_str("</channel></rss>");
    let (episodes, cover) = parse_feed(&doc, 5).expect("well-formed feed parses");
    assert_eq!(cover.as_deref(), Some("http://img/cover.jpg"));
    assert_eq!(episodes.len(), 2);
    assert_eq!(episodes[0].title, "Ep1");
    assert_eq!(episodes[0].url, "http://a/1.mp3");
    // the RFC 2822 date above is this Unix timestamp
    assert_eq!(episodes[0].pub_date, 1704067200);
    assert_eq!(episodes[1].title, "Unknown");
    assert_eq!(episodes[1].url, "http://a/2");
    assert_eq!(episodes[1].pub_date, 5);
}

#[test]
fn parse_feed_rejects_garbage() {
    assert!(parse_feed("this is not xml", 0).is_err());
}
