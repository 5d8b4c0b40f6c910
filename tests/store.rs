use forum_watch::db::{post_from_row, row_values, Database};
use forum_watch::extract::parse_posts;
use forum_watch::meta::parse_meta;
use forum_watch::post::{ForumPost, ForumPostMeta};
use forum_watch::sync::new_posts;
use forum_watch::timestamp::Timestamp;

fn alice_post(url: &str) -> ForumPost {
    ForumPost {
        url: Some(url.to_string()),
        title: Some("Hello".to_string()),
        meta: ForumPostMeta {
            poster: Some("Alice".to_string()),
            date: Some(Timestamp { year: 2024, month: 1, day: 5, hour: 15, minute: 45, second: 0 }),
        },
    }
}

#[test]
fn row_holds_date_in_store_format() {
    let values = row_values(&alice_post("/t/1"));
    assert_eq!(values, vec!["/t/1", "Hello", "Alice", "2024-01-05 15:45:00"]);
}

#[test]
fn row_of_empty_post_is_empty_texts() {
    let p = ForumPost { url: None, title: None, meta: ForumPostMeta { poster: None, date: None } };
    assert_eq!(row_values(&p), vec!["", "", "", ""]);
}

#[test]
fn stored_date_reads_back_as_parsed_meta_date() {
    let row = vec![
        Some("/t/1".to_string()),
        Some("Hello".to_string()),
        Some("Alice".to_string()),
        Some("2024-01-05 15:45:00".to_string()),
    ];
    let p = post_from_row(&row);
    let (_, parsed) = parse_meta("by Alice : Jan 5, 2024 at 3:45 PM").unwrap();
    assert_eq!(p.meta.date, Some(parsed));
    assert_eq!(p.url.as_deref(), Some("/t/1"));
}

#[test]
fn unreadable_stored_date_gives_no_date() {
    let row = vec![Some("/t/1".to_string()), None, None, Some("Jan 5".to_string())];
    let p = post_from_row(&row);
    assert!(p.meta.date.is_none());
    assert!(p.title.is_none());
}

#[test]
fn database_round_trip_newest_first() {
    let db = Database::new(":memory:").ok().unwrap();
    db.insert_post(&alice_post("/t/1")).ok().unwrap();
    db.insert_post(&alice_post("/t/2")).ok().unwrap();
    let posts = db.get_posts().ok().unwrap();
    assert_eq!(posts.len(), 2);
    assert_eq!(posts[0].url.as_deref(), Some("/t/2"));
    assert_eq!(posts[1].url.as_deref(), Some("/t/1"));
    let (_, parsed) = parse_meta("by Alice : Jan 5, 2024 at 3:45 PM").unwrap();
    assert_eq!(posts[1].meta.date, Some(parsed));
    assert_eq!(posts[1].meta.poster.as_deref(), Some("Alice"));
}

#[test]
fn same_url_twice_gives_two_rows() {
    let db = Database::new(":memory:").ok().unwrap();
    db.insert_post(&alice_post("/t/1")).ok().unwrap();
    db.insert_post(&alice_post("/t/1")).ok().unwrap();
    assert_eq!(db.get_posts().ok().unwrap().len(), 2);
}

#[test]
fn page_already_stored_inserts_nothing() {
    let one = "<li class=\"articleItem\"><h3 class=\"subHeading\"><a href=\"/t/1\">Hello</a></h3>\
        <div class=\"primaryContent\"><div class=\"metaData\"><span class=\"dateData\">by Alice : Jan 5, 2024 at 3:45 PM</span></div></div></li>";
    let html = format!("<html><body><ol id=\"articlesGrid\">{}{}</ol></body></html>", one, one);
    let cands = parse_posts(&html);
    assert_eq!(cands.len(), 2);
    assert_eq!(cands[0].url.as_deref(), Some("/t/1"));
    assert_eq!(cands[1].url.as_deref(), Some("/t/1"));
    let db = Database::new(":memory:").ok().unwrap();
    db.insert_post(&alice_post("/t/1")).ok().unwrap();
    let stored = db.get_posts().ok().unwrap();
    assert!(new_posts(&cands, &stored).is_empty());
}
