use forum_watch::extract::parse_posts;
use forum_watch::timestamp::Timestamp;

fn item(url: &str, title: &str, meta: Option<&str>) -> String {
    let meta_block = match meta {
        Some(m) => format!(
            "<div class=\"primaryContent\"><div class=\"metaData\"><span class=\"dateData\">{}</span></div></div>",
            m
        ),
        None => String::new(),
    };
    format!(
        "<li class=\"articleItem\"><h3 class=\"subHeading\"><a href=\"{}\">{}</a></h3>{}</li>",
        url, title, meta_block
    )
}

fn page(items: &[String]) -> String {
    format!("<html><body><ol id=\"articlesGrid\">{}</ol></body></html>", items.concat())
}

#[test]
fn two_identical_items_give_two_candidates() {
    let one = item("/t/1", "Hello", Some("by Alice : Jan 5, 2024 at 3:45 PM"));
    let html = page(&[one.clone(), one]);
    let posts = parse_posts(&html);
    assert_eq!(posts.len(), 2);
    for p in &posts {
        assert_eq!(p.url.as_deref(), Some("/t/1"));
        assert_eq!(p.title.as_deref(), Some("Hello"));
        assert_eq!(p.meta.poster.as_deref(), Some("Alice"));
        assert_eq!(
            p.meta.date,
            Some(Timestamp { year: 2024, month: 1, day: 5, hour: 15, minute: 45, second: 0 })
        );
    }
}

#[test]
fn keeps_document_order() {
    let html = page(&[
        item("/t/3", "Third", Some("by C : Mar 3, 2024 at 1:00 PM")),
        item("/t/1", "First", Some("by A : Jan 1, 2024 at 1:00 PM")),
        item("/t/2", "Second", Some("by B : Feb 2, 2024 at 1:00 PM")),
    ]);
    let urls: Vec<Option<String>> = parse_posts(&html).into_iter().map(|p| p.url).collect();
    assert_eq!(
        urls,
        vec![Some("/t/3".to_string()), Some("/t/1".to_string()), Some("/t/2".to_string())]
    );
}

#[test]
fn item_without_meta_block_keeps_link_and_siblings() {
    let html = page(&[
        item("/t/1", "No meta", None),
        item("/t/2", "With meta", Some("by Bob : Jan 5, 2024 at 3:45 PM")),
    ]);
    let posts = parse_posts(&html);
    assert_eq!(posts.len(), 2);
    assert_eq!(posts[0].url.as_deref(), Some("/t/1"));
    assert_eq!(posts[0].title.as_deref(), Some("No meta"));
    assert!(posts[0].meta.poster.is_none());
    assert!(posts[0].meta.date.is_none());
    assert_eq!(posts[1].meta.poster.as_deref(), Some("Bob"));
}

#[test]
fn unparseable_meta_leaves_both_fields_absent() {
    let html = page(&[item("/t/1", "Odd", Some("by Bob : some day"))]);
    let posts = parse_posts(&html);
    assert_eq!(posts.len(), 1);
    assert!(posts[0].meta.poster.is_none());
    assert!(posts[0].meta.date.is_none());
    assert_eq!(posts[0].url.as_deref(), Some("/t/1"));
}

#[test]
fn item_without_link_has_no_url_or_title() {
    let html = page(&["<li class=\"articleItem\"><p>nothing here</p></li>".to_string()]);
    let posts = parse_posts(&html);
    assert_eq!(posts.len(), 1);
    assert!(posts[0].url.is_none());
    assert!(posts[0].title.is_none());
}

#[test]
fn items_outside_the_grid_are_ignored() {
    let html = format!(
        "<html><body><ol id=\"other\">{}</ol></body></html>",
        item("/t/9", "Elsewhere", None)
    );
    assert!(parse_posts(&html).is_empty());
    assert!(parse_posts("").is_empty());
}
