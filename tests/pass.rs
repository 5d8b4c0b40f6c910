use forum_watch::post::{ForumPost, ForumPostMeta};
use forum_watch::sync::new_posts;

fn post(url: Option<&str>, title: &str) -> ForumPost {
    ForumPost {
        url: url.map(|u| u.to_string()),
        title: Some(title.to_string()),
        meta: ForumPostMeta { poster: Some("someone".to_string()), date: None },
    }
}

#[test]
fn only_the_unseen_post_is_new() {
    let stored = vec![post(Some("A"), "a"), post(Some("B"), "b")];
    let cands = vec![post(Some("A"), "a"), post(Some("B"), "b"), post(Some("C"), "c")];
    assert_eq!(new_posts(&cands, &stored), vec![2]);
}

#[test]
fn second_pass_finds_nothing() {
    let cands = vec![post(Some("A"), "a"), post(Some("B"), "b"), post(None, "x")];
    let mut stored = vec![post(Some("B"), "b")];
    let first = new_posts(&cands, &stored);
    assert_eq!(first, vec![0]);
    for i in first {
        stored.push(cands[i].clone());
    }
    assert!(new_posts(&cands, &stored).is_empty());
}

#[test]
fn candidate_without_url_is_never_picked() {
    let cands = vec![post(None, "x"), post(None, "y")];
    assert!(new_posts(&cands, &Vec::new()).is_empty());
}

#[test]
fn repeated_url_within_a_pass_is_picked_once() {
    let cands = vec![post(Some("/t/1"), "Hello"), post(Some("/t/1"), "Hello"), post(Some("/t/2"), "Hi")];
    assert_eq!(new_posts(&cands, &Vec::new()), vec![0, 2]);
}

#[test]
fn stored_rows_without_url_know_nothing() {
    let stored = vec![post(None, "a")];
    let cands = vec![post(Some("A"), "a")];
    assert_eq!(new_posts(&cands, &stored), vec![0]);
}
