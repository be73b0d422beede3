use llm_enhancer::history::{DialogueCache, DEFAULT_CAPACITY};

fn cache_with(cap: usize, items: &[&str]) -> DialogueCache {
    let mut c = DialogueCache::with_capacity(cap);
    for (i, it) in items.iter().enumerate() {
        c.add_user_message_at(format!("t{}", i + 1), it.to_string());
    }
    c
}

fn requests(c: &DialogueCache) -> Vec<String> {
    c.messages.iter().map(|m| m.user_request.clone()).collect()
}

#[test]
fn capacity_two_keeps_last_two_and_attaches_to_latest() {
    let mut c = cache_with(2, &["a", "b", "c"]);
    assert_eq!(requests(&c), vec!["b", "c"]);
    c.update_last_response("R".to_string());
    assert_eq!(c.messages[0].llm_response, "");
    assert_eq!(c.messages[1].llm_response, "R");
    assert_eq!(c.messages[1].user_request, "c");
}

#[test]
fn default_capacity_is_ten() {
    let mut c = DialogueCache::new();
    assert_eq!(c.max_size, DEFAULT_CAPACITY);
    assert_eq!(DEFAULT_CAPACITY, 10);
    for i in 0..12 {
        c.add_user_message(format!("m{}", i));
    }
    assert_eq!(c.len(), 10);
    assert_eq!(c.messages[0].user_request, "m2");
    assert_eq!(c.messages[9].user_request, "m11");
    assert!(!c.messages[9].timestamp.is_empty());
}

#[test]
fn fewer_appends_than_capacity_keeps_all() {
    let c = cache_with(5, &["x", "y", "z"]);
    assert_eq!(requests(&c), vec!["x", "y", "z"]);
}

#[test]
fn zero_capacity_keeps_nothing() {
    let mut c = cache_with(0, &["x", "y"]);
    assert_eq!(c.len(), 0);
    c.update_last_response("R".to_string());
    assert_eq!(c.len(), 0);
    assert_eq!(c.to_string(), "");
}

#[test]
fn response_goes_to_latest_even_when_earlier_have_responses() {
    let mut c = cache_with(3, &["a"]);
    c.update_last_response("first".to_string());
    c.add_user_message_at("t2".to_string(), "b".to_string());
    c.update_last_response("second".to_string());
    assert_eq!(c.messages[0].llm_response, "first");
    assert_eq!(c.messages[1].llm_response, "second");
}

#[test]
fn update_on_empty_cache_does_nothing() {
    let mut c = DialogueCache::new();
    c.update_last_response("R".to_string());
    assert_eq!(c.len(), 0);
    assert!(c.to_vec().is_empty());
}

#[test]
fn transcript_format_is_exact() {
    let mut c = cache_with(10, &["a", "b"]);
    c.update_last_response("R".to_string());
    assert_eq!(
        c.to_string(),
        "[t1] User: a\nAssistant: \n\n[t2] User: b\nAssistant: R"
    );
    assert_eq!(
        c.to_vec(),
        vec!["[t1] User: a\nAssistant: ".to_string(), "[t2] User: b\nAssistant: R".to_string()]
    );
}

#[test]
fn transcript_split_matches_list() {
    let mut c = cache_with(4, &["one", "two", "three"]);
    c.update_last_response("done".to_string());
    let joined = c.to_string();
    let split: Vec<String> = joined.split("\n\n").map(|s| s.to_string()).collect();
    assert_eq!(split, c.to_vec());
}

#[test]
fn empty_cache_renders_empty() {
    let c = DialogueCache::new();
    assert_eq!(c.to_string(), "");
    assert!(c.to_vec().is_empty());
}
