use llm_enhancer::history::DEFAULT_CAPACITY;
use llm_enhancer::store::ConversationStore;

#[test]
fn first_message_creates_empty_history() {
    let mut s = ConversationStore::new();
    let st = s.take_or_create(42);
    assert_eq!(st.dialogue_cache.len(), 0);
    assert_eq!(st.dialogue_cache.max_size, DEFAULT_CAPACITY);
    assert!(s.chats.is_empty());
}

#[test]
fn history_survives_put_back_and_stays_per_chat() {
    let mut s = ConversationStore::new();
    let mut a = s.take_or_create(1);
    a.dialogue_cache.add_user_message_at("t".to_string(), "hello".to_string());
    s.put_back(1, a);
    let b = s.take_or_create(2);
    assert_eq!(b.dialogue_cache.len(), 0);
    s.put_back(2, b);
    let a2 = s.take_or_create(1);
    assert_eq!(a2.dialogue_cache.len(), 1);
    assert_eq!(a2.dialogue_cache.messages[0].user_request, "hello");
    assert_eq!(s.chats.len(), 1);
}
