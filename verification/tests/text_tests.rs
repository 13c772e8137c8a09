use chat_relay::text::{is_mentioned, normalize_prompt, should_handle, strip_all, trim_text, Entity};

fn mention(text: &str) -> Entity {
    Entity { is_mention: true, text: text.to_string() }
}

fn plain(text: &str) -> Entity {
    Entity { is_mention: false, text: text.to_string() }
}

#[test]
fn normalize_removes_leading_mention() {
    assert_eq!(normalize_prompt("@bot hello", "bot"), "hello");
}

#[test]
fn normalize_removes_every_mention() {
    assert_eq!(normalize_prompt("@bot ask @bot this", "bot"), "ask  this");
}

#[test]
fn normalize_trims_whitespace() {
    assert_eq!(normalize_prompt("  hi there\n", "bot"), "hi there");
}

#[test]
fn normalize_leaves_plain_text_alone() {
    assert_eq!(normalize_prompt("just a question", "bot"), "just a question");
}

#[test]
fn normalize_all_mention_becomes_empty() {
    assert_eq!(normalize_prompt(" @bot ", "bot"), "");
}

#[test]
fn strip_all_is_leftmost_non_overlapping() {
    assert_eq!(strip_all("aaa", "aa"), "a");
}

#[test]
fn strip_all_without_occurrence_is_identity() {
    assert_eq!(strip_all("abc", "xyz"), "abc");
}

#[test]
fn trim_removes_unicode_whitespace() {
    assert_eq!(trim_text("\u{a0}hi\u{3000}\t"), "hi");
}

#[test]
fn trim_of_inner_whitespace_keeps_it() {
    assert_eq!(trim_text(" a b "), "a b");
}

#[test]
fn mentioned_when_entity_matches() {
    let ents = vec![plain("@bot"), mention("@bot")];
    assert!(is_mentioned(&ents, "bot"));
}

#[test]
fn not_mentioned_when_only_other_users() {
    let ents = vec![mention("@other"), plain("hello")];
    assert!(!is_mentioned(&ents, "bot"));
}

#[test]
fn handles_private_chat_always() {
    let ents: Vec<Entity> = Vec::new();
    assert!(should_handle(true, &ents, "bot", None, 1));
}

#[test]
fn handles_reply_to_bot() {
    let ents: Vec<Entity> = Vec::new();
    assert!(should_handle(false, &ents, "bot", Some(77), 77));
}

#[test]
fn ignores_unrelated_group_message() {
    let ents = vec![mention("@other")];
    assert!(!should_handle(false, &ents, "bot", Some(5), 77));
}
