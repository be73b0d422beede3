use llm_enhancer::parser::{
    add_user_profile, add_viewpoints, apply_user_profile, apply_viewpoints, string_items,
    update_request_structure, FieldUpdate, RequestStructure,
};

#[test]
fn new_structure_is_empty() {
    let r = RequestStructure::new();
    assert_eq!(r.request, "");
    assert!(r.cache.is_empty());
    assert_eq!(r.context, "");
    assert!(r.viewpoints.is_empty());
    assert_eq!(r.user_profile.expertise_lvl, "");
    assert_eq!(r.user_profile.communication_style, "");
}

#[test]
fn update_sets_only_named_field() {
    let mut r = RequestStructure::new();
    update_request_structure(&mut r, FieldUpdate::Request("q".to_string()));
    update_request_structure(&mut r, FieldUpdate::Context("ctx".to_string()));
    update_request_structure(&mut r, FieldUpdate::Cache(vec!["c".to_string()]));
    update_request_structure(&mut r, FieldUpdate::Viewpoints(vec!["v".to_string()]));
    update_request_structure(&mut r, FieldUpdate::ExpertiseLvl("e".to_string()));
    update_request_structure(&mut r, FieldUpdate::CommunicationStyle("s".to_string()));
    assert_eq!(r.request, "q");
    assert_eq!(r.context, "ctx");
    assert_eq!(r.cache, vec!["c"]);
    assert_eq!(r.viewpoints, vec!["v"]);
    assert_eq!(r.user_profile.expertise_lvl, "e");
    assert_eq!(r.user_profile.communication_style, "s");
}

#[test]
fn string_items_drops_missing() {
    let items = vec![Some("a".to_string()), None, Some("b".to_string())];
    assert_eq!(string_items(items), vec!["a", "b"]);
    assert!(string_items(vec![]).is_empty());
}

#[test]
fn viewpoints_keep_only_strings() {
    let mut r = RequestStructure::new();
    add_viewpoints(&mut r, r#"{"viewpoints": ["x", 1, "y", null]}"#);
    assert_eq!(r.viewpoints, vec!["x", "y"]);
}

#[test]
fn malformed_viewpoints_leave_field_unchanged() {
    let mut r = RequestStructure::new();
    add_viewpoints(&mut r, "not json at all");
    assert!(r.viewpoints.is_empty());
    update_request_structure(&mut r, FieldUpdate::Viewpoints(vec!["kept".to_string()]));
    add_viewpoints(&mut r, r#"{"viewpoints": "#);
    assert_eq!(r.viewpoints, vec!["kept"]);
    add_viewpoints(&mut r, r#"{"viewpoints": "single"}"#);
    assert_eq!(r.viewpoints, vec!["kept"]);
    add_viewpoints(&mut r, r#"{"other": []}"#);
    assert_eq!(r.viewpoints, vec!["kept"]);
}

#[test]
fn malformed_profile_leaves_fields_unchanged() {
    let mut r = RequestStructure::new();
    add_user_profile(&mut r, "{broken");
    assert_eq!(r.user_profile.expertise_lvl, "");
    assert_eq!(r.user_profile.communication_style, "");
}

#[test]
fn profile_with_only_style_keeps_expertise() {
    let mut r = RequestStructure::new();
    update_request_structure(&mut r, FieldUpdate::ExpertiseLvl("expert".to_string()));
    add_user_profile(&mut r, r#"{"communication_style": "formal"}"#);
    assert_eq!(r.user_profile.expertise_lvl, "expert");
    assert_eq!(r.user_profile.communication_style, "formal");
}

#[test]
fn profile_with_both_fields() {
    let mut r = RequestStructure::new();
    add_user_profile(&mut r, r#"{"expertise_lvl": "novice", "communication_style": "casual"}"#);
    assert_eq!(r.user_profile.expertise_lvl, "novice");
    assert_eq!(r.user_profile.communication_style, "casual");
}

#[test]
fn profile_field_that_is_not_a_string_is_ignored() {
    let mut r = RequestStructure::new();
    add_user_profile(&mut r, r#"{"expertise_lvl": 3, "communication_style": "brief"}"#);
    assert_eq!(r.user_profile.expertise_lvl, "");
    assert_eq!(r.user_profile.communication_style, "brief");
}

#[test]
fn apply_functions_take_read_values() {
    let mut r = RequestStructure::new();
    apply_viewpoints(&mut r, Some(vec![None, Some("p".to_string())]));
    assert_eq!(r.viewpoints, vec!["p"]);
    apply_viewpoints(&mut r, None);
    assert_eq!(r.viewpoints, vec!["p"]);
    apply_user_profile(&mut r, None, Some("terse".to_string()));
    assert_eq!(r.user_profile.expertise_lvl, "");
    assert_eq!(r.user_profile.communication_style, "terse");
}
