use google_apis::params::{find, push_all, push_one, push_some, Params};
use google_apis::scopes::ScopeSet;

fn pair(name: &str, value: &str) -> (String, String) {
    (name.to_string(), value.to_string())
}

#[test]
fn new_params_are_empty() {
    let p = Params::new();
    assert_eq!(p.len(), 0);
    assert!(!p.contains_key("alt"));
    assert!(p.pairs().is_empty());
}

#[test]
fn params_keep_the_order_in_which_names_came() {
    let p = Params::new().insert("key", "k").insert("fields", "f").insert("quotaUser", "q");
    assert_eq!(p.len(), 3);
    assert_eq!(p.pairs(), &vec![pair("key", "k"), pair("fields", "f"), pair("quotaUser", "q")]);
    assert!(p.contains_key("fields"));
    assert!(!p.contains_key("Fields"));
    p.well_formed();
}

#[test]
fn a_second_value_replaces_the_first_in_place() {
    let p = Params::new().insert("key", "k").insert("fields", "f").insert("key", "other");
    assert_eq!(p.len(), 2);
    assert_eq!(p.pairs(), &vec![pair("key", "other"), pair("fields", "f")]);
}

#[test]
fn find_gives_the_first_of_several() {
    let list = vec![pair("a", "1"), pair("b", "2"), pair("a", "3")];
    assert_eq!(find(&list, "a"), Some(0));
    assert_eq!(find(&list, "b"), Some(1));
    assert_eq!(find(&list, "c"), None);
    assert_eq!(find(&Vec::new(), "a"), None);
}

#[test]
fn pushing_present_and_absent_parameters() {
    let mut list = Vec::new();
    push_one(&mut list, "jobId", "j".to_string());
    push_some(&mut list, "pageToken", None);
    push_some(&mut list, "pageSize", Some("10".to_string()));
    assert_eq!(list, vec![pair("jobId", "j"), pair("pageSize", "10")]);
}

#[test]
fn pushing_a_list_behind_another() {
    let mut list = vec![pair("a", "1")];
    push_all(&mut list, vec![pair("b", "2"), pair("a", "3")]);
    assert_eq!(list, vec![pair("a", "1"), pair("b", "2"), pair("a", "3")]);
    push_all(&mut list, Vec::new());
    assert_eq!(list.len(), 3);
}

#[test]
fn scopes_come_in_dictionary_order_without_repetition() {
    let s = ScopeSet::new();
    assert_eq!(s.len(), 0);
    let s = s.insert("https://b").insert("https://a").insert("https://c").insert("https://a");
    assert_eq!(s.len(), 3);
    assert_eq!(
        s.names(),
        &vec!["https://a".to_string(), "https://b".to_string(), "https://c".to_string()]
    );
    assert!(s.contains("https://b"));
    assert!(!s.contains("https://d"));
}

#[test]
fn a_prefix_comes_before_the_longer_scope() {
    let s = ScopeSet::new().insert("scope.readonly").insert("scope");
    assert_eq!(s.names(), &vec!["scope".to_string(), "scope.readonly".to_string()]);
}

#[test]
fn scopes_order_upper_case_before_lower_case() {
    let s = ScopeSet::new().insert("b").insert("B").insert("a");
    assert_eq!(s.names(), &vec!["B".to_string(), "a".to_string(), "b".to_string()]);
}
