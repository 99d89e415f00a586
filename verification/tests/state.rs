use auth_pipeline::state::State;
use http::Uri;

#[test]
fn state() {
    let mut state = State::default();

    state.set_all(&[("Login", "true")]);

    if let Some(value) = state.get_state("Login") {
        assert_eq!(value, "true");
    }
}

#[test]
fn lib_state() {
    let mut state = State::default();

    state.set_all(&[("Login", "true")]);

    if let Some(value) = state.get_state("Login") {
        assert_eq!(value, "true");
    }
    assert_eq!(state.get_state("Login"), Some("true"));
}

#[test]
fn from_uri() {
    let url = "http://localhost:3000".parse::<Uri>().unwrap();

    let mut state = State::from(&url);
    state.set_state("is_created", "true");

    if let Some(value) = state.get_state("is_crated") {
        assert_eq!(value, "true");
    }
}

#[test]
fn lib_from_uri() {
    let url = "http://localhost:3000".parse::<Uri>().unwrap();

    let mut state = State::from(&url);
    state.set_state("is_created", "true");

    if let Some(value) = state.get_state("is_crated") {
        assert_eq!(value, "true");
    }
    assert_eq!(state.get_state("is_crated"), None);
    assert_eq!(state.get_state("is_created"), Some("true"));
    assert_eq!(state.redirect_url, url);
    assert!(!state.allow_refresh);
    assert!(!state.is_persistent);
}

#[test]
fn default_state_is_blank() {
    let state = State::default();
    assert!(!state.allow_refresh);
    assert!(!state.is_persistent);
    assert_eq!(state.get_state("anything"), None);
    assert_eq!(state.get_state(""), None);
}

#[test]
fn set_then_get_returns_the_value() {
    let mut state = State::default();
    state.set_state("k", "v");
    assert_eq!(state.get_state("k"), Some("v"));
    assert_eq!(state.get_state("K"), None);
}

#[test]
fn set_replaces_an_earlier_value() {
    let mut state = State::default();
    state.set_state("k", "one").set_state("other", "x").set_state("k", "two");
    assert_eq!(state.get_state("k"), Some("two"));
    assert_eq!(state.get_state("other"), Some("x"));
}

#[test]
fn set_all_keeps_the_later_of_two_pairs() {
    let mut state = State::default();
    state.set_all(&[("a", "1"), ("b", "2"), ("a", "3")]);
    assert_eq!(state.get_state("a"), Some("3"));
    assert_eq!(state.get_state("b"), Some("2"));
}

#[test]
fn set_all_of_nothing_changes_nothing() {
    let mut state = State::default();
    state.set_state("a", "1");
    state.set_all(&[]);
    assert_eq!(state.get_state("a"), Some("1"));
}

#[test]
fn empty_key_and_value_are_stored() {
    let mut state = State::default();
    state.set_state("", "");
    assert_eq!(state.get_state(""), Some(""));
}

#[test]
fn keys_are_compared_by_their_whole_text() {
    let mut state = State::default();
    state.set_state("login", "a").set_state("login2", "b").set_state("logi", "c");
    assert_eq!(state.get_state("login"), Some("a"));
    assert_eq!(state.get_state("login2"), Some("b"));
    assert_eq!(state.get_state("logi"), Some("c"));
    state.set_state("ключ", "значение");
    assert_eq!(state.get_state("ключ"), Some("значение"));
}

#[test]
fn a_clone_does_not_share_with_its_template() {
    let mut template = State::default();
    template.allow_refresh = true;
    template.set_state("shared", "yes");

    let mut copy = template.clone();
    copy.set_state("k", "v");
    copy.set_state("shared", "no");
    copy.is_persistent = true;

    assert_eq!(copy.get_state("k"), Some("v"));
    assert_eq!(copy.get_state("shared"), Some("no"));
    assert!(copy.allow_refresh);

    assert_eq!(template.get_state("k"), None);
    assert_eq!(template.get_state("shared"), Some("yes"));
    assert!(template.allow_refresh);
    assert!(!template.is_persistent);
}

#[test]
fn set_url_replaces_the_redirect_target_only() {
    let first = "http://localhost:3000".parse::<Uri>().unwrap();
    let second = "https://example.com/login?next=1".parse::<Uri>().unwrap();
    let mut state = State::from(&first);
    state.allow_refresh = true;
    state.set_state("a", "1");
    state.set_url(second.clone()).set_state("b", "2");
    assert_eq!(state.redirect_url, second);
    assert!(state.allow_refresh);
    assert_eq!(state.get_state("a"), Some("1"));
    assert_eq!(state.get_state("b"), Some("2"));
    let copy = state.clone();
    assert_eq!(copy.redirect_url, second);
}
