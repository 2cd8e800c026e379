use mightybadger::context::ContextStore;
use mightybadger::payload::RequestInfo;

fn info(url: &str) -> RequestInfo {
    let mut r = RequestInfo::empty();
    r.url = url.to_string();
    r
}

#[test]
fn get_is_empty_initially() {
    let store = ContextStore::new();
    assert!(store.get().is_none());
}

#[test]
fn default_binding_set_and_unset() {
    let mut store = ContextStore::new();
    store.set(info("http://a"));
    assert_eq!(store.get().unwrap().url, "http://a");
    store.unset();
    assert!(store.get().is_none());
}

#[test]
fn scoped_binding_visible_inside_with_and_gone_after() {
    let mut store = ContextStore::new();
    store.set(info("http://default"));
    let seen = store.with(info("http://scoped"), |s: &ContextStore| {
        s.get().unwrap().url
    });
    assert_eq!(seen, "http://scoped");
    assert_eq!(store.get().unwrap().url, "http://default");
}

#[test]
fn scoped_binding_wins_over_default() {
    let mut store = ContextStore::new();
    store.set(info("http://default"));
    store.push_scope(info("http://scoped"));
    assert_eq!(store.get().unwrap().url, "http://scoped");
    store.pop_scope();
    assert_eq!(store.get().unwrap().url, "http://default");
}

#[test]
fn scoped_bindings_nest() {
    let mut store = ContextStore::new();
    store.push_scope(info("http://outer"));
    let seen = store.with(info("http://inner"), |s: &ContextStore| {
        s.get().unwrap().url
    });
    assert_eq!(seen, "http://inner");
    assert_eq!(store.get().unwrap().url, "http://outer");
}
