use std::collections::BTreeMap;
use std::sync::Arc;
use wry_android::activity::{
    activity_id_for_window_manager, activity_ids, activity_proxy, first_activity_id,
    forget_webview, get_webview,
    register_activity_proxy, remove_activity_proxy, replace_webview, Activities, ActivityProxy,
};
use wry_android::host::Host;
use wry_android::registry::Registry;

struct Numbers;

impl Host for Numbers {
    type Object = u32;
    type JavaVm = u32;
    type EvalCallback = u32;
    type Job = u32;
    type CreatedHook = u32;
    type VersionReply = u32;
    type UrlReply = u32;
    type CookiesReply = u32;
    type IpcHandler = u32;
    type TitleHandler = u32;
    type NavigationHandler = u32;
    type PageLoadHandler = u32;
    type ProtocolHandler = u32;
}

fn register(activities: &mut Activities<Numbers>, id: i32, first: u32) {
    register_activity_proxy(
        activities,
        first,
        id,
        Arc::new(first + 1),
        Arc::new(first + 2),
        Arc::new(first + 3),
    );
}

#[test]
fn registry_keeps_one_value_for_each_key() {
    let mut table: Registry<u32> = Registry::new();
    assert_eq!(table.get("a"), None);
    assert_eq!(table.any(), None);
    table.insert("a".to_string(), 1);
    table.insert("b".to_string(), 2);
    table.insert("a".to_string(), 3);
    assert_eq!(table.get("a"), Some(&3));
    assert_eq!(table.get("b"), Some(&2));
    assert!(table.contains_key("b"));
    assert!(!table.contains_key("c"));
    let mut keys = table.keys();
    keys.sort();
    assert_eq!(keys, vec!["a", "b"]);
    table.remove("a");
    table.remove("c");
    assert_eq!(table.get("a"), None);
    assert_eq!(table.any(), Some(&2));
    table.remove("b");
    assert_eq!(table.any(), None);
    assert_eq!(table.keys(), Vec::<String>::new());
}

#[test]
fn first_activity_has_the_smallest_id() {
    let mut activities: Activities<Numbers> = BTreeMap::new();
    assert_eq!(first_activity_id(&activities), None);
    register(&mut activities, 5, 10);
    register(&mut activities, -3, 20);
    register(&mut activities, 9, 30);
    assert_eq!(first_activity_id(&activities), Some(-3));
    assert_eq!(activity_ids(&activities), vec![-3, 5, 9]);
    remove_activity_proxy(&mut activities, -3);
    assert_eq!(first_activity_id(&activities), Some(5));
}

#[test]
fn an_activity_registered_again_keeps_its_webview() {
    let mut activities: Activities<Numbers> = BTreeMap::new();
    register(&mut activities, 5, 10);
    register(&mut activities, 6, 40);
    assert_eq!(get_webview(&activities, 5), None);
    replace_webview(&mut activities, 5, "w".to_string(), Arc::new(77));
    register(&mut activities, 5, 20);
    let proxy = activity_proxy(&activities, 5).unwrap();
    assert_eq!(*proxy.activity, 21);
    assert_eq!(*proxy.window_manager, 22);
    assert_eq!(*proxy.webchrome_client, 23);
    assert_eq!(proxy.java_vm, 20);
    assert_eq!(proxy.webview_id, Some("w".to_string()));
    assert_eq!(get_webview(&activities, 5), Some(Arc::new(77)));
    assert_eq!(*activity_proxy(&activities, 6).unwrap().activity, 41);
}

#[test]
fn a_webview_for_an_activity_that_is_gone_is_not_kept() {
    let mut activities: Activities<Numbers> = BTreeMap::new();
    register(&mut activities, 5, 10);
    replace_webview(&mut activities, 6, "w".to_string(), Arc::new(77));
    assert_eq!(get_webview(&activities, 5), None);
    assert_eq!(get_webview(&activities, 6), None);
    assert!(activity_proxy(&activities, 6).is_none());
}

#[test]
fn the_window_manager_finds_the_first_activity_that_says_yes() {
    let mut activities: Activities<Numbers> = BTreeMap::new();
    register(&mut activities, 1, 10);
    register(&mut activities, 2, 20);
    register(&mut activities, 3, 30);
    let later = |proxy: &ActivityProxy<Numbers>| Some(*proxy.window_manager > 15);
    assert_eq!(activity_id_for_window_manager(&activities, later), Some(2));
    let unanswered = |_: &ActivityProxy<Numbers>| None;
    assert_eq!(activity_id_for_window_manager(&activities, unanswered), None);
    let no = |_: &ActivityProxy<Numbers>| Some(false);
    assert_eq!(activity_id_for_window_manager(&activities, no), None);
}

#[test]
fn a_webview_is_forgotten_by_every_activity_that_remembers_it() {
    let mut activities: Activities<Numbers> = BTreeMap::new();
    register(&mut activities, 1, 10);
    register(&mut activities, 2, 20);
    register(&mut activities, 3, 30);
    register(&mut activities, 4, 40);
    replace_webview(&mut activities, 1, "a".to_string(), Arc::new(71));
    replace_webview(&mut activities, 2, "b".to_string(), Arc::new(72));
    replace_webview(&mut activities, 3, "a".to_string(), Arc::new(73));
    forget_webview(&mut activities, "a");
    assert_eq!(activity_ids(&activities), vec![1, 2, 3, 4]);
    assert_eq!(get_webview(&activities, 1), None);
    assert_eq!(get_webview(&activities, 2), Some(Arc::new(72)));
    assert_eq!(get_webview(&activities, 3), None);
    assert_eq!(get_webview(&activities, 4), None);
    let proxy = activity_proxy(&activities, 1).unwrap();
    assert_eq!(proxy.webview_id, None);
    assert_eq!(*proxy.activity, 11);
    assert_eq!(*proxy.window_manager, 12);
    assert_eq!(*proxy.webchrome_client, 13);
}
