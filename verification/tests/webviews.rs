use std::ptr::NonNull;
use std::sync::Arc;
use raw_window_handle::{AndroidNdkWindowHandle, HandleError, RawWindowHandle, WebWindowHandle};
use wry_android::activity::register_activity_proxy;
use wry_android::attributes::{
    CreateWebViewAttributes, InitializationScript, PlatformSpecificWebViewAttributes, Position,
    Rect, Size, WebViewAttributes,
};
use wry_android::error::{received, received_result, WebViewError};
use wry_android::host::Host;
use wry_android::inner_webview::{check_window, InnerWebView};
use wry_android::main_pipe::{Finished, MainPipe};
use wry_android::message::{Outgoing, WebViewMessage};
use wry_android::registries::Registries;
use wry_android::registry::Registry;
use wry_android::request::{
    effective_uri, prepare_response, CUSTOM_PROTOCOL_TIMEOUT_SECS, MAIN_PIPE_TIMEOUT_SECS,
};
use wry_android::run::Outcome;
use wry_android::setup::{android_setup, begin_setup, dispatch, platform_webview_version, JniHandle};
use wry_android::wake::{wake, WakeAction, WakeEvent, WAKE_SIZE};

struct Numbers;

impl Host for Numbers {
    type Object = u32;
    type JavaVm = u32;
    type EvalCallback = u32;
    type Job = u32;
    type CreatedHook = u32;
    type VersionReply = u32;
    type UrlReply = u32;
    type CookiesReply = u32;
    type IpcHandler = u32;
    type TitleHandler = u32;
    type NavigationHandler = u32;
    type PageLoadHandler = u32;
    type ProtocolHandler = u32;
}

fn android() -> RawWindowHandle {
    RawWindowHandle::AndroidNdk(AndroidNdkWindowHandle::new(NonNull::dangling()))
}

fn registries() -> Registries<Numbers> {
    let mut registries: Registries<Numbers> = Registries::new(1, 1);
    register_activity_proxy(
        &mut registries.activities,
        0,
        7,
        Arc::new(10),
        Arc::new(11),
        Arc::new(12),
    );
    registries
}

fn asked(id: Option<&str>, url: Option<&str>) -> WebViewAttributes<Numbers> {
    let mut custom_protocols = Registry::new();
    custom_protocols.insert("wry".to_string(), 70);
    custom_protocols.insert("other".to_string(), 71);
    WebViewAttributes {
        id: id.map(|id| id.to_string()),
        url: url.map(|url| url.to_string()),
        html: Some("<p>".to_string()),
        initialization_scripts: Arc::new(vec![InitializationScript { script: "s".to_string() }]),
        ipc_handler: Some(20),
        devtools: Some(true),
        custom_protocols,
        background_color: Some((1, 2, 3, 4)),
        transparent: true,
        headers: None,
        autoplay: true,
        user_agent: Some("agent".to_string()),
        javascript_disabled: true,
        document_title_changed_handler: Some(21),
        navigation_handler: Some(22),
        on_page_load_handler: Some(23),
        bounds: Some(Rect::default()),
    }
}

fn bare(id: Option<&str>) -> WebViewAttributes<Numbers> {
    WebViewAttributes {
        ipc_handler: None,
        document_title_changed_handler: None,
        navigation_handler: None,
        on_page_load_handler: None,
        ..asked(id, None)
    }
}

fn here(https_scheme: bool) -> PlatformSpecificWebViewAttributes<Numbers> {
    PlatformSpecificWebViewAttributes {
        on_webview_created: Some(30),
        with_asset_loader: true,
        asset_loader_domain: Some("assets".to_string()),
        https_scheme,
    }
}

fn disguise(url: &str, scheme: &str, protocol: &str) -> String {
    url.replace(&format!("{protocol}://"), &format!("{scheme}://{protocol}."))
}

fn is_disguised(url: &str, scheme: &str, protocol: &str) -> bool {
    url.starts_with(&format!("{scheme}://{protocol}."))
}

fn unmask(url: &str, scheme: &str, protocol: &str) -> String {
    url.replace(&format!("{scheme}://{protocol}."), &format!("{protocol}://"))
}

fn garble(_: &str, _: &str, _: &str) -> String {
    "not a uri".to_string()
}

fn make(
    registries: &mut Registries<Numbers>,
    attributes: WebViewAttributes<Numbers>,
    https_scheme: bool,
) -> (InnerWebView, Outgoing<Numbers>) {
    match InnerWebView::new(registries, Ok(android()), attributes, here(https_scheme), disguise) {
        Ok(made) => made,
        Err(_) => panic!("no webview"),
    }
}

fn created(outgoing: Outgoing<Numbers>) -> Arc<CreateWebViewAttributes<Numbers>> {
    match outgoing.message {
        WebViewMessage::CreateWebView(attributes) => attributes,
        _ => panic!("no creation"),
    }
}

#[test]
fn only_android_windows_hold_webviews() {
    assert!(check_window(Ok(android())).is_ok());
    let web = RawWindowHandle::Web(WebWindowHandle::new(1));
    assert!(matches!(check_window(Ok(web)), Err(WebViewError::UnsupportedWindowHandle)));
    assert!(matches!(
        check_window(Err(HandleError::Unavailable)),
        Err(WebViewError::WindowHandle(HandleError::Unavailable))
    ));
}

#[test]
fn a_window_that_does_not_fit_registers_nothing() {
    let mut registries: Registries<Numbers> = Registries::new(1, 1);
    let web = RawWindowHandle::Web(WebWindowHandle::new(1));
    let made = InnerWebView::new_as_child(
        &mut registries,
        Ok(web),
        asked(None, None),
        here(true),
        disguise,
    );
    assert!(matches!(made, Err(WebViewError::UnsupportedWindowHandle)));
    assert_eq!(registries.attributes.keys(), Vec::<String>::new());
    assert_eq!(registries.webview_ids.next(), 1);
}

#[test]
fn a_new_webview_is_registered_under_its_id() {
    let mut registries = registries();
    let (webview, outgoing) = make(&mut registries, asked(Some("main"), Some("http://x")), true);
    assert_eq!(webview.id(), "main");
    assert_eq!(webview.activity_id, 7);
    assert_eq!(outgoing.activity_id, 7);
    let attributes = created(outgoing);
    assert_eq!(attributes.id, "main");
    assert_eq!(attributes.url, Some("http://x".to_string()));
    assert_eq!(attributes.html, Some("<p>".to_string()));
    assert_eq!(attributes.devtools, Some(true));
    assert!(attributes.transparent && attributes.autoplay && attributes.javascript_disabled);
    assert!(!attributes.is_child);
    assert_eq!(attributes.background_color, Some((1, 2, 3, 4)));
    assert_eq!(attributes.user_agent, Some("agent".to_string()));
    assert_eq!(attributes.on_webview_created, Some(30));
    assert_eq!(attributes.initialization_scripts[0].script, "s");
    assert_eq!(attributes.bounds, Some(Rect::default()));
    assert!(Arc::ptr_eq(registries.attributes.get("main").unwrap(), &attributes));
    assert_eq!(registries.ipc.get("main"), Some(&20));
    assert_eq!(registries.title_handlers.get("main"), Some(&21));
    assert_eq!(registries.url_loading_overrides.get("main"), Some(&22));
    assert_eq!(registries.on_load_handlers.get("main"), Some(&23));
    assert_eq!(registries.with_asset_loader.get("main"), Some(&true));
    assert_eq!(registries.asset_loader_domains.get("main"), Some(&"assets".to_string()));
    assert!(registries.request_handlers.get("main").unwrap().https_scheme);
    assert!(!registries.webviews.contains_key("main"));
}

#[test]
fn a_child_is_announced_as_a_child() {
    let mut registries = registries();
    let made = InnerWebView::new_as_child(
        &mut registries,
        Ok(android()),
        asked(None, None),
        here(true),
        disguise,
    );
    match made {
        Ok((_, outgoing)) => assert!(created(outgoing).is_child),
        Err(_) => panic!("no webview"),
    }
}

#[test]
fn a_child_differs_in_being_one() {
    let mut first = registries();
    let mut second = registries();
    let url = Some("wry://page/a");
    let (_, outgoing) = make(&mut first, asked(None, url), true);
    let one = created(outgoing);
    let other = match InnerWebView::new_as_child(
        &mut second,
        Ok(android()),
        asked(None, url),
        here(true),
        disguise,
    ) {
        Ok((_, outgoing)) => created(outgoing),
        Err(_) => panic!("no webview"),
    };
    assert!(!one.is_child && other.is_child);
    assert_eq!(one.id, other.id);
    assert_eq!(one.url, other.url);
    assert_eq!(one.html, other.html);
    assert_eq!(one.devtools, other.devtools);
    assert_eq!(one.transparent, other.transparent);
    assert_eq!(one.background_color, other.background_color);
    assert_eq!(one.headers, other.headers);
    assert_eq!(one.autoplay, other.autoplay);
    assert_eq!(one.on_webview_created, other.on_webview_created);
    assert_eq!(one.user_agent, other.user_agent);
    assert_eq!(one.initialization_scripts[0].script, other.initialization_scripts[0].script);
    assert_eq!(one.javascript_disabled, other.javascript_disabled);
    assert_eq!(one.bounds, other.bounds);
}

#[test]
fn ids_are_numbers_where_none_is_asked_for() {
    let mut registries = registries();
    assert_eq!(make(&mut registries, asked(None, None), true).0.id(), "1");
    assert_eq!(make(&mut registries, asked(Some("x"), None), true).0.id(), "x");
    assert_eq!(make(&mut registries, asked(None, None), true).0.id(), "2");
}

#[test]
fn urls_of_custom_protocols_start_in_disguise() {
    let mut registries = registries();
    let (_, outgoing) = make(&mut registries, asked(None, Some("wry://page/a")), false);
    assert_eq!(created(outgoing).url, Some("http://wry.page/a".to_string()));
    let (_, outgoing) = make(&mut registries, asked(None, Some("wry://page/a")), true);
    assert_eq!(created(outgoing).url, Some("https://wry.page/a".to_string()));
    let (_, outgoing) = make(&mut registries, asked(None, Some("ftp://page/a")), true);
    assert_eq!(created(outgoing).url, Some("ftp://page/a".to_string()));
    let (_, outgoing) = make(&mut registries, asked(None, Some("about:blank")), true);
    assert_eq!(created(outgoing).url, Some("about:blank".to_string()));
}

#[test]
fn siblings_keep_their_entries() {
    let mut registries = registries();
    make(&mut registries, asked(Some("a"), None), true);
    make(&mut registries, bare(Some("b")), true);
    assert_eq!(registries.ipc.get("a"), Some(&20));
    assert_eq!(registries.ipc.get("b"), None);
    assert!(registries.attributes.contains_key("a"));
    assert!(registries.attributes.contains_key("b"));
}

#[test]
fn a_webview_that_is_dropped_leaves_nothing() {
    let mut registries = registries();
    make(&mut registries, asked(Some("a"), None), true);
    let (webview, _) = make(&mut registries, asked(Some("b"), None), true);
    let removal: Outgoing<Numbers> = webview.removal();
    assert_eq!(removal.activity_id, 7);
    let mut pipe = MainPipe { registries };
    let task = pipe.recv(removal.activity_id, removal.message);
    assert!(matches!(pipe.finish(task), Finished::Return(Ok(()))));
    assert_eq!(pipe.registries.attributes.keys(), vec!["a"]);
    assert_eq!(pipe.registries.ipc.keys(), vec!["a"]);
    assert_eq!(pipe.registries.request_handlers.keys(), vec!["a"]);
    assert_eq!(pipe.registries.title_handlers.keys(), vec!["a"]);
    assert_eq!(pipe.registries.url_loading_overrides.keys(), vec!["a"]);
    assert_eq!(pipe.registries.on_load_handlers.keys(), vec!["a"]);
    assert_eq!(pipe.registries.with_asset_loader.keys(), vec!["a"]);
    assert_eq!(pipe.registries.asset_loader_domains.keys(), vec!["a"]);
}

#[test]
fn each_method_sends_its_message() {
    let webview = InnerWebView { id: "w".to_string(), activity_id: 3 };
    let messages: Vec<Outgoing<Numbers>> = vec![
        webview.url(1),
        webview.eval("js", Some(2)),
        webview.set_background_color((1, 2, 3, 4)),
        webview.load_url("u"),
        webview.load_url_with_headers("u", http::HeaderMap::new()),
        webview.load_html("h"),
        webview.reload(),
        webview.clear_all_browsing_data(),
        webview.cookies_for_url("u", 4),
        webview.set_bounds(Rect::default()),
        webview.set_visible(false),
        webview.removal(),
    ];
    for (i, outgoing) in messages.into_iter().enumerate() {
        assert_eq!(outgoing.activity_id, 3);
        let right = match outgoing.message {
            WebViewMessage::GetUrl(id, 1) => i == 0 && id == "w",
            WebViewMessage::Eval(id, js, Some(2)) => i == 1 && id == "w" && js == "js",
            WebViewMessage::SetBackgroundColor(id, (1, 2, 3, 4)) => i == 2 && id == "w",
            WebViewMessage::LoadUrl(id, url, None) => i == 3 && id == "w" && url == "u",
            WebViewMessage::LoadUrl(id, url, Some(_)) => i == 4 && id == "w" && url == "u",
            WebViewMessage::LoadHtml(id, html) => i == 5 && id == "w" && html == "h",
            WebViewMessage::Reload(id) => i == 6 && id == "w",
            WebViewMessage::ClearAllBrowsingData(id) => i == 7 && id == "w",
            WebViewMessage::GetCookies(id, 4, url) => i == 8 && id == "w" && url == "u",
            WebViewMessage::SetBounds(id, rect) => i == 9 && id == "w" && rect == Rect::default(),
            WebViewMessage::SetVisible(id, false) => i == 10 && id == "w",
            WebViewMessage::RemoveChildWebView(id) => i == 11 && id == "w",
            _ => false,
        };
        assert!(right);
    }
}

#[test]
fn what_is_not_done_here_is_answered_at_once() {
    let webview = InnerWebView { id: "w".to_string(), activity_id: 3 };
    let cookie = cookie::Cookie::new("a", "b");
    assert!(webview.print().is_ok());
    assert!(webview.zoom(1.5).is_ok());
    assert!(webview.set_cookie(&cookie).is_ok());
    assert!(webview.delete_cookie(&cookie).is_ok());
    assert!(matches!(webview.cookies(), Ok(cookies) if cookies.is_empty()));
    assert!(webview.focus().is_ok());
    assert!(webview.focus_parent().is_ok());
    webview.open_devtools();
    webview.close_devtools();
    assert!(!webview.is_devtools_open());
    let zero = Rect {
        position: Position::Logical { x_bits: 0, y_bits: 0 },
        size: Size::Logical { width_bits: 0, height_bits: 0 },
    };
    assert!(matches!(webview.bounds(), Ok(rect) if rect == zero));
}

#[test]
fn answers_come_through_and_a_wait_that_ends_is_an_error() {
    let late = crossbeam_channel::RecvTimeoutError::Timeout;
    assert!(matches!(received(Ok(5)), Ok(5)));
    assert!(matches!(received::<u8>(Err(late)), Err(WebViewError::Receive(e)) if e == late));
    assert!(matches!(received_result(Ok(Ok(5))), Ok(5)));
    assert!(matches!(
        received_result::<u8>(Ok(Err(WebViewError::ActivityNotFound))),
        Err(WebViewError::ActivityNotFound)
    ));
    assert!(matches!(
        received_result::<u8>(Err(late)),
        Err(WebViewError::Receive(e)) if e == late
    ));
}

#[test]
fn a_request_goes_to_the_protocol_that_claims_it() {
    let mut registries = registries();
    make(&mut registries, asked(Some("a"), None), true);
    let handler = registries.request_handlers.get("a").unwrap();
    let uri: http::Uri = "https://wry.page/a?b".parse().unwrap();
    let routed = handler.route(uri, is_disguised, unmask).unwrap();
    assert_eq!(*routed.handler, 70);
    assert_eq!(routed.initialization_scripts.len(), 1);
    assert_eq!(routed.initialization_scripts[0].script, "s");
    assert_eq!(routed.uri.to_string(), "wry://page/a?b");
    let uri: http::Uri = "https://other.page/".parse().unwrap();
    let routed = handler.route(uri, is_disguised, unmask).unwrap();
    assert_eq!(*routed.handler, 71);
    assert_eq!(routed.uri.to_string(), "other://page/");
}

#[test]
fn a_request_that_no_protocol_claims_is_not_routed() {
    let mut registries = registries();
    make(&mut registries, asked(Some("a"), None), true);
    let handler = registries.request_handlers.get("a").unwrap();
    let uri: http::Uri = "https://example.com/".parse().unwrap();
    assert!(handler.route(uri, is_disguised, unmask).is_none());
    let uri: http::Uri = "http://wry.page/".parse().unwrap();
    assert!(handler.route(uri, is_disguised, unmask).is_none());
}

#[test]
fn a_reverted_text_that_is_no_uri_leaves_the_request_as_it_is() {
    let mut registries = registries();
    make(&mut registries, asked(Some("a"), None), true);
    let handler = registries.request_handlers.get("a").unwrap();
    let uri: http::Uri = "https://wry.page/a".parse().unwrap();
    let routed = handler.route(uri.clone(), is_disguised, garble).unwrap();
    assert_eq!(routed.uri, uri);
    assert_eq!(effective_uri(uri.clone(), None), uri);
    let other: http::Uri = "wry://x/".parse().unwrap();
    assert_eq!(effective_uri(uri, Some(other.clone())), other);
}

#[test]
fn scripts_are_put_into_a_response_where_they_cannot_be_added_otherwise() {
    let scripts = vec![
        InitializationScript { script: "one".to_string() },
        InitializationScript { script: "two".to_string() },
    ];
    let inject = |response: String, scripts: &Vec<InitializationScript>| {
        scripts.iter().fold(response, |text, s| text + "+" + &s.script)
    };
    let response = || "page".to_string();
    assert_eq!(prepare_response(response(), &scripts, true, inject), "page");
    assert_eq!(prepare_response(response(), &scripts, false, inject), "page+one+two");
}

#[test]
fn custom_protocols_have_three_times_as_long() {
    assert_eq!(MAIN_PIPE_TIMEOUT_SECS, 10);
    assert_eq!(CUSTOM_PROTOCOL_TIMEOUT_SECS, 30);
}

fn set_up(registries: &mut Registries<Numbers>, id: i32) -> Vec<Outgoing<Numbers>> {
    let mut run = begin_setup(registries, "com/late");
    let outcomes = vec![
        Outcome::Number(id),
        Outcome::Done,
        Outcome::Object(Arc::new(51)),
        Outcome::Done,
        Outcome::Done,
        Outcome::Done,
        Outcome::Done,
        Outcome::Done,
        Outcome::Object(Arc::new(52)),
    ];
    for outcome in outcomes {
        run.advance(outcome);
    }
    assert!(run.current().is_none());
    android_setup(registries, 5, Arc::new(50), run)
}

#[test]
fn setting_up_creates_every_known_webview_again() {
    let mut registries = registries();
    make(&mut registries, asked(Some("a"), None), true);
    make(&mut registries, asked(Some("b"), None), true);
    let mut pipe = MainPipe { registries };
    let task = pipe.recv(
        7,
        WebViewMessage::OnDestroy {
            activity_id: 7,
            webview_id: "a".to_string(),
            is_changing_configurations: true,
        },
    );
    pipe.finish(task);
    let messages = set_up(&mut pipe.registries, 9);
    let mut ids: Vec<String> = Vec::new();
    for outgoing in messages {
        assert_eq!(outgoing.activity_id, 9);
        let attributes = created(outgoing);
        assert!(Arc::ptr_eq(pipe.registries.attributes.get(&attributes.id).unwrap(), &attributes));
        ids.push(attributes.id.clone());
    }
    ids.sort();
    assert_eq!(ids, vec!["a", "b"]);
    let proxy = pipe.registries.activities.get(&9).unwrap();
    assert_eq!(*proxy.activity, 50);
    assert_eq!(*proxy.window_manager, 51);
    assert_eq!(*proxy.webchrome_client, 52);
    assert_eq!(proxy.java_vm, 5);
    assert!(proxy.webview.is_none());
    assert!(pipe.registries.activities.contains_key(&7));
}

#[test]
fn the_first_package_stays() {
    let mut registries: Registries<Numbers> = Registries::new(1, 1);
    begin_setup(&mut registries, "com/first");
    begin_setup(&mut registries, "com/second");
    assert_eq!(registries.package, Some("com/first".to_string()));
}

#[test]
fn the_version_is_asked_of_the_first_activity() {
    let mut registries: Registries<Numbers> = Registries::new(1, 1);
    assert!(matches!(platform_webview_version(&registries.activities, 6), Err(6)));
    set_up(&mut registries, 4);
    set_up(&mut registries, -4);
    match platform_webview_version(&registries.activities, 6) {
        Ok(outgoing) => {
            assert_eq!(outgoing.activity_id, -4);
            assert!(matches!(outgoing.message, WebViewMessage::GetWebViewVersion(6)));
        }
        Err(_) => panic!("nobody to ask"),
    }
}

#[test]
fn code_is_dispatched_without_an_id() {
    let registries = registries();
    let outgoing: Outgoing<Numbers> = dispatch(&registries.activities, 8);
    assert_eq!(outgoing.activity_id, 7);
    assert!(matches!(outgoing.message, WebViewMessage::Jni(None, 8)));
    let outgoing: Outgoing<Numbers> = JniHandle { activity_id: 2 }.exec(8);
    assert_eq!(outgoing.activity_id, 2);
    assert!(matches!(outgoing.message, WebViewMessage::Jni(None, 8)));
}

#[test]
fn only_a_message_that_fails_ends_the_waking() {
    assert_eq!(WAKE_SIZE, 1);
    assert_eq!(wake(WakeEvent::Read(1)), WakeAction::Attach);
    assert_eq!(wake(WakeEvent::Read(0)), WakeAction::Keep);
    assert_eq!(wake(WakeEvent::Read(-1)), WakeAction::Keep);
    assert_eq!(wake(WakeEvent::Attached(true)), WakeAction::Handle);
    assert_eq!(wake(WakeEvent::Attached(false)), WakeAction::Keep);
    assert_eq!(wake(WakeEvent::Handled(true)), WakeAction::Keep);
    assert_eq!(wake(WakeEvent::Handled(false)), WakeAction::Unregister);
}
