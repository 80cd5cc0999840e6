use http::{HeaderMap, HeaderValue};
use std::sync::Arc;
use wry_android::action::{Arg, JniAction, OnError, Slot};
use wry_android::activity::{get_webview, register_activity_proxy, remove_activity_proxy};
use wry_android::attributes::{CreateWebViewAttributes, InitializationScript, Position, Rect, Size};
use wry_android::error::WebViewError;
use wry_android::host::Host;
use wry_android::java::{AppClass, JavaMethod};
use wry_android::main_pipe::{Finished, MainPipe, Task};
use wry_android::message::WebViewMessage;
use wry_android::registries::{any_webview, register_webview, webview_by_id, Registries};
use wry_android::run::Outcome;

struct Numbers;

impl Host for Numbers {
    type Object = u32;
    type JavaVm = u32;
    type EvalCallback = u32;
    type Job = u32;
    type CreatedHook = u32;
    type VersionReply = u32;
    type UrlReply = u32;
    type CookiesReply = u32;
    type IpcHandler = u32;
    type TitleHandler = u32;
    type NavigationHandler = u32;
    type PageLoadHandler = u32;
    type ProtocolHandler = u32;
}

type Action = JniAction<String, Vec<Arg>>;

/// An activity under 1, and webviews under `a` and `b`.
fn pipe() -> MainPipe<Numbers> {
    let mut registries: Registries<Numbers> = Registries::new(1, 1);
    registries.package = Some("com/app".to_string());
    register_activity_proxy(
        &mut registries.activities,
        0,
        1,
        Arc::new(10),
        Arc::new(11),
        Arc::new(12),
    );
    register_webview(&mut registries, "a".to_string(), Arc::new(100));
    register_webview(&mut registries, "b".to_string(), Arc::new(200));
    for id in ["a", "b"] {
        registries.attributes.insert(id.to_string(), attributes(id));
        registries.with_asset_loader.insert(id.to_string(), true);
        registries.ipc.insert(id.to_string(), 1);
        registries.title_handlers.insert(id.to_string(), 2);
        registries.url_loading_overrides.insert(id.to_string(), 3);
        registries.on_load_handlers.insert(id.to_string(), 4);
        registries.asset_loader_domains.insert(id.to_string(), "domain".to_string());
    }
    MainPipe { registries }
}

fn plain(id: &str) -> CreateWebViewAttributes<Numbers> {
    CreateWebViewAttributes {
        id: id.to_string(),
        url: None,
        html: None,
        devtools: None,
        transparent: false,
        background_color: None,
        headers: None,
        autoplay: false,
        on_webview_created: None,
        user_agent: None,
        initialization_scripts: Arc::new(Vec::new()),
        javascript_disabled: false,
        is_child: false,
        bounds: None,
    }
}

fn attributes(id: &str) -> Arc<CreateWebViewAttributes<Numbers>> {
    Arc::new(plain(id))
}

/// What the Java side gives when nothing fails.
fn well(action: &Action) -> Outcome<Numbers> {
    match action {
        JniAction::ReadText { .. } => Outcome::Text("k=v; w=x".to_string()),
        JniAction::CallInt { .. } => Outcome::Number(7),
        JniAction::NewGlobalRef { .. } => Outcome::Object(Arc::new(999)),
        _ => Outcome::Done,
    }
}

fn failed() -> Outcome<Numbers> {
    Outcome::Failed(jni::errors::Error::JavaException)
}

/// Performs all steps; those that `fails` picks out fail. Gives the actions that were tried.
fn perform(task: &mut Task<Numbers>, fails: fn(&Action) -> bool) -> Vec<String> {
    let mut tried = Vec::new();
    loop {
        let outcome = match task.run.current() {
            Some(step) => {
                tried.push(format!("{:?}", step.action));
                if fails(&step.action) {
                    failed()
                } else {
                    well(&step.action)
                }
            }
            None => return tried,
        };
        task.run.advance(outcome);
    }
}

fn never(_: &Action) -> bool {
    false
}

fn always(_: &Action) -> bool {
    true
}

fn calls(action: &Action, wanted: JavaMethod) -> bool {
    match action {
        JniAction::CallObject { method, .. } => *method == wanted,
        JniAction::CallVoid { method, .. } => *method == wanted,
        JniAction::CallStaticVoid { method, .. } => *method == wanted,
        JniAction::CallInt { method, .. } => *method == wanted,
        _ => false,
    }
}

fn is_fine(finished: Finished<Numbers>) -> bool {
    matches!(finished, Finished::Return(Ok(())))
}

fn is_failure(finished: Finished<Numbers>) -> bool {
    matches!(finished, Finished::Return(Err(jni::errors::Error::JavaException)))
}

#[test]
fn reload_is_one_call_on_the_webview_of_the_id() {
    let mut pipe = pipe();
    let mut task = pipe.recv(1, WebViewMessage::Reload("b".to_string()));
    assert_eq!(task.webview, Some(Arc::new(200)));
    let step = task.run.current().unwrap();
    assert_eq!(
        step.action,
        JniAction::CallVoid {
            target: Slot::WebView,
            method: JavaMethod::Reload,
            arguments: vec![],
        }
    );
    assert_eq!(step.on_error, OnError::Return);
    assert_eq!(perform(&mut task, never).len(), 1);
    assert!(is_fine(pipe.finish(task)));
}

#[test]
fn a_call_that_must_not_fail_reports_its_error() {
    let mut pipe = pipe();
    let mut task = pipe.recv(1, WebViewMessage::Reload("b".to_string()));
    perform(&mut task, always);
    assert!(is_failure(pipe.finish(task)));
}

#[test]
fn messages_for_an_unknown_webview_do_nothing() {
    let unknown = || "nobody".to_string();
    let messages: Vec<WebViewMessage<Numbers>> = vec![
        WebViewMessage::Eval(unknown(), "1".to_string(), Some(1)),
        WebViewMessage::SetBackgroundColor(unknown(), (1, 2, 3, 4)),
        WebViewMessage::GetUrl(unknown(), 5),
        WebViewMessage::GetCookies(unknown(), 5, "u".to_string()),
        WebViewMessage::LoadUrl(unknown(), "u".to_string(), None),
        WebViewMessage::LoadHtml(unknown(), "h".to_string()),
        WebViewMessage::Reload(unknown()),
        WebViewMessage::ClearAllBrowsingData(unknown()),
        WebViewMessage::SetBounds(unknown(), Rect::default()),
        WebViewMessage::SetVisible(unknown(), true),
    ];
    for message in messages {
        let mut pipe = pipe();
        let task = pipe.recv(1, message);
        assert!(task.run.current().is_none());
        assert!(task.webview.is_none());
        assert!(is_fine(pipe.finish(task)));
        assert!(pipe.registries.eval_callbacks.is_empty());
        assert_eq!(webview_by_id(&pipe.registries, "a"), Some(Arc::new(100)));
        assert_eq!(webview_by_id(&pipe.registries, "b"), Some(Arc::new(200)));
    }
}

#[test]
fn each_script_gets_a_number_of_its_own() {
    let mut pipe = pipe();
    let first = pipe.recv(1, WebViewMessage::Eval("a".to_string(), "x()".to_string(), Some(41)));
    let second = pipe.recv(1, WebViewMessage::Eval("b".to_string(), "y()".to_string(), None));
    let step = first.run.current().unwrap();
    assert_eq!(step.action, JniAction::NewString { text: "x()".to_string(), into: Slot::Text });
    assert_eq!(pipe.registries.eval_callbacks.get(&1), Some(&Some(41)));
    assert_eq!(pipe.registries.eval_callbacks.get(&2), Some(&None));
    let mut second = second;
    second.run.advance(Outcome::Done);
    assert_eq!(
        second.run.current().unwrap().action,
        JniAction::CallVoid {
            target: Slot::WebView,
            method: JavaMethod::EvalScript,
            arguments: vec![Arg::Int(2), Arg::Object(Slot::Text)],
        }
    );
}

#[test]
fn the_taker_of_a_script_stays_where_the_script_fails() {
    let mut pipe = pipe();
    let mut task = pipe.recv(1, WebViewMessage::Eval("a".to_string(), "x".to_string(), Some(41)));
    assert_eq!(perform(&mut task, always).len(), 1);
    assert!(is_failure(pipe.finish(task)));
    assert_eq!(pipe.registries.eval_callbacks.get(&1), Some(&Some(41)));
}

#[test]
fn the_background_colour_is_sent_packed() {
    let mut pipe = pipe();
    let task = pipe.recv(1, WebViewMessage::SetBackgroundColor("a".to_string(), (1, 2, 3, 4)));
    assert_eq!(
        task.run.current().unwrap().action,
        JniAction::CallVoid {
            target: Slot::WebView,
            method: JavaMethod::SetBackgroundColor,
            arguments: vec![Arg::Int(0x04010203)],
        }
    );
}

#[test]
fn the_version_is_read_from_the_activity() {
    let mut pipe = pipe();
    let mut task = pipe.recv(1, WebViewMessage::GetWebViewVersion(9));
    assert_eq!(task.activity, Some(Arc::new(10)));
    assert_eq!(perform(&mut task, never).len(), 2);
    match pipe.finish(task) {
        Finished::Version(9, Ok(text)) => assert_eq!(text, "k=v; w=x"),
        _ => panic!("no version"),
    }
}

#[test]
fn a_version_that_cannot_be_read_is_answered_with_the_error() {
    let mut pipe = pipe();
    let mut task = pipe.recv(1, WebViewMessage::GetWebViewVersion(9));
    assert_eq!(perform(&mut task, always).len(), 1);
    assert!(matches!(
        pipe.finish(task),
        Finished::Version(9, Err(WebViewError::Jni(jni::errors::Error::JavaException)))
    ));
}

#[test]
fn a_version_without_an_activity_is_answered_with_its_own_error() {
    let mut pipe = pipe();
    let task = pipe.recv(2, WebViewMessage::GetWebViewVersion(9));
    assert!(task.run.current().is_none());
    assert!(matches!(
        pipe.finish(task),
        Finished::Version(9, Err(WebViewError::ActivityNotFound))
    ));
}

#[test]
fn the_url_is_answered_whatever_happens() {
    let mut pipe = pipe();
    let mut task = pipe.recv(1, WebViewMessage::GetUrl("a".to_string(), 9));
    perform(&mut task, never);
    assert!(matches!(pipe.finish(task), Finished::Url(9, text) if text == "k=v; w=x"));
    let mut task = pipe.recv(1, WebViewMessage::GetUrl("a".to_string(), 9));
    perform(&mut task, always);
    assert!(matches!(pipe.finish(task), Finished::Url(9, text) if text.is_empty()));
    let mut task = pipe.recv(1, WebViewMessage::GetUrl("a".to_string(), 9));
    let unreadable = |action: &Action| matches!(action, JniAction::ReadText { .. });
    assert_eq!(perform(&mut task, unreadable).len(), 2);
    assert!(matches!(pipe.finish(task), Finished::Url(9, text) if text.is_empty()));
}

#[test]
fn cookies_are_parsed_from_the_answer() {
    let mut pipe = pipe();
    let mut task =
        pipe.recv(1, WebViewMessage::GetCookies("a".to_string(), 9, "http://x".to_string()));
    assert_eq!(
        task.run.current().unwrap().action,
        JniAction::NewString { text: "http://x".to_string(), into: Slot::Url }
    );
    perform(&mut task, never);
    match pipe.finish(task) {
        Finished::Cookies(9, cookies) => {
            assert_eq!(cookies.len(), 2);
            assert_eq!(cookies[0].name_value(), ("k", "v"));
            assert_eq!(cookies[1].name_value(), ("w", "x"));
        }
        _ => panic!("no cookies"),
    }
}

#[test]
fn cookies_that_cannot_be_read_are_none() {
    let mut pipe = pipe();
    let mut task =
        pipe.recv(1, WebViewMessage::GetCookies("a".to_string(), 9, "http://x".to_string()));
    perform(&mut task, |action| calls(action, JavaMethod::GetCookies));
    assert!(matches!(pipe.finish(task), Finished::Cookies(9, cookies) if cookies.is_empty()));
    let mut task =
        pipe.recv(1, WebViewMessage::GetCookies("a".to_string(), 9, "http://x".to_string()));
    perform(&mut task, always);
    assert!(is_failure(pipe.finish(task)));
}

#[test]
fn code_runs_with_the_webview_of_its_id() {
    let mut pipe = pipe();
    let task = pipe.recv(1, WebViewMessage::Jni(Some("b".to_string()), 5));
    match pipe.finish(task) {
        Finished::Run { job, activity, webview } => {
            assert_eq!(job, 5);
            assert_eq!(activity, Some(Arc::new(10)));
            assert_eq!(webview, Some(Arc::new(200)));
        }
        _ => panic!("nothing to run"),
    }
}

#[test]
fn code_without_an_id_runs_with_any_webview() {
    let mut pipe = pipe();
    let task = pipe.recv(1, WebViewMessage::Jni(None, 5));
    match pipe.finish(task) {
        Finished::Run { webview: Some(webview), .. } => {
            assert!(*webview == 100 || *webview == 200)
        }
        _ => panic!("no webview"),
    }
    pipe.registries.webviews.remove("a");
    pipe.registries.webviews.remove("b");
    assert_eq!(any_webview(&pipe.registries), None);
    let task = pipe.recv(1, WebViewMessage::Jni(None, 5));
    assert!(matches!(
        pipe.finish(task),
        Finished::Run { job: 5, activity: Some(_), webview: None }
    ));
}

#[test]
fn code_without_an_activity_gets_no_webview_either() {
    let mut pipe = pipe();
    let task = pipe.recv(2, WebViewMessage::Jni(Some("a".to_string()), 5));
    assert!(matches!(pipe.finish(task), Finished::Run { job: 5, activity: None, webview: None }));
}

#[test]
fn a_url_without_headers_is_loaded_with_one_argument() {
    let mut pipe = pipe();
    let mut task =
        pipe.recv(1, WebViewMessage::LoadUrl("a".to_string(), "http://x".to_string(), None));
    task.run.advance(Outcome::Done);
    assert_eq!(
        task.run.current().unwrap().action,
        JniAction::CallVoid {
            target: Slot::WebView,
            method: JavaMethod::LoadUrl,
            arguments: vec![Arg::Object(Slot::Url)],
        }
    );
    task.run.advance(Outcome::Done);
    assert!(task.run.current().is_none());
}

#[test]
fn headers_are_put_into_a_map() {
    let mut headers = HeaderMap::new();
    headers.insert("x-one", HeaderValue::from_static("1"));
    let mut pipe = pipe();
    let mut task = pipe.recv(
        1,
        WebViewMessage::LoadUrl("a".to_string(), "http://x".to_string(), Some(headers)),
    );
    let expected: Vec<Action> = vec![
        JniAction::NewString { text: "http://x".to_string(), into: Slot::Url },
        JniAction::NewHashMap { into: Slot::Headers },
        JniAction::OpenMap { map: Slot::Headers },
        JniAction::NewString { text: "x-one".to_string(), into: Slot::HeaderName },
        JniAction::NewString { text: "1".to_string(), into: Slot::HeaderValue },
        JniAction::PutEntry {
            map: Slot::Headers,
            key: Slot::HeaderName,
            value: Slot::HeaderValue,
        },
        JniAction::CallVoid {
            target: Slot::WebView,
            method: JavaMethod::LoadUrlWithHeaders,
            arguments: vec![Arg::Object(Slot::Url), Arg::Object(Slot::Headers)],
        },
    ];
    for action in expected.iter() {
        assert_eq!(&task.run.current().unwrap().action, action);
        task.run.advance(Outcome::Done);
    }
    assert!(task.run.current().is_none());
}

#[test]
fn bounds_are_converted_also_where_the_density_cannot_be_read() {
    let rect = Rect {
        position: Position::Physical { x: 1, y: 2 },
        size: Size::Physical { width: 3, height: 4 },
    };
    for unreadable in [JavaMethod::GetResources, JavaMethod::GetDisplayMetrics] {
        let mut pipe = pipe();
        let mut task = pipe.recv(1, WebViewMessage::SetBounds("a".to_string(), rect));
        while !calls(&task.run.current().unwrap().action, unreadable) {
            task.run.advance(Outcome::Done);
        }
        task.run.advance(failed());
        assert_eq!(task.run.current().unwrap().action, JniAction::ToPhysical { bounds: rect });
        task.run.advance(Outcome::Done);
        assert_eq!(
            task.run.current().unwrap().action,
            JniAction::CallVoid {
                target: Slot::Activity,
                method: JavaMethod::SetChildBounds,
                arguments: vec![
                    Arg::Object(Slot::WebView),
                    Arg::X,
                    Arg::Y,
                    Arg::Width,
                    Arg::Height,
                ],
            }
        );
        task.run.advance(Outcome::Done);
        assert!(is_fine(pipe.finish(task)));
    }
}

#[test]
fn bounds_and_visibility_need_the_activity() {
    let mut pipe = pipe();
    let task = pipe.recv(2, WebViewMessage::SetBounds("a".to_string(), Rect::default()));
    assert!(task.run.current().is_none());
    let task = pipe.recv(2, WebViewMessage::SetVisible("a".to_string(), true));
    assert!(task.run.current().is_none());
    let task = pipe.recv(1, WebViewMessage::SetVisible("a".to_string(), true));
    assert_eq!(
        task.run.current().unwrap().action,
        JniAction::CallVoid {
            target: Slot::Activity,
            method: JavaMethod::SetChildVisible,
            arguments: vec![Arg::Object(Slot::WebView), Arg::Bool(true)],
        }
    );
}

#[test]
fn a_webview_is_forgotten_whether_or_not_its_window_can_be_removed() {
    for fails in [never as fn(&Action) -> bool, always] {
        let mut pipe = pipe();
        let mut task = pipe.recv(1, WebViewMessage::RemoveChildWebView("a".to_string()));
        assert_eq!(perform(&mut task, fails).len(), 1);
        assert!(is_fine(pipe.finish(task)));
        let left = &pipe.registries;
        assert_eq!(webview_by_id(left, "a"), None);
        assert!(!left.attributes.contains_key("a"));
        assert!(!left.ipc.contains_key("a"));
        assert!(!left.title_handlers.contains_key("a"));
        assert!(!left.url_loading_overrides.contains_key("a"));
        assert!(!left.on_load_handlers.contains_key("a"));
        assert!(!left.with_asset_loader.contains_key("a"));
        assert!(!left.asset_loader_domains.contains_key("a"));
        assert_eq!(webview_by_id(left, "b"), Some(Arc::new(200)));
        assert!(left.attributes.contains_key("b"));
        assert!(left.ipc.contains_key("b"));
        assert!(left.activities.contains_key(&1));
    }
}

/// A pipe whose activity remembers the webview `new`, the last that was created.
fn pipe_with_new() -> MainPipe<Numbers> {
    let mut pipe = pipe();
    let mut task = pipe.recv(1, WebViewMessage::CreateWebView(attributes("new")));
    perform(&mut task, never);
    assert!(is_fine(pipe.finish(task)));
    assert_eq!(get_webview(&pipe.registries.activities, 1), Some(Arc::new(999)));
    pipe
}

#[test]
fn a_removed_webview_is_not_remembered_by_its_activity() {
    for fails in [never as fn(&Action) -> bool, always] {
        let mut pipe = pipe_with_new();
        let mut task = pipe.recv(1, WebViewMessage::RemoveChildWebView("new".to_string()));
        perform(&mut task, fails);
        assert!(is_fine(pipe.finish(task)));
        assert_eq!(webview_by_id(&pipe.registries, "new"), None);
        assert_eq!(get_webview(&pipe.registries.activities, 1), None);
        let proxy = pipe.registries.activities.get(&1).unwrap();
        assert_eq!(proxy.webview_id, None);
        assert_eq!(*proxy.activity, 10);
    }
}

#[test]
fn no_reference_to_a_removed_webview_is_kept() {
    let mut pipe = pipe_with_new();
    let webview = webview_by_id(&pipe.registries, "new").unwrap();
    let mut task = pipe.recv(1, WebViewMessage::RemoveChildWebView("new".to_string()));
    perform(&mut task, never);
    assert!(is_fine(pipe.finish(task)));
    assert_eq!(Arc::strong_count(&webview), 1);
}

#[test]
fn an_activity_remembers_its_last_webview_when_another_is_removed() {
    let mut pipe = pipe_with_new();
    let mut task = pipe.recv(1, WebViewMessage::RemoveChildWebView("a".to_string()));
    perform(&mut task, never);
    assert!(is_fine(pipe.finish(task)));
    assert_eq!(get_webview(&pipe.registries.activities, 1), Some(Arc::new(999)));
}

#[test]
fn removing_an_unknown_webview_asks_nothing_of_java() {
    let mut pipe = pipe();
    pipe.registries.webviews.remove("a");
    let task = pipe.recv(1, WebViewMessage::RemoveChildWebView("a".to_string()));
    assert!(task.run.current().is_none());
    assert!(is_fine(pipe.finish(task)));
    assert!(!pipe.registries.attributes.contains_key("a"));
}

fn destroy(changing: bool) -> WebViewMessage<Numbers> {
    WebViewMessage::OnDestroy {
        activity_id: 1,
        webview_id: "a".to_string(),
        is_changing_configurations: changing,
    }
}

#[test]
fn a_configuration_change_keeps_everything() {
    let mut pipe = pipe();
    let task = pipe.recv(1, destroy(true));
    assert!(is_fine(pipe.finish(task)));
    assert!(pipe.registries.attributes.contains_key("a"));
    assert!(webview_by_id(&pipe.registries, "a").is_some());
    assert!(pipe.registries.activities.contains_key(&1));
}

#[test]
fn a_destroyed_activity_is_forgotten_with_its_webview() {
    let mut pipe = pipe();
    let task = pipe.recv(1, destroy(false));
    assert!(is_fine(pipe.finish(task)));
    assert!(!pipe.registries.attributes.contains_key("a"));
    assert!(webview_by_id(&pipe.registries, "a").is_none());
    assert!(!pipe.registries.activities.contains_key(&1));
    assert!(pipe.registries.attributes.contains_key("b"));
    assert!(webview_by_id(&pipe.registries, "b").is_some());
}

#[test]
fn a_plain_webview_is_created_step_by_step() {
    let mut pipe = pipe();
    let mut task = pipe.recv(1, WebViewMessage::CreateWebView(attributes("new")));
    assert_eq!(task.activity, Some(Arc::new(10)));
    assert_eq!(task.chrome_client, Some(Arc::new(12)));
    assert_eq!(task.package, "com/app");
    let find = |name: &str, into: Slot| -> Vec<Action> {
        vec![
            JniAction::CallObject {
                target: Slot::Activity,
                method: JavaMethod::GetClassLoader,
                arguments: vec![],
                into: Slot::ClassLoader,
            },
            JniAction::NewString { text: name.to_string(), into: Slot::ClassName },
            JniAction::CallObject {
                target: Slot::ClassLoader,
                method: JavaMethod::LoadClass,
                arguments: vec![Arg::Object(Slot::ClassName)],
                into,
            },
        ]
    };
    let mut expected: Vec<Action> = vec![
        JniAction::FindStringClass { into: Slot::StringClass },
        JniAction::NewString { text: String::new(), into: Slot::Text },
        JniAction::NewStringArray {
            length: 0,
            class: Slot::StringClass,
            initial: Slot::Text,
            into: Slot::Scripts,
        },
        JniAction::NewString { text: "new".to_string(), into: Slot::WebViewId },
        JniAction::CallObject {
            target: Slot::Activity,
            method: JavaMethod::GetHost,
            arguments: vec![],
            into: Slot::HostActivity,
        },
    ];
    expected.extend(find("com.app.RustWebView", Slot::WebViewClass));
    expected.push(JniAction::NewObject {
        class: Slot::WebViewClass,
        of: AppClass::RustWebView,
        arguments: vec![
            Arg::Object(Slot::HostActivity),
            Arg::Object(Slot::Scripts),
            Arg::Object(Slot::WebViewId),
        ],
        into: Slot::WebView,
    });
    expected.push(JniAction::CallObject {
        target: Slot::WebView,
        method: JavaMethod::GetSettings,
        arguments: vec![],
        into: Slot::Settings,
    });
    expected.push(JniAction::CallVoid {
        target: Slot::Settings,
        method: JavaMethod::SetMediaPlaybackRequiresUserGesture,
        arguments: vec![Arg::Bool(true)],
    });
    expected.push(JniAction::CallVoid {
        target: Slot::Activity,
        method: JavaMethod::SetWebView,
        arguments: vec![Arg::Object(Slot::WebView)],
    });
    expected.extend(find("com.app.RustWebViewClient", Slot::ClientClass));
    expected.push(JniAction::NewObject {
        class: Slot::ClientClass,
        of: AppClass::RustWebViewClient,
        arguments: vec![Arg::Object(Slot::WebView), Arg::Object(Slot::HostActivity)],
        into: Slot::Client,
    });
    expected.push(JniAction::CallVoid {
        target: Slot::WebView,
        method: JavaMethod::SetWebViewClient,
        arguments: vec![Arg::Object(Slot::Client)],
    });
    expected.push(JniAction::CallVoid {
        target: Slot::WebView,
        method: JavaMethod::SetWebChromeClient,
        arguments: vec![Arg::Object(Slot::ChromeClient)],
    });
    expected.extend(find("com.app.Ipc", Slot::IpcClass));
    expected.push(JniAction::NewObject {
        class: Slot::IpcClass,
        of: AppClass::Ipc,
        arguments: vec![Arg::Object(Slot::WebView), Arg::Object(Slot::Client)],
        into: Slot::Ipc,
    });
    expected.push(JniAction::NewString { text: "ipc".to_string(), into: Slot::IpcName });
    expected.push(JniAction::CallVoid {
        target: Slot::WebView,
        method: JavaMethod::AddJavascriptInterface,
        arguments: vec![Arg::Object(Slot::Ipc), Arg::Object(Slot::IpcName)],
    });
    expected.push(JniAction::CallVoid {
        target: Slot::Activity,
        method: JavaMethod::SetContentView,
        arguments: vec![Arg::Object(Slot::WebView)],
    });
    expected.push(JniAction::NewGlobalRef { object: Slot::WebView });
    for action in expected.iter() {
        let step = task.run.current().unwrap();
        assert_eq!(&step.action, action);
        assert_eq!(step.on_error, OnError::Return);
        let outcome = well(&step.action);
        task.run.advance(outcome);
    }
    assert!(task.run.current().is_none());
    assert!(is_fine(pipe.finish(task)));
    assert_eq!(webview_by_id(&pipe.registries, "new"), Some(Arc::new(999)));
    assert_eq!(get_webview(&pipe.registries.activities, 1), Some(Arc::new(999)));
    assert_eq!(webview_by_id(&pipe.registries, "a"), Some(Arc::new(100)));
}

/// The actions of a creation with the given attributes, and how it ends.
fn creation(
    attributes: CreateWebViewAttributes<Numbers>,
    fails: fn(&Action) -> bool,
) -> (Vec<String>, bool) {
    let mut pipe = pipe();
    let mut task = pipe.recv(1, WebViewMessage::CreateWebView(Arc::new(attributes)));
    let tried = perform(&mut task, fails);
    let fine = is_fine(pipe.finish(task));
    assert_eq!(fine, webview_by_id(&pipe.registries, "new").is_some());
    (tried, fine)
}

fn named(tried: &Vec<String>, name: &str) -> usize {
    tried.iter().filter(|text| text.contains(name)).count()
}

#[test]
fn a_creation_that_fails_registers_nothing() {
    let (tried, fine) = creation(plain("new"), |action| calls(action, JavaMethod::GetSettings));
    assert!(!fine);
    assert_eq!(named(&tried, "SetContentView"), 0);
}

#[test]
fn a_creation_without_an_activity_does_nothing() {
    let mut pipe = pipe();
    let task = pipe.recv(2, WebViewMessage::CreateWebView(attributes("new")));
    assert!(task.run.current().is_none());
    assert!(is_fine(pipe.finish(task)));
    assert!(webview_by_id(&pipe.registries, "new").is_none());
}

#[test]
fn a_webview_is_registered_also_where_its_activity_goes_away_meanwhile() {
    let mut pipe = pipe();
    let mut task = pipe.recv(1, WebViewMessage::CreateWebView(attributes("new")));
    perform(&mut task, never);
    remove_activity_proxy(&mut pipe.registries.activities, 1);
    assert!(is_fine(pipe.finish(task)));
    assert_eq!(webview_by_id(&pipe.registries, "new"), Some(Arc::new(999)));
    assert!(pipe.registries.activities.is_empty());
}

#[test]
fn a_child_gets_a_window_of_its_own() {
    let mut child = plain("new");
    child.is_child = true;
    let (tried, fine) = creation(child, never);
    assert!(fine);
    assert_eq!(named(&tried, "AddChildWebView"), 1);
    assert_eq!(named(&tried, "Int(0), Int(0), Int(-1), Int(-1)"), 1);
    assert_eq!(named(&tried, "SetContentView"), 0);
    assert_eq!(named(&tried, "method: SetWebView,"), 0);
    assert_eq!(named(&tried, "ToPhysical"), 0);
}

#[test]
fn a_child_with_bounds_is_placed_there() {
    let mut child = plain("new");
    child.is_child = true;
    child.bounds = Some(Rect::default());
    let (tried, fine) = creation(child, |action| matches!(action, JniAction::ReadDensity { .. }));
    assert!(fine);
    assert_eq!(named(&tried, "ToPhysical"), 1);
    assert_eq!(named(&tried, "X, Y, Width, Height"), 1);
}

#[test]
fn the_first_page_is_the_url_before_the_html() {
    let mut both = plain("new");
    both.url = Some("http://x".to_string());
    both.html = Some("<p>".to_string());
    let (tried, fine) = creation(both, never);
    assert!(fine);
    assert_eq!(named(&tried, "LoadUrlMainThread"), 1);
    assert_eq!(named(&tried, "LoadHtmlMainThread"), 0);
    let mut html = plain("new");
    html.html = Some("<p>".to_string());
    let (tried, fine) = creation(html, never);
    assert!(fine);
    assert_eq!(named(&tried, "LoadHtmlMainThread"), 1);
}

#[test]
fn a_first_page_that_is_no_java_string_is_left_out() {
    let mut headers = HeaderMap::new();
    headers.insert("x-one", HeaderValue::from_static("1"));
    let mut url = plain("new");
    url.url = Some("http://x".to_string());
    url.headers = Some(headers);
    let (tried, fine) = creation(url, |action| {
        matches!(action, JniAction::NewString { into: Slot::Url, .. })
    });
    assert!(fine);
    assert_eq!(named(&tried, "NewHashMap"), 0);
    assert_eq!(named(&tried, "LoadUrl"), 0);
    assert_eq!(named(&tried, "SetContentView"), 1);
}

#[test]
fn the_settings_are_applied_where_they_are_asked_for() {
    let mut all = plain("new");
    all.autoplay = true;
    all.user_agent = Some("agent".to_string());
    all.javascript_disabled = true;
    all.devtools = Some(true);
    all.background_color = Some((1, 2, 3, 4));
    all.on_webview_created = Some(8);
    all.initialization_scripts = Arc::new(vec![
        InitializationScript { script: "one".to_string() },
        InitializationScript { script: "two".to_string() },
    ]);
    let (tried, fine) = creation(all, |action| matches!(action, JniAction::RunCreatedHook));
    assert!(fine);
    assert_eq!(named(&tried, "SetMediaPlaybackRequiresUserGesture, arguments: [Bool(false)]"), 1);
    assert_eq!(named(&tried, "\"agent\""), 1);
    assert_eq!(named(&tried, "SetUserAgentString"), 1);
    assert_eq!(named(&tried, "SetJavaScriptEnabled, arguments: [Bool(false)]"), 1);
    assert_eq!(named(&tried, "SetWebContentsDebuggingEnabled, arguments: [Bool(true)]"), 1);
    assert_eq!(named(&tried, "SetBackgroundColor, arguments: [Int(67174915)]"), 1);
    assert_eq!(named(&tried, "RunCreatedHook"), 1);
    assert_eq!(named(&tried, "NewStringArray { length: 2"), 1);
    assert_eq!(named(&tried, "SetArrayElement { array: Scripts, index: 1, value: Text }"), 1);
}

#[test]
fn a_transparent_webview_has_no_colour() {
    let mut transparent = plain("new");
    transparent.transparent = true;
    transparent.background_color = Some((1, 2, 3, 4));
    let (tried, fine) = creation(transparent, never);
    assert!(fine);
    assert_eq!(named(&tried, "SetBackgroundColor, arguments: [Int(0)]"), 1);
}

/// The places that an action takes objects from.
fn taken(action: &Action) -> Vec<Slot> {
    let objects = |arguments: &Vec<Arg>| -> Vec<Slot> {
        arguments
            .iter()
            .filter_map(|argument| match argument {
                Arg::Object(slot) => Some(*slot),
                _ => None,
            })
            .collect()
    };
    let with = |slot: &Slot, arguments: &Vec<Arg>| -> Vec<Slot> {
        let mut slots = objects(arguments);
        slots.push(*slot);
        slots
    };
    match action {
        JniAction::NewStringArray { class, initial, .. } => vec![*class, *initial],
        JniAction::SetArrayElement { array, value, .. } => vec![*array, *value],
        JniAction::NewObject { class, arguments, .. } => with(class, arguments),
        JniAction::OpenMap { map } => vec![*map],
        JniAction::PutEntry { map, key, value } => vec![*map, *key, *value],
        JniAction::CallObject { target, arguments, .. } => with(target, arguments),
        JniAction::CallVoid { target, arguments, .. } => with(target, arguments),
        JniAction::CallStaticVoid { class, arguments, .. } => with(class, arguments),
        JniAction::CallInt { target, .. } => vec![*target],
        JniAction::ReadText { from } => vec![*from],
        JniAction::ReadDensity { from } => vec![*from],
        JniAction::RunCreatedHook => vec![Slot::Activity, Slot::WebView],
        JniAction::NewGlobalRef { object } => vec![*object],
        _ => vec![],
    }
}

/// The place that an action leaves an object in.
fn left(action: &Action) -> Option<Slot> {
    match action {
        JniAction::FindStringClass { into } => Some(*into),
        JniAction::NewString { into, .. } => Some(*into),
        JniAction::NewStringArray { into, .. } => Some(*into),
        JniAction::NewObject { into, .. } => Some(*into),
        JniAction::NewHashMap { into } => Some(*into),
        JniAction::CallObject { into, .. } => Some(*into),
        _ => None,
    }
}

#[test]
fn every_step_finds_what_it_takes_whichever_step_fails() {
    let mut headers = HeaderMap::new();
    headers.insert("x-one", HeaderValue::from_static("1"));
    for failing in 0..60 {
        let mut all = plain("new");
        all.url = Some("http://x".to_string());
        all.headers = Some(headers.clone());
        all.user_agent = Some("agent".to_string());
        all.javascript_disabled = true;
        all.devtools = Some(true);
        all.transparent = true;
        all.is_child = true;
        all.bounds = Some(Rect::default());
        all.on_webview_created = Some(8);
        all.initialization_scripts =
            Arc::new(vec![InitializationScript { script: "one".to_string() }]);
        let mut pipe = pipe();
        let mut task = pipe.recv(1, WebViewMessage::CreateWebView(Arc::new(all)));
        let mut places = vec![Slot::Activity, Slot::ChromeClient];
        let mut measured = false;
        let mut count = 0;
        loop {
            let outcome = match task.run.current() {
                Some(step) => {
                    for slot in taken(&step.action) {
                        assert!(places.contains(&slot));
                    }
                    if format!("{:?}", step.action).contains("Width") {
                        assert!(measured);
                    }
                    if count == failing {
                        failed()
                    } else {
                        places.extend(left(&step.action));
                        measured = measured || matches!(step.action, JniAction::ToPhysical { .. });
                        well(&step.action)
                    }
                }
                None => break,
            };
            task.run.advance(outcome);
            count += 1;
        }
        pipe.finish(task);
    }
}

#[test]
fn a_run_takes_no_more_steps_than_there_are() {
    let mut pipe = pipe();
    let mut task = pipe.recv(1, WebViewMessage::SetBounds("a".to_string(), Rect::default()));
    assert_eq!(perform(&mut task, never).len(), 6);
    let mut task = pipe.recv(1, WebViewMessage::SetBounds("a".to_string(), Rect::default()));
    assert_eq!(perform(&mut task, |action| calls(action, JavaMethod::GetResources)).len(), 4);
}

/// The ids that anything is left of after the given webviews have been removed.
fn left_after(removed: &[&str]) -> Vec<String> {
    let mut pipe = pipe();
    for id in removed {
        let mut task = pipe.recv(1, WebViewMessage::RemoveChildWebView(id.to_string()));
        perform(&mut task, never);
        assert!(is_fine(pipe.finish(task)));
    }
    let mut ids = pipe.registries.webviews.keys();
    ids.extend(pipe.registries.attributes.keys());
    ids.extend(pipe.registries.ipc.keys());
    ids.extend(pipe.registries.title_handlers.keys());
    ids.extend(pipe.registries.url_loading_overrides.keys());
    ids.extend(pipe.registries.on_load_handlers.keys());
    ids.extend(pipe.registries.with_asset_loader.keys());
    ids.extend(pipe.registries.asset_loader_domains.keys());
    ids.sort();
    ids.dedup();
    ids
}

#[test]
fn removing_twice_is_removing_once() {
    assert_eq!(left_after(&["a"]), vec!["b"]);
    assert_eq!(left_after(&["a", "a"]), vec!["b"]);
}

#[test]
fn the_order_of_removals_does_not_matter() {
    assert_eq!(left_after(&["a", "b"]), Vec::<String>::new());
    assert_eq!(left_after(&["b", "a"]), Vec::<String>::new());
}
