//! The steps that each message takes on the Java side.
use crate::action::{Arg, JniAction, JniStep, OnError, Slot, Step, StepView};
use crate::attributes::{CreateWebViewAttributes, InitializationScript, Rect, RGBA};
use crate::host::Host;
use crate::java::{AppClass, JavaMethod};
use vstd::prelude::*;

verus! {

/// The contents of a list of steps.
pub open spec fn plan(steps: Seq<JniStep>) -> Seq<StepView> {
    steps.map_values(|step: JniStep| step@)
}

/// The contents of an optional text.
pub open spec fn optional(text: Option<String>) -> Option<Seq<char>> {
    match text {
        Some(t) => Some(t@),
        None => None,
    }
}

/// The headers as names and texts.
pub open spec fn header_pairs(headers: Option<http::HeaderMap>) -> Option<
    Seq<(Seq<char>, Seq<char>)>,
> {
    match headers {
        Some(h) => Some(crate::headers::header_texts(crate::outside::header_walk(h))),
        None => None,
    }
}

/// Finds a class of the application through the class loader of the activity. The class is named
/// with slashes; the loader takes it with dots.
pub open spec fn find_class_steps(name: Seq<char>, into: Slot) -> Seq<StepView> {
    seq![
        JniAction::CallObject {
            target: Slot::Activity,
            method: JavaMethod::GetClassLoader,
            arguments: Seq::empty(),
            into: Slot::ClassLoader,
        }.must(),
        JniAction::NewString {
            text: crate::text::replaced(name, '/', '.'),
            into: Slot::ClassName,
        }.must(),
        JniAction::CallObject {
            target: Slot::ClassLoader,
            method: JavaMethod::LoadClass,
            arguments: seq![Arg::Object(Slot::ClassName)],
            into,
        }.must(),
    ]
}

/// Puts the first `n` scripts into the array of scripts.
pub open spec fn script_elements(scripts: Seq<Seq<char>>, n: nat) -> Seq<StepView>
    decreases n,
{
    if n == 0 {
        Seq::empty()
    } else {
        script_elements(scripts, (n - 1) as nat) + seq![
            JniAction::NewString { text: scripts[n - 1], into: Slot::Text }.must(),
            JniAction::SetArrayElement {
                array: Slot::Scripts,
                index: (n - 1) as i32,
                value: Slot::Text,
            }.must(),
        ]
    }
}

/// Makes the array of the initialization scripts.
pub open spec fn script_steps(scripts: Seq<Seq<char>>) -> Seq<StepView> {
    seq![
        JniAction::FindStringClass { into: Slot::StringClass }.must(),
        JniAction::NewString { text: ""@, into: Slot::Text }.must(),
        JniAction::NewStringArray {
            length: scripts.len() as i32,
            class: Slot::StringClass,
            initial: Slot::Text,
            into: Slot::Scripts,
        }.must(),
    ] + script_elements(scripts, scripts.len())
}

/// Puts the first `n` headers into the map of headers.
pub open spec fn header_elements(headers: Seq<(Seq<char>, Seq<char>)>, n: nat) -> Seq<StepView>
    decreases n,
{
    if n == 0 {
        Seq::empty()
    } else {
        header_elements(headers, (n - 1) as nat) + seq![
            JniAction::NewString { text: headers[n - 1].0, into: Slot::HeaderName }.must(),
            JniAction::NewString { text: headers[n - 1].1, into: Slot::HeaderValue }.must(),
            JniAction::PutEntry {
                map: Slot::Headers,
                key: Slot::HeaderName,
                value: Slot::HeaderValue,
            }.must(),
        ]
    }
}

/// Loads the URL in [`Slot::Url`].
pub open spec fn load_url_steps(
    headers: Option<Seq<(Seq<char>, Seq<char>)>>,
    main_thread: bool,
) -> Seq<StepView> {
    match headers {
        Some(h) => seq![
            JniAction::NewHashMap { into: Slot::Headers }.must(),
            JniAction::OpenMap { map: Slot::Headers }.must(),
        ] + header_elements(h, h.len()) + seq![
            JniAction::CallVoid {
                target: Slot::WebView,
                method: if main_thread {
                    JavaMethod::LoadUrlWithHeadersMainThread
                } else {
                    JavaMethod::LoadUrlWithHeaders
                },
                arguments: seq![Arg::Object(Slot::Url), Arg::Object(Slot::Headers)],
            }.must(),
        ],
        None => seq![
            JniAction::CallVoid {
                target: Slot::WebView,
                method: if main_thread {
                    JavaMethod::LoadUrlMainThread
                } else {
                    JavaMethod::LoadUrl
                },
                arguments: seq![Arg::Object(Slot::Url)],
            }.must(),
        ],
    }
}

/// Loads the page whose text is in [`Slot::Html`].
pub open spec fn load_html_steps() -> Seq<StepView> {
    seq![
        JniAction::CallVoid {
            target: Slot::WebView,
            method: JavaMethod::LoadHtmlMainThread,
            arguments: seq![Arg::Object(Slot::Html)],
        }.must(),
    ]
}

/// Loads the page again.
pub open spec fn reload_steps() -> Seq<StepView> {
    seq![
        JniAction::CallVoid {
            target: Slot::WebView,
            method: JavaMethod::Reload,
            arguments: Seq::empty(),
        }.must(),
    ]
}

/// Sets the background colour.
pub open spec fn set_background_color_steps(color: RGBA) -> Seq<StepView> {
    seq![
        JniAction::CallVoid {
            target: Slot::WebView,
            method: JavaMethod::SetBackgroundColor,
            arguments: seq![Arg::Int(crate::color::argb(color) as i32)],
        }.must(),
    ]
}

/// Reads the density of the display of the host activity. Where any part of it fails, the density
/// stays as it is: one.
pub open spec fn display_density_steps() -> Seq<StepView> {
    seq![
        JniAction::CallObject {
            target: Slot::HostActivity,
            method: JavaMethod::GetResources,
            arguments: Seq::empty(),
            into: Slot::Resources,
        }.or_skip(2),
        JniAction::CallObject {
            target: Slot::Resources,
            method: JavaMethod::GetDisplayMetrics,
            arguments: Seq::empty(),
            into: Slot::DisplayMetrics,
        }.or_skip(1),
        JniAction::ReadDensity { from: Slot::DisplayMetrics }.or_skip(0),
    ]
}

/// Makes the webview and the first of its settings.
pub open spec fn make_webview_steps(
    id: Seq<char>,
    package: Seq<char>,
    autoplay: bool,
) -> Seq<StepView> {
    seq![
        JniAction::NewString { text: id, into: Slot::WebViewId }.must(),
        JniAction::CallObject {
            target: Slot::Activity,
            method: JavaMethod::GetHost,
            arguments: Seq::empty(),
            into: Slot::HostActivity,
        }.must(),
    ] + find_class_steps(AppClass::RustWebView.path_text(package), Slot::WebViewClass) + seq![
        JniAction::NewObject {
            class: Slot::WebViewClass,
            of: AppClass::RustWebView,
            arguments: seq![
                Arg::Object(Slot::HostActivity),
                Arg::Object(Slot::Scripts),
                Arg::Object(Slot::WebViewId),
            ],
            into: Slot::WebView,
        }.must(),
        JniAction::CallObject {
            target: Slot::WebView,
            method: JavaMethod::GetSettings,
            arguments: Seq::empty(),
            into: Slot::Settings,
        }.must(),
        JniAction::CallVoid {
            target: Slot::Settings,
            method: JavaMethod::SetMediaPlaybackRequiresUserGesture,
            arguments: seq![Arg::Bool(!autoplay)],
        }.must(),
    ]
}

/// Sets the user agent, where there is one.
pub open spec fn user_agent_steps(user_agent: Option<Seq<char>>) -> Seq<StepView> {
    match user_agent {
        Some(text) => seq![
            JniAction::NewString { text, into: Slot::UserAgent }.must(),
            JniAction::CallVoid {
                target: Slot::Settings,
                method: JavaMethod::SetUserAgentString,
                arguments: seq![Arg::Object(Slot::UserAgent)],
            }.must(),
        ],
        None => Seq::empty(),
    }
}

/// Switches scripts off, where they are not wanted.
pub open spec fn javascript_steps(disabled: bool) -> Seq<StepView> {
    if disabled {
        seq![
            JniAction::CallVoid {
                target: Slot::Settings,
                method: JavaMethod::SetJavaScriptEnabled,
                arguments: seq![Arg::Bool(false)],
            }.must(),
        ]
    } else {
        Seq::empty()
    }
}

/// Gives the back button to the webview, unless it is a child.
pub open spec fn back_button_steps(is_child: bool) -> Seq<StepView> {
    if is_child {
        Seq::empty()
    } else {
        seq![
            JniAction::CallVoid {
                target: Slot::Activity,
                method: JavaMethod::SetWebView,
                arguments: seq![Arg::Object(Slot::WebView)],
            }.must(),
        ]
    }
}

/// Loads the first page: the URL, or else the text of a page, or else none. A text that cannot be
/// made a Java string is not loaded.
pub open spec fn navigation_steps(
    url: Option<Seq<char>>,
    html: Option<Seq<char>>,
    headers: Option<Seq<(Seq<char>, Seq<char>)>>,
) -> Seq<StepView> {
    match url {
        Some(text) => seq![
            JniAction::NewString { text, into: Slot::Url }.or_skip(
                load_url_steps(headers, true).len(),
            ),
        ] + load_url_steps(headers, true),
        None => match html {
            Some(text) => seq![
                JniAction::NewString { text, into: Slot::Html }.or_skip(load_html_steps().len()),
            ] + load_html_steps(),
            None => Seq::empty(),
        },
    }
}

/// Switches the developer tools on or off, in a build that has them.
pub open spec fn devtools_steps(devtools: Option<bool>) -> Seq<StepView> {
    match devtools {
        Some(enabled) => seq![
            JniAction::CallStaticVoid {
                class: Slot::WebViewClass,
                method: JavaMethod::SetWebContentsDebuggingEnabled,
                arguments: seq![Arg::Bool(enabled)],
            }.must(),
        ],
        None => Seq::empty(),
    }
}

/// Sets the first background: none for a transparent webview, or else the colour, if any.
pub open spec fn background_steps(transparent: bool, color: Option<RGBA>) -> Seq<StepView> {
    if transparent {
        set_background_color_steps((0, 0, 0, 0))
    } else {
        match color {
            Some(c) => set_background_color_steps(c),
            None => Seq::empty(),
        }
    }
}

/// Makes the clients of the webview and makes them known to it.
pub open spec fn client_steps(package: Seq<char>) -> Seq<StepView> {
    find_class_steps(AppClass::RustWebViewClient.path_text(package), Slot::ClientClass) + seq![
        JniAction::NewObject {
            class: Slot::ClientClass,
            of: AppClass::RustWebViewClient,
            arguments: seq![Arg::Object(Slot::WebView), Arg::Object(Slot::HostActivity)],
            into: Slot::Client,
        }.must(),
        JniAction::CallVoid {
            target: Slot::WebView,
            method: JavaMethod::SetWebViewClient,
            arguments: seq![Arg::Object(Slot::Client)],
        }.must(),
        JniAction::CallVoid {
            target: Slot::WebView,
            method: JavaMethod::SetWebChromeClient,
            arguments: seq![Arg::Object(Slot::ChromeClient)],
        }.must(),
    ] + find_class_steps(AppClass::Ipc.path_text(package), Slot::IpcClass) + seq![
        JniAction::NewObject {
            class: Slot::IpcClass,
            of: AppClass::Ipc,
            arguments: seq![Arg::Object(Slot::WebView), Arg::Object(Slot::Client)],
            into: Slot::Ipc,
        }.must(),
        JniAction::NewString { text: "ipc"@, into: Slot::IpcName }.must(),
        JniAction::CallVoid {
            target: Slot::WebView,
            method: JavaMethod::AddJavascriptInterface,
            arguments: seq![Arg::Object(Slot::Ipc), Arg::Object(Slot::IpcName)],
        }.must(),
    ]
}

/// Mounts the webview: a child in a window of its own, at its bounds or else over all of its
/// host, and any other webview as the content of the activity.
pub open spec fn mount_steps(is_child: bool, bounds: Option<Rect>) -> Seq<StepView> {
    if is_child {
        match bounds {
            Some(rect) => display_density_steps() + seq![
                JniAction::ToPhysical { bounds: rect }.must(),
                JniAction::CallVoid {
                    target: Slot::Activity,
                    method: JavaMethod::AddChildWebView,
                    arguments: seq![
                        Arg::Object(Slot::WebView),
                        Arg::X,
                        Arg::Y,
                        Arg::Width,
                        Arg::Height,
                    ],
                }.must(),
            ],
            None => display_density_steps() + seq![
                JniAction::CallVoid {
                    target: Slot::Activity,
                    method: JavaMethod::AddChildWebView,
                    arguments: seq![
                        Arg::Object(Slot::WebView),
                        Arg::Int(0),
                        Arg::Int(0),
                        Arg::Int((-1) as i32),
                        Arg::Int((-1) as i32),
                    ],
                }.must(),
            ],
        }
    } else {
        seq![
            JniAction::CallVoid {
                target: Slot::Activity,
                method: JavaMethod::SetContentView,
                arguments: seq![Arg::Object(Slot::WebView)],
            }.must(),
        ]
    }
}

/// Runs the code that waits for the creation, if any; that it fails does not matter.
pub open spec fn hook_steps(present: bool) -> Seq<StepView> {
    if present {
        seq![JniAction::RunCreatedHook.or_skip(0)]
    } else {
        Seq::empty()
    }
}

/// Keeps the webview alive.
pub open spec fn keep_steps() -> Seq<StepView> {
    seq![JniAction::NewGlobalRef { object: Slot::WebView }.must()]
}

/// All that comes before the webview is kept: it is made, set up, navigated and mounted.
pub open spec fn build_steps<H: Host>(
    attributes: CreateWebViewAttributes<H>,
    package: Seq<char>,
) -> Seq<StepView> {
    script_steps(crate::attributes::script_texts(attributes.initialization_scripts@))
        + make_webview_steps(attributes.id@, package, attributes.autoplay)
        + user_agent_steps(optional(attributes.user_agent))
        + javascript_steps(attributes.javascript_disabled)
        + back_button_steps(attributes.is_child)
        + navigation_steps(
            optional(attributes.url),
            optional(attributes.html),
            header_pairs(attributes.headers),
        )
        + devtools_steps(attributes.devtools)
        + background_steps(attributes.transparent, attributes.background_color)
        + client_steps(package)
        + mount_steps(attributes.is_child, attributes.bounds)
        + hook_steps(attributes.on_webview_created is Some)
}

/// Creates a webview.
pub open spec fn create_steps<H: Host>(
    attributes: CreateWebViewAttributes<H>,
    package: Seq<char>,
) -> Seq<StepView> {
    build_steps(attributes, package) + keep_steps()
}

/// Evaluates a script under a number.
pub open spec fn eval_steps(id: i32, script: Seq<char>) -> Seq<StepView> {
    seq![
        JniAction::NewString { text: script, into: Slot::Text }.must(),
        JniAction::CallVoid {
            target: Slot::WebView,
            method: JavaMethod::EvalScript,
            arguments: seq![Arg::Int(id), Arg::Object(Slot::Text)],
        }.must(),
    ]
}

/// Asks for the version of the webview.
pub open spec fn version_steps() -> Seq<StepView> {
    seq![
        JniAction::CallObject {
            target: Slot::Activity,
            method: JavaMethod::GetVersion,
            arguments: Seq::empty(),
            into: Slot::Answer,
        }.or_conclude(),
        JniAction::ReadText { from: Slot::Answer }.or_conclude(),
    ]
}

/// Asks for the current URL.
pub open spec fn url_steps() -> Seq<StepView> {
    seq![
        JniAction::CallObject {
            target: Slot::WebView,
            method: JavaMethod::GetUrl,
            arguments: Seq::empty(),
            into: Slot::Answer,
        }.or_conclude(),
        JniAction::ReadText { from: Slot::Answer }.or_conclude(),
    ]
}

/// Asks for the cookies for a URL.
pub open spec fn cookies_steps(url: Seq<char>) -> Seq<StepView> {
    seq![
        JniAction::NewString { text: url, into: Slot::Url }.must(),
        JniAction::CallObject {
            target: Slot::WebView,
            method: JavaMethod::GetCookies,
            arguments: seq![Arg::Object(Slot::Url)],
            into: Slot::Answer,
        }.or_conclude(),
        JniAction::ReadText { from: Slot::Answer }.or_conclude(),
    ]
}

/// Goes to a URL.
pub open spec fn go_to_url_steps(
    url: Seq<char>,
    headers: Option<Seq<(Seq<char>, Seq<char>)>>,
) -> Seq<StepView> {
    seq![JniAction::NewString { text: url, into: Slot::Url }.must()] + load_url_steps(
        headers,
        false,
    )
}

/// Shows a page from its text.
pub open spec fn show_html_steps(html: Seq<char>) -> Seq<StepView> {
    seq![JniAction::NewString { text: html, into: Slot::Html }.must()] + load_html_steps()
}

/// Forgets all browsing data.
pub open spec fn clear_data_steps() -> Seq<StepView> {
    seq![
        JniAction::CallVoid {
            target: Slot::WebView,
            method: JavaMethod::ClearAllBrowsingData,
            arguments: Seq::empty(),
        }.must(),
    ]
}

/// Moves and resizes the window of a child.
pub open spec fn bounds_steps(rect: Rect) -> Seq<StepView> {
    seq![
        JniAction::CallObject {
            target: Slot::Activity,
            method: JavaMethod::GetHost,
            arguments: Seq::empty(),
            into: Slot::HostActivity,
        }.must(),
    ] + display_density_steps() + seq![
        JniAction::ToPhysical { bounds: rect }.must(),
        JniAction::CallVoid {
            target: Slot::Activity,
            method: JavaMethod::SetChildBounds,
            arguments: seq![
                Arg::Object(Slot::WebView),
                Arg::X,
                Arg::Y,
                Arg::Width,
                Arg::Height,
            ],
        }.must(),
    ]
}

/// Shows or hides the window of a child.
pub open spec fn visible_steps(visible: bool) -> Seq<StepView> {
    seq![
        JniAction::CallVoid {
            target: Slot::Activity,
            method: JavaMethod::SetChildVisible,
            arguments: seq![Arg::Object(Slot::WebView), Arg::Bool(visible)],
        }.must(),
    ]
}

/// Takes the window of a child away; that it fails does not matter.
pub open spec fn remove_child_steps() -> Seq<StepView> {
    seq![
        JniAction::CallVoid {
            target: Slot::Activity,
            method: JavaMethod::RemoveChildWebView,
            arguments: seq![Arg::Object(Slot::WebView)],
        }.or_skip(0),
    ]
}

/// Gets what is kept of an activity: its number, its window manager, and a client that sees the
/// dialogs.
pub open spec fn setup_steps(package: Seq<char>) -> Seq<StepView> {
    seq![
        JniAction::CallInt { target: Slot::Activity, method: JavaMethod::HashCode }.must(),
        JniAction::CallObject {
            target: Slot::Activity,
            method: JavaMethod::GetWindowManager,
            arguments: Seq::empty(),
            into: Slot::WindowManager,
        }.must(),
        JniAction::NewGlobalRef { object: Slot::WindowManager }.must(),
        JniAction::CallObject {
            target: Slot::Activity,
            method: JavaMethod::GetHost,
            arguments: Seq::empty(),
            into: Slot::HostActivity,
        }.must(),
    ] + find_class_steps(
        AppClass::RustWebChromeClient.path_text(package),
        Slot::ChromeClientClass,
    ) + seq![
        JniAction::NewObject {
            class: Slot::ChromeClientClass,
            of: AppClass::RustWebChromeClient,
            arguments: seq![Arg::Object(Slot::HostActivity)],
            into: Slot::ChromeClient,
        }.must(),
        JniAction::NewGlobalRef { object: Slot::ChromeClient }.must(),
    ]
}

/// No arguments.
pub fn no_arguments() -> (r: Vec<Arg>)
    ensures
        r@ == Seq::<Arg>::empty(),
{
    Vec::new()
}

/// One argument.
pub fn one_argument(a: Arg) -> (r: Vec<Arg>)
    ensures
        r@ == seq![a],
{
    let mut r: Vec<Arg> = Vec::new();
    r.push(a);
    assert(r@ =~= seq![a]);
    r
}

/// Two arguments.
pub fn two_arguments(a: Arg, b: Arg) -> (r: Vec<Arg>)
    ensures
        r@ == seq![a, b],
{
    let mut r = one_argument(a);
    r.push(b);
    assert(r@ =~= seq![a, b]);
    r
}

/// Three arguments.
pub fn three_arguments(a: Arg, b: Arg, c: Arg) -> (r: Vec<Arg>)
    ensures
        r@ == seq![a, b, c],
{
    let mut r = two_arguments(a, b);
    r.push(c);
    assert(r@ =~= seq![a, b, c]);
    r
}

/// Five arguments.
pub fn five_arguments(a: Arg, b: Arg, c: Arg, d: Arg, e: Arg) -> (r: Vec<Arg>)
    ensures
        r@ == seq![a, b, c, d, e],
{
    let mut r = three_arguments(a, b, c);
    r.push(d);
    r.push(e);
    assert(r@ =~= seq![a, b, c, d, e]);
    r
}

/// Adds a step to the end of a list.
pub fn push_step(steps: &mut Vec<JniStep>, action: JniAction<String, Vec<Arg>>, on_error: OnError)
    ensures
        plan(final(steps)@) == plan(old(steps)@).push(Step { action: action@, on_error }),
        final(steps)@.len() == old(steps)@.len() + 1,
{
    let ghost before = plan(steps@);
    let step = Step { action, on_error };
    steps.push(step);
    assert(plan(steps@) =~= before.push(step@));
}

/// Adds a call of a method whose result does not matter.
fn call_void(
    steps: &mut Vec<JniStep>,
    target: Slot,
    method: JavaMethod,
    arguments: Vec<Arg>,
    on_error: OnError,
)
    ensures
        plan(final(steps)@) == plan(old(steps)@).push(
            Step {
                action: JniAction::CallVoid { target, method, arguments: arguments@ },
                on_error,
            },
        ),
{
    push_step(steps, JniAction::CallVoid { target, method, arguments }, on_error);
}

/// Adds a call of a method that gives an object.
fn call_object(
    steps: &mut Vec<JniStep>,
    target: Slot,
    method: JavaMethod,
    arguments: Vec<Arg>,
    into: Slot,
    on_error: OnError,
)
    ensures
        plan(final(steps)@) == plan(old(steps)@).push(
            Step {
                action: JniAction::CallObject { target, method, arguments: arguments@, into },
                on_error,
            },
        ),
{
    push_step(steps, JniAction::CallObject { target, method, arguments, into }, on_error);
}

/// Adds the making of a Java string.
fn new_string(steps: &mut Vec<JniStep>, text: String, into: Slot, on_error: OnError)
    ensures
        plan(final(steps)@) == plan(old(steps)@).push(
            Step { action: JniAction::NewString { text: text@, into }, on_error },
        ),
{
    push_step(steps, JniAction::NewString { text, into }, on_error);
}

/// Adds the steps of another list.
fn append_steps(steps: &mut Vec<JniStep>, more: Vec<JniStep>)
    ensures
        plan(final(steps)@) == plan(old(steps)@) + plan(more@),
{
    let mut more = more;
    let ghost before = steps@;
    let ghost added = more@;
    steps.append(&mut more);
    assert(plan(steps@) =~= plan(before) + plan(added));
}

/// Finds a class of the application through the class loader of the activity. The class is named
/// with slashes; the loader takes it with dots.
pub fn find_class(steps: &mut Vec<JniStep>, name: &str, into: Slot)
    ensures
        plan(final(steps)@) == plan(old(steps)@) + find_class_steps(name@, into),
{
    let ghost before = plan(steps@);
    call_object(
        steps,
        Slot::Activity,
        JavaMethod::GetClassLoader,
        no_arguments(),
        Slot::ClassLoader,
        OnError::Return,
    );
    new_string(
        steps,
        crate::text::replace_char(name, '/', '.'),
        Slot::ClassName,
        OnError::Return,
    );
    call_object(
        steps,
        Slot::ClassLoader,
        JavaMethod::LoadClass,
        one_argument(Arg::Object(Slot::ClassName)),
        into,
        OnError::Return,
    );
    assert(plan(steps@) =~= before + find_class_steps(name@, into));
}

/// Makes the array of the initialization scripts.
pub fn make_scripts(steps: &mut Vec<JniStep>, scripts: &Vec<InitializationScript>)
    ensures
        plan(final(steps)@) == plan(old(steps)@) + script_steps(
            crate::attributes::script_texts(scripts@),
        ),
{
    let ghost before = plan(steps@);
    let ghost texts = crate::attributes::script_texts(scripts@);
    push_step(steps, JniAction::FindStringClass { into: Slot::StringClass }, OnError::Return);
    new_string(steps, "".to_owned(), Slot::Text, OnError::Return);
    push_step(
        steps,
        JniAction::NewStringArray {
            length: #[verifier::truncate] (scripts.len() as i32),
            class: Slot::StringClass,
            initial: Slot::Text,
            into: Slot::Scripts,
        },
        OnError::Return,
    );
    let ghost opened = plan(steps@);
    let mut i: usize = 0;
    assert(opened =~= opened + script_elements(texts, 0));
    while i < scripts.len()
        invariant
            i <= scripts@.len(),
            texts == crate::attributes::script_texts(scripts@),
            plan(steps@) == opened + script_elements(texts, i as nat),
        decreases scripts@.len() - i,
    {
        new_string(steps, scripts[i].script.clone(), Slot::Text, OnError::Return);
        push_step(
            steps,
            JniAction::SetArrayElement {
                array: Slot::Scripts,
                index: #[verifier::truncate] (i as i32),
                value: Slot::Text,
            },
            OnError::Return,
        );
        i = i + 1;
        assert(plan(steps@) =~= opened + script_elements(texts, i as nat));
    }
    assert(plan(steps@) =~= before + script_steps(texts));
}

/// Loads the URL in [`Slot::Url`], with headers where there are any.
pub fn load_url(steps: &mut Vec<JniStep>, headers: &Option<http::HeaderMap>, main_thread: bool)
    ensures
        plan(final(steps)@) == plan(old(steps)@) + load_url_steps(
            header_pairs(*headers),
            main_thread,
        ),
{
    let ghost before = plan(steps@);
    match headers {
        Some(map) => {
            let entries = crate::headers::read_headers(map);
            let ghost texts = crate::headers::pairs(entries@);
            push_step(steps, JniAction::NewHashMap { into: Slot::Headers }, OnError::Return);
            push_step(steps, JniAction::OpenMap { map: Slot::Headers }, OnError::Return);
            let ghost opened = plan(steps@);
            let mut i: usize = 0;
            assert(opened =~= opened + header_elements(texts, 0));
            while i < entries.len()
                invariant
                    i <= entries@.len(),
                    texts == crate::headers::pairs(entries@),
                    plan(steps@) == opened + header_elements(texts, i as nat),
                decreases entries@.len() - i,
            {
                new_string(steps, entries[i].0.clone(), Slot::HeaderName, OnError::Return);
                new_string(steps, entries[i].1.clone(), Slot::HeaderValue, OnError::Return);
                push_step(
                    steps,
                    JniAction::PutEntry {
                        map: Slot::Headers,
                        key: Slot::HeaderName,
                        value: Slot::HeaderValue,
                    },
                    OnError::Return,
                );
                i = i + 1;
                assert(plan(steps@) =~= opened + header_elements(texts, i as nat));
            }
            let method = if main_thread {
                JavaMethod::LoadUrlWithHeadersMainThread
            } else {
                JavaMethod::LoadUrlWithHeaders
            };
            call_void(
                steps,
                Slot::WebView,
                method,
                two_arguments(Arg::Object(Slot::Url), Arg::Object(Slot::Headers)),
                OnError::Return,
            );
        },
        None => {
            let method = if main_thread {
                JavaMethod::LoadUrlMainThread
            } else {
                JavaMethod::LoadUrl
            };
            call_void(
                steps,
                Slot::WebView,
                method,
                one_argument(Arg::Object(Slot::Url)),
                OnError::Return,
            );
        },
    }
    assert(plan(steps@) =~= before + load_url_steps(header_pairs(*headers), main_thread));
}

/// Loads the page whose text is in [`Slot::Html`].
pub fn load_html(steps: &mut Vec<JniStep>)
    ensures
        plan(final(steps)@) == plan(old(steps)@) + load_html_steps(),
{
    let ghost before = plan(steps@);
    call_void(
        steps,
        Slot::WebView,
        JavaMethod::LoadHtmlMainThread,
        one_argument(Arg::Object(Slot::Html)),
        OnError::Return,
    );
    assert(plan(steps@) =~= before + load_html_steps());
}

/// Loads the page again.
pub fn reload(steps: &mut Vec<JniStep>)
    ensures
        plan(final(steps)@) == plan(old(steps)@) + reload_steps(),
{
    let ghost before = plan(steps@);
    call_void(steps, Slot::WebView, JavaMethod::Reload, no_arguments(), OnError::Return);
    assert(plan(steps@) =~= before + reload_steps());
}

/// Sets the background colour.
pub fn set_background_color(steps: &mut Vec<JniStep>, color: RGBA)
    ensures
        plan(final(steps)@) == plan(old(steps)@) + set_background_color_steps(color),
{
    let ghost before = plan(steps@);
    let packed = crate::color::packed_argb(color);
    call_void(
        steps,
        Slot::WebView,
        JavaMethod::SetBackgroundColor,
        one_argument(Arg::Int(packed)),
        OnError::Return,
    );
    assert(plan(steps@) =~= before + set_background_color_steps(color));
}

/// Reads the density of the display of the host activity; it is one where that fails.
pub fn display_density(steps: &mut Vec<JniStep>)
    ensures
        plan(final(steps)@) == plan(old(steps)@) + display_density_steps(),
{
    let ghost before = plan(steps@);
    call_object(
        steps,
        Slot::HostActivity,
        JavaMethod::GetResources,
        no_arguments(),
        Slot::Resources,
        OnError::Skip(2),
    );
    call_object(
        steps,
        Slot::Resources,
        JavaMethod::GetDisplayMetrics,
        no_arguments(),
        Slot::DisplayMetrics,
        OnError::Skip(1),
    );
    push_step(steps, JniAction::ReadDensity { from: Slot::DisplayMetrics }, OnError::Skip(0));
    assert(plan(steps@) =~= before + display_density_steps());
}

/// Makes the webview and the first of its settings.
pub fn make_webview(steps: &mut Vec<JniStep>, id: &String, package: &str, autoplay: bool)
    ensures
        plan(final(steps)@) == plan(old(steps)@) + make_webview_steps(id@, package@, autoplay),
{
    let ghost before = plan(steps@);
    new_string(steps, id.clone(), Slot::WebViewId, OnError::Return);
    call_object(
        steps,
        Slot::Activity,
        JavaMethod::GetHost,
        no_arguments(),
        Slot::HostActivity,
        OnError::Return,
    );
    find_class(steps, AppClass::RustWebView.path(package).as_str(), Slot::WebViewClass);
    push_step(
        steps,
        JniAction::NewObject {
            class: Slot::WebViewClass,
            of: AppClass::RustWebView,
            arguments: three_arguments(
                Arg::Object(Slot::HostActivity),
                Arg::Object(Slot::Scripts),
                Arg::Object(Slot::WebViewId),
            ),
            into: Slot::WebView,
        },
        OnError::Return,
    );
    call_object(
        steps,
        Slot::WebView,
        JavaMethod::GetSettings,
        no_arguments(),
        Slot::Settings,
        OnError::Return,
    );
    call_void(
        steps,
        Slot::Settings,
        JavaMethod::SetMediaPlaybackRequiresUserGesture,
        one_argument(Arg::Bool(!autoplay)),
        OnError::Return,
    );
    assert(plan(steps@) =~= before + make_webview_steps(id@, package@, autoplay));
}

/// Applies the settings that not every webview has: the user agent, scripts, the back button.
fn apply_settings<H: Host>(steps: &mut Vec<JniStep>, attributes: &CreateWebViewAttributes<H>)
    ensures
        plan(final(steps)@) == plan(old(steps)@) + user_agent_steps(
            optional(attributes.user_agent),
        ) + javascript_steps(attributes.javascript_disabled) + back_button_steps(
            attributes.is_child,
        ),
{
    let ghost before = plan(steps@);
    match &attributes.user_agent {
        Some(user_agent) => {
            new_string(steps, user_agent.clone(), Slot::UserAgent, OnError::Return);
            call_void(
                steps,
                Slot::Settings,
                JavaMethod::SetUserAgentString,
                one_argument(Arg::Object(Slot::UserAgent)),
                OnError::Return,
            );
        },
        None => {},
    }
    assert(plan(steps@) =~= before + user_agent_steps(optional(attributes.user_agent)));
    let ghost with_agent = plan(steps@);
    if attributes.javascript_disabled {
        call_void(
            steps,
            Slot::Settings,
            JavaMethod::SetJavaScriptEnabled,
            one_argument(Arg::Bool(false)),
            OnError::Return,
        );
    }
    assert(plan(steps@) =~= with_agent + javascript_steps(attributes.javascript_disabled));
    let ghost with_scripts = plan(steps@);
    if !attributes.is_child {
        call_void(
            steps,
            Slot::Activity,
            JavaMethod::SetWebView,
            one_argument(Arg::Object(Slot::WebView)),
            OnError::Return,
        );
    }
    assert(plan(steps@) =~= with_scripts + back_button_steps(attributes.is_child));
}

/// Loads the first page.
fn navigate<H: Host>(steps: &mut Vec<JniStep>, attributes: &CreateWebViewAttributes<H>)
    ensures
        plan(final(steps)@) == plan(old(steps)@) + navigation_steps(
            optional(attributes.url),
            optional(attributes.html),
            header_pairs(attributes.headers),
        ),
{
    let ghost before = plan(steps@);
    let mut load: Vec<JniStep> = Vec::new();
    assert(plan(load@) =~= Seq::<StepView>::empty());
    match &attributes.url {
        Some(url) => {
            load_url(&mut load, &attributes.headers, true);
            let ghost loads = load_url_steps(header_pairs(attributes.headers), true);
            assert(plan(load@) =~= loads);
            assert(load@.len() == plan(load@).len());
            new_string(steps, url.clone(), Slot::Url, OnError::Skip(load.len()));
            append_steps(steps, load);
        },
        None => match &attributes.html {
            Some(html) => {
                load_html(&mut load);
                assert(plan(load@) =~= load_html_steps());
                assert(load@.len() == plan(load@).len());
                new_string(steps, html.clone(), Slot::Html, OnError::Skip(load.len()));
                append_steps(steps, load);
            },
            None => {},
        },
    }
    assert(plan(steps@) =~= before + navigation_steps(
        optional(attributes.url),
        optional(attributes.html),
        header_pairs(attributes.headers),
    ));
}

/// Switches the developer tools and sets the first background.
fn apply_look<H: Host>(steps: &mut Vec<JniStep>, attributes: &CreateWebViewAttributes<H>)
    ensures
        plan(final(steps)@) == plan(old(steps)@) + devtools_steps(attributes.devtools)
            + background_steps(attributes.transparent, attributes.background_color),
{
    let ghost before = plan(steps@);
    match attributes.devtools {
        Some(enabled) => {
            push_step(
                steps,
                JniAction::CallStaticVoid {
                    class: Slot::WebViewClass,
                    method: JavaMethod::SetWebContentsDebuggingEnabled,
                    arguments: one_argument(Arg::Bool(enabled)),
                },
                OnError::Return,
            );
        },
        None => {},
    }
    assert(plan(steps@) =~= before + devtools_steps(attributes.devtools));
    let ghost with_tools = plan(steps@);
    if attributes.transparent {
        set_background_color(steps, (0, 0, 0, 0));
    } else {
        match attributes.background_color {
            Some(color) => {
                set_background_color(steps, color);
            },
            None => {},
        }
    }
    assert(plan(steps@) =~= with_tools + background_steps(
        attributes.transparent,
        attributes.background_color,
    ));
}

/// Makes the clients of the webview and makes them known to it.
fn make_clients(steps: &mut Vec<JniStep>, package: &str)
    ensures
        plan(final(steps)@) == plan(old(steps)@) + client_steps(package@),
{
    let ghost before = plan(steps@);
    find_class(steps, AppClass::RustWebViewClient.path(package).as_str(), Slot::ClientClass);
    push_step(
        steps,
        JniAction::NewObject {
            class: Slot::ClientClass,
            of: AppClass::RustWebViewClient,
            arguments: two_arguments(Arg::Object(Slot::WebView), Arg::Object(Slot::HostActivity)),
            into: Slot::Client,
        },
        OnError::Return,
    );
    call_void(
        steps,
        Slot::WebView,
        JavaMethod::SetWebViewClient,
        one_argument(Arg::Object(Slot::Client)),
        OnError::Return,
    );
    call_void(
        steps,
        Slot::WebView,
        JavaMethod::SetWebChromeClient,
        one_argument(Arg::Object(Slot::ChromeClient)),
        OnError::Return,
    );
    find_class(steps, AppClass::Ipc.path(package).as_str(), Slot::IpcClass);
    push_step(
        steps,
        JniAction::NewObject {
            class: Slot::IpcClass,
            of: AppClass::Ipc,
            arguments: two_arguments(Arg::Object(Slot::WebView), Arg::Object(Slot::Client)),
            into: Slot::Ipc,
        },
        OnError::Return,
    );
    new_string(steps, "ipc".to_owned(), Slot::IpcName, OnError::Return);
    call_void(
        steps,
        Slot::WebView,
        JavaMethod::AddJavascriptInterface,
        two_arguments(Arg::Object(Slot::Ipc), Arg::Object(Slot::IpcName)),
        OnError::Return,
    );
    assert(plan(steps@) =~= before + client_steps(package@));
}

/// Mounts the webview.
fn mount(steps: &mut Vec<JniStep>, is_child: bool, bounds: Option<Rect>)
    ensures
        plan(final(steps)@) == plan(old(steps)@) + mount_steps(is_child, bounds),
{
    let ghost before = plan(steps@);
    if is_child {
        display_density(steps);
        match bounds {
            Some(rect) => {
                push_step(steps, JniAction::ToPhysical { bounds: rect }, OnError::Return);
                call_void(
                    steps,
                    Slot::Activity,
                    JavaMethod::AddChildWebView,
                    five_arguments(
                        Arg::Object(Slot::WebView),
                        Arg::X,
                        Arg::Y,
                        Arg::Width,
                        Arg::Height,
                    ),
                    OnError::Return,
                );
            },
            None => {
                call_void(
                    steps,
                    Slot::Activity,
                    JavaMethod::AddChildWebView,
                    five_arguments(
                        Arg::Object(Slot::WebView),
                        Arg::Int(0),
                        Arg::Int(0),
                        Arg::Int(-1),
                        Arg::Int(-1),
                    ),
                    OnError::Return,
                );
            },
        }
    } else {
        call_void(
            steps,
            Slot::Activity,
            JavaMethod::SetContentView,
            one_argument(Arg::Object(Slot::WebView)),
            OnError::Return,
        );
    }
    assert(plan(steps@) =~= before + mount_steps(is_child, bounds));
}

/// The steps that create a webview.
pub fn create<H: Host>(attributes: &CreateWebViewAttributes<H>, package: &str) -> (steps: Vec<
    JniStep,
>)
    ensures
        plan(steps@) == create_steps(*attributes, package@),
        crate::run::skips_soundly(plan(steps@)),
        crate::run::objects_in(plan(steps@)) == 1,
{
    let mut steps: Vec<JniStep> = Vec::new();
    assert(plan(steps@) =~= Seq::<StepView>::empty());
    make_scripts(&mut steps, &attributes.initialization_scripts);
    assert(plan(steps@) =~= script_steps(
        crate::attributes::script_texts(attributes.initialization_scripts@),
    ));
    make_webview(&mut steps, &attributes.id, package, attributes.autoplay);
    apply_settings(&mut steps, attributes);
    navigate(&mut steps, attributes);
    apply_look(&mut steps, attributes);
    make_clients(&mut steps, package);
    mount(&mut steps, attributes.is_child, attributes.bounds);
    let ghost mounted = plan(steps@);
    if attributes.on_webview_created.is_some() {
        push_step(&mut steps, JniAction::RunCreatedHook, OnError::Skip(0));
    }
    assert(plan(steps@) =~= mounted + hook_steps(attributes.on_webview_created is Some));
    assert(plan(steps@) == build_steps(*attributes, package@));
    push_step(&mut steps, JniAction::NewGlobalRef { object: Slot::WebView }, OnError::Return);
    assert(plan(steps@) =~= create_steps(*attributes, package@));
    proof {
        assert(plan(steps@).len() == steps.len());
        crate::plan_laws::creation_is_sound(*attributes, package@);
    }
    steps
}

/// The steps that evaluate a script under a number.
pub fn eval(id: i32, script: &String) -> (steps: Vec<JniStep>)
    ensures
        plan(steps@) == eval_steps(id, script@),
        crate::run::skips_soundly(plan(steps@)),
{
    let mut steps: Vec<JniStep> = Vec::new();
    new_string(&mut steps, script.clone(), Slot::Text, OnError::Return);
    call_void(
        &mut steps,
        Slot::WebView,
        JavaMethod::EvalScript,
        two_arguments(Arg::Int(id), Arg::Object(Slot::Text)),
        OnError::Return,
    );
    assert(plan(steps@) =~= eval_steps(id, script@));
    steps
}

/// The steps that ask for the version of the webview.
pub fn version() -> (steps: Vec<JniStep>)
    ensures
        plan(steps@) == version_steps(),
        crate::run::skips_soundly(plan(steps@)),
        crate::run::text_in(plan(steps@)),
{
    let mut steps: Vec<JniStep> = Vec::new();
    call_object(
        &mut steps,
        Slot::Activity,
        JavaMethod::GetVersion,
        no_arguments(),
        Slot::Answer,
        OnError::Conclude,
    );
    push_step(&mut steps, JniAction::ReadText { from: Slot::Answer }, OnError::Conclude);
    assert(plan(steps@) =~= version_steps());
    assert(plan(steps@)[1].action is ReadText);
    steps
}

/// The steps that ask for the current URL.
pub fn url() -> (steps: Vec<JniStep>)
    ensures
        plan(steps@) == url_steps(),
        crate::run::skips_soundly(plan(steps@)),
        crate::run::text_in(plan(steps@)),
{
    let mut steps: Vec<JniStep> = Vec::new();
    call_object(
        &mut steps,
        Slot::WebView,
        JavaMethod::GetUrl,
        no_arguments(),
        Slot::Answer,
        OnError::Conclude,
    );
    push_step(&mut steps, JniAction::ReadText { from: Slot::Answer }, OnError::Conclude);
    assert(plan(steps@) =~= url_steps());
    assert(plan(steps@)[1].action is ReadText);
    steps
}

/// The steps that ask for the cookies for a URL.
pub fn cookies(url: &String) -> (steps: Vec<JniStep>)
    ensures
        plan(steps@) == cookies_steps(url@),
        crate::run::skips_soundly(plan(steps@)),
        crate::run::text_in(plan(steps@)),
{
    let mut steps: Vec<JniStep> = Vec::new();
    new_string(&mut steps, url.clone(), Slot::Url, OnError::Return);
    call_object(
        &mut steps,
        Slot::WebView,
        JavaMethod::GetCookies,
        one_argument(Arg::Object(Slot::Url)),
        Slot::Answer,
        OnError::Conclude,
    );
    push_step(&mut steps, JniAction::ReadText { from: Slot::Answer }, OnError::Conclude);
    assert(plan(steps@) =~= cookies_steps(url@));
    assert(plan(steps@)[2].action is ReadText);
    steps
}

/// The steps that go to a URL.
pub fn go_to_url(url: &String, headers: &Option<http::HeaderMap>) -> (steps: Vec<JniStep>)
    ensures
        plan(steps@) == go_to_url_steps(url@, header_pairs(*headers)),
        crate::run::skips_soundly(plan(steps@)),
{
    let mut steps: Vec<JniStep> = Vec::new();
    new_string(&mut steps, url.clone(), Slot::Url, OnError::Return);
    load_url(&mut steps, headers, false);
    assert(plan(steps@) =~= go_to_url_steps(url@, header_pairs(*headers)));
    proof {
        crate::plan_laws::going_to_url_is_sound(url@, header_pairs(*headers));
    }
    steps
}

/// The steps that show a page from its text.
pub fn show_html(html: &String) -> (steps: Vec<JniStep>)
    ensures
        plan(steps@) == show_html_steps(html@),
        crate::run::skips_soundly(plan(steps@)),
{
    let mut steps: Vec<JniStep> = Vec::new();
    new_string(&mut steps, html.clone(), Slot::Html, OnError::Return);
    load_html(&mut steps);
    assert(plan(steps@) =~= show_html_steps(html@));
    steps
}

/// The steps that forget all browsing data.
pub fn clear_data() -> (steps: Vec<JniStep>)
    ensures
        plan(steps@) == clear_data_steps(),
        crate::run::skips_soundly(plan(steps@)),
{
    let mut steps: Vec<JniStep> = Vec::new();
    call_void(
        &mut steps,
        Slot::WebView,
        JavaMethod::ClearAllBrowsingData,
        no_arguments(),
        OnError::Return,
    );
    assert(plan(steps@) =~= clear_data_steps());
    steps
}

/// The steps that move and resize the window of a child.
pub fn child_bounds(rect: Rect) -> (steps: Vec<JniStep>)
    ensures
        plan(steps@) == bounds_steps(rect),
        crate::run::skips_soundly(plan(steps@)),
{
    let mut steps: Vec<JniStep> = Vec::new();
    call_object(
        &mut steps,
        Slot::Activity,
        JavaMethod::GetHost,
        no_arguments(),
        Slot::HostActivity,
        OnError::Return,
    );
    display_density(&mut steps);
    push_step(&mut steps, JniAction::ToPhysical { bounds: rect }, OnError::Return);
    call_void(
        &mut steps,
        Slot::Activity,
        JavaMethod::SetChildBounds,
        five_arguments(Arg::Object(Slot::WebView), Arg::X, Arg::Y, Arg::Width, Arg::Height),
        OnError::Return,
    );
    assert(plan(steps@) =~= bounds_steps(rect));
    proof {
        crate::plan_laws::moving_is_sound(rect);
    }
    steps
}

/// The steps that show or hide the window of a child.
pub fn child_visible(visible: bool) -> (steps: Vec<JniStep>)
    ensures
        plan(steps@) == visible_steps(visible),
        crate::run::skips_soundly(plan(steps@)),
{
    let mut steps: Vec<JniStep> = Vec::new();
    call_void(
        &mut steps,
        Slot::Activity,
        JavaMethod::SetChildVisible,
        two_arguments(Arg::Object(Slot::WebView), Arg::Bool(visible)),
        OnError::Return,
    );
    assert(plan(steps@) =~= visible_steps(visible));
    steps
}

/// The steps that take the window of a child away.
pub fn remove_child() -> (steps: Vec<JniStep>)
    ensures
        plan(steps@) == remove_child_steps(),
        crate::run::skips_soundly(plan(steps@)),
{
    let mut steps: Vec<JniStep> = Vec::new();
    call_void(
        &mut steps,
        Slot::Activity,
        JavaMethod::RemoveChildWebView,
        one_argument(Arg::Object(Slot::WebView)),
        OnError::Skip(0),
    );
    assert(plan(steps@) =~= remove_child_steps());
    steps
}

/// The steps that get what is kept of an activity.
pub fn setup(package: &str) -> (steps: Vec<JniStep>)
    ensures
        plan(steps@) == setup_steps(package@),
        crate::run::skips_soundly(plan(steps@)),
        crate::run::number_in(plan(steps@)),
        crate::run::objects_in(plan(steps@)) == 2,
{
    let mut steps: Vec<JniStep> = Vec::new();
    push_step(
        &mut steps,
        JniAction::CallInt { target: Slot::Activity, method: JavaMethod::HashCode },
        OnError::Return,
    );
    call_object(
        &mut steps,
        Slot::Activity,
        JavaMethod::GetWindowManager,
        no_arguments(),
        Slot::WindowManager,
        OnError::Return,
    );
    push_step(
        &mut steps,
        JniAction::NewGlobalRef { object: Slot::WindowManager },
        OnError::Return,
    );
    call_object(
        &mut steps,
        Slot::Activity,
        JavaMethod::GetHost,
        no_arguments(),
        Slot::HostActivity,
        OnError::Return,
    );
    find_class(
        &mut steps,
        AppClass::RustWebChromeClient.path(package).as_str(),
        Slot::ChromeClientClass,
    );
    push_step(
        &mut steps,
        JniAction::NewObject {
            class: Slot::ChromeClientClass,
            of: AppClass::RustWebChromeClient,
            arguments: one_argument(Arg::Object(Slot::HostActivity)),
            into: Slot::ChromeClient,
        },
        OnError::Return,
    );
    push_step(
        &mut steps,
        JniAction::NewGlobalRef { object: Slot::ChromeClient },
        OnError::Return,
    );
    assert(plan(steps@) =~= setup_steps(package@));
    proof {
        crate::plan_laws::setup_gives_all(package@);
    }
    steps
}

} // verus!
