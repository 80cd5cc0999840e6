//! What the creation of a webview does on the Java side.
use crate::action::{Arg, JniAction, OnError, Slot, StepView};
use crate::activity::ActivityId;
use crate::attributes::{CreateWebViewAttributes, Rect, RGBA};
use crate::effects::{Call, Thing, World};
use crate::host::Host;
use crate::java::{AppClass, JavaMethod};
use crate::main_pipe::Completion;
use crate::message::WebViewMessage;
use crate::registries::RegistriesView;
use std::sync::Arc;
use vstd::prelude::*;

verus! {

/// A call of a method of a Java object.
pub open spec fn call<O>(
    target: Thing<O>,
    method: Seq<char>,
    signature: Seq<char>,
    arguments: Seq<Thing<O>>,
) -> Call<O> {
    Call { is_static: false, target, method, signature, arguments }
}

/// A call of a static method of a Java class.
pub open spec fn static_call<O>(
    class: Thing<O>,
    method: Seq<char>,
    signature: Seq<char>,
    arguments: Seq<Thing<O>>,
) -> Call<O> {
    Call { is_static: true, target: class, method, signature, arguments }
}

/// The objects that a creation makes and uses.
pub struct Cast<O> {
    pub activity: Thing<O>,
    pub chrome_client: Thing<O>,
    pub host: Thing<O>,
    pub webview_class: Thing<O>,
    pub webview: Thing<O>,
    pub settings: Thing<O>,
}

/// A list of scripts as Java gets it.
pub open spec fn script_array<O>(scripts: Seq<Seq<char>>) -> Thing<O> {
    Thing::Array {
        class: Box::new(Thing::StringClass),
        elements: Seq::new(scripts.len(), |i: int| Thing::Text(scripts[i])),
    }
}

/// The objects of the creation of a webview with an id and initialization scripts. The webview is
/// a new `RustWebView` on the host of the activity.
pub open spec fn cast<O>(
    activity: O,
    chrome_client: O,
    package: Seq<char>,
    id: Seq<char>,
    scripts: Seq<Seq<char>>,
) -> Cast<O> {
    let activity = Thing::Given(activity);
    let host = crate::effect_laws::host_of(activity);
    let webview_class = crate::effect_laws::class_named(
        activity,
        crate::effect_laws::dotted(package, "RustWebView"@),
    );
    let webview = Thing::Object {
        class: Box::new(webview_class),
        constructor: "(Landroid/content/Context;[Ljava/lang/String;Ljava/lang/String;)V"@,
        arguments: seq![host, script_array(scripts), Thing::Text(id)],
    };
    Cast {
        activity,
        chrome_client: Thing::Given(chrome_client),
        host,
        webview_class,
        webview,
        settings: crate::effects::answer(
            webview,
            "getSettings"@,
            "()Landroid/webkit/WebSettings;"@,
            Seq::empty(),
        ),
    }
}

impl<O> Cast<O> {
    /// The new client of the webview that sees the requests.
    pub open spec fn client(self, package: Seq<char>) -> Thing<O> {
        Thing::Object {
            class: Box::new(
                crate::effect_laws::class_named(
                    self.activity,
                    crate::effect_laws::dotted(package, "RustWebViewClient"@),
                ),
            ),
            constructor: "(L"@ + package + "/RustWebView;Landroid/content/Context;)V"@,
            arguments: seq![self.webview, self.host],
        }
    }

    /// The new object that takes the messages of the pages.
    pub open spec fn ipc(self, package: Seq<char>) -> Thing<O> {
        Thing::Object {
            class: Box::new(
                crate::effect_laws::class_named(
                    self.activity,
                    crate::effect_laws::dotted(package, "Ipc"@),
                ),
            ),
            constructor: "(L"@ + package + "/RustWebView;L"@ + package + "/RustWebViewClient;)V"@,
            arguments: seq![self.webview, self.client(package)],
        }
    }

    /// Loading a class of the application.
    pub open spec fn loads(self, package: Seq<char>, class: Seq<char>) -> Seq<Call<O>> {
        seq![
            call(self.activity, "getClassLoader"@, "()Ljava/lang/ClassLoader;"@, Seq::empty()),
            call(
                crate::effect_laws::loader_of(self.activity),
                "loadClass"@,
                "(Ljava/lang/String;)Ljava/lang/Class;"@,
                seq![Thing::Text(crate::effect_laws::dotted(package, class))],
            ),
        ]
    }

    /// The webview is made, and media plays without a gesture only where that was asked for.
    pub open spec fn makes(self, package: Seq<char>, autoplay: bool) -> Seq<Call<O>> {
        seq![call(self.activity, "getHost"@, "()Landroid/app/Activity;"@, Seq::empty())]
            + self.loads(package, "RustWebView"@) + seq![
            call(self.webview, "getSettings"@, "()Landroid/webkit/WebSettings;"@, Seq::empty()),
            call(
                self.settings,
                "setMediaPlaybackRequiresUserGesture"@,
                "(Z)V"@,
                seq![Thing::Bool(!autoplay)],
            ),
        ]
    }

    /// The user agent is the one that was asked for, if any.
    pub open spec fn sets_user_agent(self, user_agent: Option<Seq<char>>) -> Seq<Call<O>> {
        match user_agent {
            Some(text) => seq![
                call(
                    self.settings,
                    "setUserAgentString"@,
                    "(Ljava/lang/String;)V"@,
                    seq![Thing::Text(text)],
                ),
            ],
            None => Seq::empty(),
        }
    }

    /// Scripts are switched off where they are not wanted.
    pub open spec fn sets_javascript(self, disabled: bool) -> Seq<Call<O>> {
        if disabled {
            seq![call(self.settings, "setJavaScriptEnabled"@, "(Z)V"@, seq![Thing::Bool(false)])]
        } else {
            Seq::empty()
        }
    }

    /// A webview that is no child gets the back button.
    pub open spec fn takes_back_button(self, package: Seq<char>, is_child: bool) -> Seq<Call<O>> {
        if is_child {
            Seq::empty()
        } else {
            seq![
                call(
                    self.activity,
                    "setWebView"@,
                    "(L"@ + package + "/RustWebView;)V"@,
                    seq![self.webview],
                ),
            ]
        }
    }

    /// Whether `calls` opens the first page: the URL with its headers, or else the page text, or
    /// else nothing.
    pub open spec fn opens(
        self,
        calls: Seq<Call<O>>,
        url: Option<Seq<char>>,
        html: Option<Seq<char>>,
        headers: Option<http::HeaderMap>,
    ) -> bool {
        match url {
            Some(text) => {
                &&& calls.len() == 1
                &&& crate::effect_laws::is_load(
                    calls[0],
                    self.webview,
                    Thing::Text(text),
                    headers,
                    true,
                )
            },
            None => match html {
                Some(text) => {
                    &&& calls.len() == 1
                    &&& crate::effects::is_java(
                        calls[0],
                        self.webview,
                        "loadHTMLMainThread"@,
                        "(Ljava/lang/String;)V"@,
                        seq![Thing::Text(text)],
                    )
                },
                None => calls.len() == 0,
            },
        }
    }

    /// The developer tools are as asked for, in a build that has them.
    pub open spec fn sets_devtools(self, devtools: Option<bool>) -> Seq<Call<O>> {
        match devtools {
            Some(on) => seq![
                static_call(
                    self.webview_class,
                    "setWebContentsDebuggingEnabled"@,
                    "(Z)V"@,
                    seq![Thing::Bool(on)],
                ),
            ],
            None => Seq::empty(),
        }
    }

    /// The background is clear for a transparent webview, and otherwise of the colour that was
    /// asked for, if any.
    pub open spec fn sets_background(
        self,
        calls: Seq<Call<O>>,
        transparent: bool,
        color: Option<RGBA>,
    ) -> bool {
        let wanted = if transparent {
            Some((0u8, 0u8, 0u8, 0u8))
        } else {
            color
        };
        match wanted {
            Some(c) => {
                &&& calls.len() == 1
                &&& calls[0].arguments.len() == 1
                &&& calls[0].arguments[0] matches Thing::Int(n)
                &&& crate::effect_laws::is_argb(n, c)
                &&& crate::effects::is_java(
                    calls[0],
                    self.webview,
                    "setBackgroundColor"@,
                    "(I)V"@,
                    seq![Thing::Int(n)],
                )
            },
            None => calls.len() == 0,
        }
    }

    /// The webview gets its clients and the object that takes its messages, under the name `ipc`.
    pub open spec fn sets_clients(self, package: Seq<char>) -> Seq<Call<O>> {
        self.loads(package, "RustWebViewClient"@) + seq![
            call(
                self.webview,
                "setWebViewClient"@,
                "(Landroid/webkit/WebViewClient;)V"@,
                seq![self.client(package)],
            ),
            call(
                self.webview,
                "setWebChromeClient"@,
                "(Landroid/webkit/WebChromeClient;)V"@,
                seq![self.chrome_client],
            ),
        ] + self.loads(package, "Ipc"@) + seq![
            call(
                self.webview,
                "addJavascriptInterface"@,
                "(Ljava/lang/Object;Ljava/lang/String;)V"@,
                seq![self.ipc(package), Thing::Text("ipc"@)],
            ),
        ]
    }

    /// A child gets a window at its bounds, or over all of its host where it has none; any other
    /// webview becomes the content of the activity.
    pub open spec fn mounts(self, is_child: bool, bounds: Option<Rect>) -> Seq<Call<O>> {
        if is_child {
            seq![
                call(
                    self.host,
                    "getResources"@,
                    "()Landroid/content/res/Resources;"@,
                    Seq::empty(),
                ),
                call(
                    crate::effect_laws::resources_of(self.host),
                    "getDisplayMetrics"@,
                    "()Landroid/util/DisplayMetrics;"@,
                    Seq::empty(),
                ),
                call(
                    self.activity,
                    "addChildWebView"@,
                    "(Landroid/view/View;IIII)V"@,
                    match bounds {
                        Some(rect) => crate::effect_laws::placed(
                            self.webview,
                            rect,
                            crate::effect_laws::metrics_of(self.host),
                        ),
                        None => seq![
                            self.webview,
                            Thing::Int(0),
                            Thing::Int(0),
                            Thing::Int((-1) as i32),
                            Thing::Int((-1) as i32),
                        ],
                    },
                ),
            ]
        } else {
            seq![
                call(
                    self.activity,
                    "setContentView"@,
                    "(Landroid/view/View;)V"@,
                    seq![self.webview],
                ),
            ]
        }
    }

    /// Whether the objects lie in their places.
    pub open spec fn in_place(self, world: World<O>) -> bool {
        &&& world.at(Slot::Activity) == self.activity
        &&& world.at(Slot::ChromeClient) == self.chrome_client
        &&& world.at(Slot::HostActivity) == self.host
        &&& world.at(Slot::WebViewClass) == self.webview_class
        &&& world.at(Slot::WebView) == self.webview
        &&& world.at(Slot::Settings) == self.settings
    }
}

/// Whether performing `plan` in `world` makes the calls `calls` and nothing else, and leaves the
/// objects where they are.
spec fn just_calls<O>(
    world: World<O>,
    plan: Seq<StepView>,
    package: Seq<char>,
    cast: Cast<O>,
    calls: Seq<Call<O>>,
) -> bool {
    let after = world.after_plan(plan, package);
    &&& after.calls == world.calls + calls
    &&& after.only_called_since(world)
    &&& cast.in_place(after)
}

#[verifier::spinoff_prover]
#[verifier::rlimit(50)]
proof fn script_elements_fill_the_array<O>(
    world: World<O>,
    scripts: Seq<Seq<char>>,
    n: nat,
    package: Seq<char>,
)
    requires
        n <= scripts.len() <= i32::MAX,
        world.at(Slot::Scripts) matches Thing::Array { class, elements } && *class
            == Thing::<O>::StringClass && elements.len() == scripts.len(),
    ensures
        ({
            let after = world.after_plan(crate::plan::script_elements(scripts, n), package);
            &&& after.at(Slot::Scripts) matches Thing::Array { class, elements }
            &&& *class == Thing::<O>::StringClass
            &&& elements.len() == scripts.len()
            &&& forall|i: int|
                0 <= i < n ==> #[trigger] elements[i] == Thing::<O>::Text(scripts[i])
            &&& after.calls == world.calls
            &&& after.only_called_since(world)
            &&& forall|slot: Slot|
                slot != Slot::Scripts && slot != Slot::Text ==> #[trigger] after.at(slot)
                    == world.at(slot)
        }),
    decreases n,
{
    let plan = crate::plan::script_elements(scripts, n);
    if n > 0 {
        let m = (n - 1) as nat;
        let earlier = crate::plan::script_elements(scripts, m);
        let last = plan.skip(earlier.len() as int);
        script_elements_fill_the_array(world, scripts, m, package);
        assert(plan =~= earlier + last);
        crate::effects::after_both(world, earlier, last, 2, package);
        let w0 = world.after_plan(earlier, package);
        let w1 = w0.after(last[0].action, package);
        let w2 = w1.after(last[1].action, package);
        assert(w0.after_steps(last, 0, package) == w0);
        assert(w0.after_steps(last, 1, package) == w1);
        assert(w0.after_steps(last, 2, package) == w2);
        assert(w1.at(Slot::Scripts) == w0.at(Slot::Scripts));
        assert(w1.at(Slot::Text) == Thing::<O>::Text(scripts[n - 1]));
        assert((n - 1) as i32 == n - 1);
        let before = w0.at(Slot::Scripts)->elements;
        assert(w2.at(Slot::Scripts)->elements == before.update(
            n - 1,
            Thing::<O>::Text(scripts[n - 1]),
        ));
        assert(plan.len() == earlier.len() + 2);
        assert forall|slot: Slot| slot != Slot::Scripts && slot != Slot::Text implies
            #[trigger] w2.at(slot) == world.at(slot) by {
            assert(w1.at(slot) == w0.at(slot));
        }
    }
}

#[verifier::spinoff_prover]
#[verifier::rlimit(50)]
proof fn scripts_become_an_array<O>(world: World<O>, scripts: Seq<Seq<char>>, package: Seq<char>)
    requires
        scripts.len() <= i32::MAX,
    ensures
        ({
            let after = world.after_plan(crate::plan::script_steps(scripts), package);
            &&& after.at(Slot::Scripts) == script_array::<O>(scripts)
            &&& after.calls == world.calls
            &&& after.only_called_since(world)
            &&& after.at(Slot::Activity) == world.at(Slot::Activity)
            &&& after.at(Slot::ChromeClient) == world.at(Slot::ChromeClient)
        }),
{
    let plan = crate::plan::script_steps(scripts);
    let first = plan.take(3);
    let elements = crate::plan::script_elements(scripts, scripts.len());
    assert(plan =~= first + elements);
    let w1 = world.after_steps(first, 1, package);
    let w2 = world.after_steps(first, 2, package);
    let w3 = world.after_steps(first, 3, package);
    assert(world.after_steps(first, 0, package) == world);
    assert(w1 == world.after(first[0].action, package));
    assert(w2 == w1.after(first[1].action, package));
    assert(w3 == w2.after(first[2].action, package));
    script_elements_fill_the_array(w3, scripts, scripts.len(), package);
    crate::effects::after_both(world, first, elements, elements.len(), package);
    let after = w3.after_plan(elements, package);
    let filled = after.at(Slot::Scripts);
    assert(filled->elements =~= Seq::new(scripts.len(), |i: int| Thing::<O>::Text(scripts[i])));
}

#[verifier::spinoff_prover]
#[verifier::rlimit(50)]
proof fn webview_is_made<O>(
    world: World<O>,
    activity: O,
    chrome_client: O,
    id: Seq<char>,
    scripts: Seq<Seq<char>>,
    package: Seq<char>,
    autoplay: bool,
)
    requires
        world.at(Slot::Activity) == Thing::Given(activity),
        world.at(Slot::ChromeClient) == Thing::Given(chrome_client),
        world.at(Slot::Scripts) == script_array::<O>(scripts),
    ensures
        ({
            let cast = cast(activity, chrome_client, package, id, scripts);
            just_calls(
                world,
                crate::plan::make_webview_steps(id, package, autoplay),
                package,
                cast,
                cast.makes(package, autoplay),
            )
        }),
{
    let cast = cast(activity, chrome_client, package, id, scripts);
    let plan = crate::plan::make_webview_steps(id, package, autoplay);
    let path = AppClass::RustWebView.path_text(package);
    let first = plan.take(2);
    let find = crate::plan::find_class_steps(path, Slot::WebViewClass);
    let last = plan.skip(5);
    assert(plan =~= first + find + last);
    let w1 = world.after_steps(first, 1, package);
    let w2 = world.after_steps(first, 2, package);
    assert(world.after_steps(first, 0, package) == world);
    assert(w1 == world.after(first[0].action, package));
    assert(w2 == w1.after(first[1].action, package));
    crate::effects::no_values(w1);
    crate::effect_laws::class_is_found(w2, path, Slot::WebViewClass, package);
    crate::effect_laws::path_gets_dots(package, AppClass::RustWebView);
    crate::effects::after_both(world, first, find, 3, package);
    let w5 = w2.after_plan(find, package);
    crate::effects::after_both(world, first + find, last, 3, package);
    let w6 = w5.after_steps(last, 1, package);
    let w7 = w5.after_steps(last, 2, package);
    let w8 = w5.after_steps(last, 3, package);
    assert(w5.after_steps(last, 0, package) == w5);
    assert(w6 == w5.after(last[0].action, package));
    assert(w7 == w6.after(last[1].action, package));
    assert(w8 == w7.after(last[2].action, package));
    crate::effects::three_values(
        w5,
        Arg::Object(Slot::HostActivity),
        Arg::Object(Slot::Scripts),
        Arg::Object(Slot::WebViewId),
    );
    crate::effects::no_values(w6);
    crate::effects::one_value(w7, Arg::Bool(!autoplay));
    assert(w5.at(Slot::HostActivity) == cast.host);
    assert(w5.at(Slot::Scripts) == script_array::<O>(scripts));
    assert(w5.at(Slot::WebViewId) == Thing::<O>::Text(id));
    assert(w6.at(Slot::WebView) == cast.webview);
    assert(w7.at(Slot::Settings) == cast.settings);
    assert(w5.at(Slot::WebViewClass) == cast.webview_class);
    assert(w5.at(Slot::Activity) == cast.activity);
    assert(w5.at(Slot::ChromeClient) == cast.chrome_client);
    assert(w8.places == w7.places);
    assert(w7.at(Slot::WebView) == w6.at(Slot::WebView));
    assert(w7.at(Slot::WebViewClass) == w5.at(Slot::WebViewClass));
    assert(w7.at(Slot::HostActivity) == w5.at(Slot::HostActivity));
    assert(w7.at(Slot::Activity) == w5.at(Slot::Activity));
    assert(w7.at(Slot::ChromeClient) == w5.at(Slot::ChromeClient));
    assert(cast.in_place(w8));
    let k = world.calls.len() as int;
    assert(w5.calls.take(k + 1) == w2.calls);
    assert(w5.calls =~= w2.calls + cast.loads(package, "RustWebView"@));
    assert(w8.calls =~= world.calls + cast.makes(package, autoplay));
}

#[verifier::spinoff_prover]
#[verifier::rlimit(50)]
proof fn settings_are_applied<O>(
    world: World<O>,
    cast: Cast<O>,
    package: Seq<char>,
    user_agent: Option<Seq<char>>,
    javascript_disabled: bool,
    is_child: bool,
)
    requires
        cast.in_place(world),
    ensures
        just_calls(
            world,
            crate::plan::user_agent_steps(user_agent),
            package,
            cast,
            cast.sets_user_agent(user_agent),
        ),
        just_calls(
            world,
            crate::plan::javascript_steps(javascript_disabled),
            package,
            cast,
            cast.sets_javascript(javascript_disabled),
        ),
        just_calls(
            world,
            crate::plan::back_button_steps(is_child),
            package,
            cast,
            cast.takes_back_button(package, is_child),
        ),
{
    let agent = crate::plan::user_agent_steps(user_agent);
    assert(world.after_steps(agent, 0, package) == world);
    if user_agent is Some {
        let w1 = world.after_steps(agent, 1, package);
        assert(w1 == world.after(agent[0].action, package));
        assert(world.after_steps(agent, 2, package) == w1.after(agent[1].action, package));
        crate::effects::one_value(w1, Arg::Object(Slot::UserAgent));
    }
    assert(world.after_plan(agent, package).calls =~= world.calls + cast.sets_user_agent(
        user_agent,
    ));
    let javascript = crate::plan::javascript_steps(javascript_disabled);
    assert(world.after_steps(javascript, 0, package) == world);
    if javascript_disabled {
        assert(world.after_steps(javascript, 1, package) == world.after(
            javascript[0].action,
            package,
        ));
        crate::effects::one_value(world, Arg::Bool(false));
    }
    assert(world.after_plan(javascript, package).calls =~= world.calls + cast.sets_javascript(
        javascript_disabled,
    ));
    let back = crate::plan::back_button_steps(is_child);
    assert(world.after_steps(back, 0, package) == world);
    if !is_child {
        assert(world.after_steps(back, 1, package) == world.after(back[0].action, package));
        crate::effects::one_value(world, Arg::Object(Slot::WebView));
        signatures_name_the_package(package);
    }
    assert(world.after_plan(back, package).calls =~= world.calls + cast.takes_back_button(
        package,
        is_child,
    ));
}

proof fn signatures_name_the_package(package: Seq<char>)
    ensures
        JavaMethod::SetWebView.signature_text(package) == "(L"@ + package + "/RustWebView;)V"@,
        AppClass::RustWebViewClient.constructor_text(package) == "(L"@ + package
            + "/RustWebView;Landroid/content/Context;)V"@,
        AppClass::Ipc.constructor_text(package) == "(L"@ + package + "/RustWebView;L"@ + package
            + "/RustWebViewClient;)V"@,
{
    reveal_strlit("(");
    reveal_strlit("L");
    reveal_strlit("(L");
    reveal_strlit("/");
    reveal_strlit(";");
    reveal_strlit(")V");
    reveal_strlit("RustWebView");
    reveal_strlit("RustWebViewClient");
    reveal_strlit("Landroid/content/Context;)V");
    reveal_strlit("/RustWebView;)V");
    reveal_strlit("/RustWebView;Landroid/content/Context;)V");
    reveal_strlit("/RustWebView;L");
    reveal_strlit("/RustWebViewClient;)V");
    assert(JavaMethod::SetWebView.signature_text(package) =~= "(L"@ + package
        + "/RustWebView;)V"@);
    assert(AppClass::RustWebViewClient.constructor_text(package) =~= "(L"@ + package
        + "/RustWebView;Landroid/content/Context;)V"@);
    assert(AppClass::Ipc.constructor_text(package) =~= "(L"@ + package + "/RustWebView;L"@ + package
        + "/RustWebViewClient;)V"@);
}

/// The calls that open the first page.
spec fn opening<O>(
    world: World<O>,
    url: Option<Seq<char>>,
    html: Option<Seq<char>>,
    headers: Option<http::HeaderMap>,
    package: Seq<char>,
) -> Seq<Call<O>> {
    let plan = crate::plan::navigation_steps(url, html, crate::plan::header_pairs(headers));
    world.after_plan(plan, package).calls.skip(world.calls.len() as int)
}

#[verifier::spinoff_prover]
#[verifier::rlimit(50)]
proof fn first_page_is_opened<O>(
    world: World<O>,
    cast: Cast<O>,
    url: Option<Seq<char>>,
    html: Option<Seq<char>>,
    headers: Option<http::HeaderMap>,
    package: Seq<char>,
)
    requires
        cast.in_place(world),
    ensures
        ({
            let plan = crate::plan::navigation_steps(url, html, crate::plan::header_pairs(headers));
            let calls = opening(world, url, html, headers, package);
            &&& just_calls(world, plan, package, cast, calls)
            &&& cast.opens(calls, url, html, headers)
        }),
{
    let pairs = crate::plan::header_pairs(headers);
    let plan = crate::plan::navigation_steps(url, html, pairs);
    let calls = opening(world, url, html, headers, package);
    match url {
        Some(text) => {
            let first = plan.take(1);
            let load = crate::plan::load_url_steps(pairs, true);
            assert(plan =~= first + load);
            let w1 = world.after_plan(first, package);
            assert(world.after_steps(first, 0, package) == world);
            assert(w1 == world.after(first[0].action, package));
            crate::effect_laws::loading_hands_over(w1, headers, true, package);
            crate::effects::after_both(world, first, load, load.len(), package);
            let after = w1.after_plan(load, package);
            assert(after.calls == world.calls.push(after.calls.last()));
            assert(calls =~= seq![after.calls.last()]);
            assert(after.calls =~= world.calls + calls);
            assert(w1.at(Slot::WebView) == cast.webview);
            assert(w1.at(Slot::Url) == Thing::<O>::Text(text));
            assert(after.at(Slot::Activity) == w1.at(Slot::Activity));
            assert(after.at(Slot::ChromeClient) == w1.at(Slot::ChromeClient));
            assert(after.at(Slot::HostActivity) == w1.at(Slot::HostActivity));
            assert(after.at(Slot::WebViewClass) == w1.at(Slot::WebViewClass));
            assert(after.at(Slot::WebView) == w1.at(Slot::WebView));
            assert(after.at(Slot::Settings) == w1.at(Slot::Settings));
        },
        None => match html {
            Some(text) => {
                let w1 = world.after_steps(plan, 1, package);
                let w2 = world.after_steps(plan, 2, package);
                assert(world.after_steps(plan, 0, package) == world);
                assert(w1 == world.after(plan[0].action, package));
                assert(w2 == w1.after(plan[1].action, package));
                crate::effects::one_value(w1, Arg::Object(Slot::Html));
                assert(calls =~= seq![w2.calls.last()]);
                assert(w2.calls =~= world.calls + calls);
            },
            None => {
                assert(world.after_steps(plan, 0, package) == world);
                assert(calls =~= Seq::empty());
                assert(world.calls =~= world.calls + calls);
            },
        },
    }
}

/// The calls that set the first background.
spec fn colouring<O>(cast: Cast<O>, transparent: bool, color: Option<RGBA>) -> Seq<Call<O>> {
    let wanted = if transparent {
        Some((0u8, 0u8, 0u8, 0u8))
    } else {
        color
    };
    match wanted {
        Some(c) => seq![
            call(
                cast.webview,
                "setBackgroundColor"@,
                "(I)V"@,
                seq![Thing::Int(crate::color::argb(c) as i32)],
            ),
        ],
        None => Seq::empty(),
    }
}

#[verifier::spinoff_prover]
#[verifier::rlimit(50)]
proof fn look_is_applied<O>(
    world: World<O>,
    cast: Cast<O>,
    package: Seq<char>,
    devtools: Option<bool>,
    transparent: bool,
    color: Option<RGBA>,
)
    requires
        cast.in_place(world),
    ensures
        just_calls(
            world,
            crate::plan::devtools_steps(devtools),
            package,
            cast,
            cast.sets_devtools(devtools),
        ),
        just_calls(
            world,
            crate::plan::background_steps(transparent, color),
            package,
            cast,
            colouring(cast, transparent, color),
        ),
        cast.sets_background(colouring(cast, transparent, color), transparent, color),
{
    let tools = crate::plan::devtools_steps(devtools);
    assert(world.after_steps(tools, 0, package) == world);
    if devtools is Some {
        assert(world.after_steps(tools, 1, package) == world.after(tools[0].action, package));
        crate::effects::one_value(world, Arg::Bool(devtools->0));
    }
    assert(world.after_plan(tools, package).calls =~= world.calls + cast.sets_devtools(devtools));
    let background = crate::plan::background_steps(transparent, color);
    assert(world.after_steps(background, 0, package) == world);
    let wanted = if transparent {
        Some((0u8, 0u8, 0u8, 0u8))
    } else {
        color
    };
    if let Some(c) = wanted {
        assert(world.after_steps(background, 1, package) == world.after(
            background[0].action,
            package,
        ));
        crate::effects::one_value(world, Arg::Int(crate::color::argb(c) as i32));
        crate::effect_laws::colour_is_argb(c);
    }
    assert(world.after_plan(background, package).calls =~= world.calls + colouring(
        cast,
        transparent,
        color,
    ));
}

#[verifier::spinoff_prover]
#[verifier::rlimit(60)]
proof fn clients_are_set<O>(world: World<O>, cast: Cast<O>, package: Seq<char>)
    requires
        cast.in_place(world),
    ensures
        just_calls(
            world,
            crate::plan::client_steps(package),
            package,
            cast,
            cast.sets_clients(package),
        ),
{
    let plan = crate::plan::client_steps(package);
    let client_path = AppClass::RustWebViewClient.path_text(package);
    let ipc_path = AppClass::Ipc.path_text(package);
    let find_client = crate::plan::find_class_steps(client_path, Slot::ClientClass);
    let middle = plan.subrange(3, 6);
    let find_ipc = crate::plan::find_class_steps(ipc_path, Slot::IpcClass);
    let last = plan.skip(9);
    assert(plan =~= find_client + middle + find_ipc + last);
    crate::effect_laws::class_is_found(world, client_path, Slot::ClientClass, package);
    crate::effect_laws::path_gets_dots(package, AppClass::RustWebViewClient);
    let w3 = world.after_plan(find_client, package);
    assert(cast.in_place(w3));
    crate::effects::after_both(world, find_client, middle, 3, package);
    let w4 = w3.after_steps(middle, 1, package);
    let w5 = w3.after_steps(middle, 2, package);
    let w6 = w3.after_steps(middle, 3, package);
    assert(w3.after_steps(middle, 0, package) == w3);
    assert(w4 == w3.after(middle[0].action, package));
    assert(w5 == w4.after(middle[1].action, package));
    assert(w6 == w5.after(middle[2].action, package));
    crate::effects::two_values(
        w3,
        Arg::Object(Slot::WebView),
        Arg::Object(Slot::HostActivity),
    );
    signatures_name_the_package(package);
    crate::effects::one_value(w4, Arg::Object(Slot::Client));
    crate::effects::one_value(w5, Arg::Object(Slot::ChromeClient));
    assert(w4.at(Slot::Client) == cast.client(package));
    assert(cast.in_place(w4));
    assert(w6.places == w4.places);
    crate::effect_laws::class_is_found(w6, ipc_path, Slot::IpcClass, package);
    crate::effect_laws::path_gets_dots(package, AppClass::Ipc);
    let w9 = w6.after_plan(find_ipc, package);
    crate::effects::after_both(world, find_client + middle, find_ipc, 3, package);
    assert(w9.at(Slot::Client) == cast.client(package));
    assert(cast.in_place(w9));
    crate::effects::after_both(world, find_client + middle + find_ipc, last, 3, package);
    let w10 = w9.after_steps(last, 1, package);
    let w11 = w9.after_steps(last, 2, package);
    let w12 = w9.after_steps(last, 3, package);
    assert(w9.after_steps(last, 0, package) == w9);
    assert(w10 == w9.after(last[0].action, package));
    assert(w11 == w10.after(last[1].action, package));
    assert(w12 == w11.after(last[2].action, package));
    crate::effects::two_values(w9, Arg::Object(Slot::WebView), Arg::Object(Slot::Client));
    crate::effects::two_values(w11, Arg::Object(Slot::Ipc), Arg::Object(Slot::IpcName));
    assert(w10.at(Slot::Ipc) == cast.ipc(package));
    assert(w11.at(Slot::Ipc) == w10.at(Slot::Ipc));
    assert(cast.in_place(w10));
    assert(cast.in_place(w11));
    assert(cast.in_place(w12));
    assert(w3.calls =~= world.calls + cast.loads(package, "RustWebViewClient"@));
    assert(w9.calls =~= w6.calls + cast.loads(package, "Ipc"@));
    assert(w12.calls =~= world.calls + cast.sets_clients(package));
}

#[verifier::spinoff_prover]
#[verifier::rlimit(50)]
proof fn webview_is_mounted<O>(
    world: World<O>,
    cast: Cast<O>,
    package: Seq<char>,
    is_child: bool,
    bounds: Option<Rect>,
)
    requires
        cast.in_place(world),
    ensures
        just_calls(
            world,
            crate::plan::mount_steps(is_child, bounds),
            package,
            cast,
            cast.mounts(is_child, bounds),
        ),
{
    let plan = crate::plan::mount_steps(is_child, bounds);
    if is_child {
        let density = crate::plan::display_density_steps();
        let last = plan.skip(3);
        assert(plan =~= density + last);
        crate::effect_laws::density_is_read(world, package);
        let w3 = world.after_plan(density, package);
        assert(cast.in_place(w3));
        crate::effects::after_both(world, density, last, last.len(), package);
        let w4 = w3.after_steps(last, 1, package);
        assert(w3.after_steps(last, 0, package) == w3);
        assert(w4 == w3.after(last[0].action, package));
        assert(w3.calls =~= world.calls + seq![
            w3.calls[world.calls.len() as int],
            w3.calls[world.calls.len() as int + 1],
        ]);
        match bounds {
            Some(rect) => {
                let w5 = w3.after_steps(last, 2, package);
                assert(w5 == w4.after(last[1].action, package));
                assert(cast.in_place(w4));
                crate::effects::five_values(
                    w4,
                    Arg::Object(Slot::WebView),
                    Arg::X,
                    Arg::Y,
                    Arg::Width,
                    Arg::Height,
                );
                assert(w5.calls =~= world.calls + cast.mounts(is_child, bounds));
            },
            None => {
                crate::effects::five_values(
                    w3,
                    Arg::Object(Slot::WebView),
                    Arg::Int(0),
                    Arg::Int(0),
                    Arg::Int((-1) as i32),
                    Arg::Int((-1) as i32),
                );
                assert(w4.calls =~= world.calls + cast.mounts(is_child, bounds));
            },
        }
    } else {
        assert(world.after_steps(plan, 0, package) == world);
        assert(world.after_steps(plan, 1, package) == world.after(plan[0].action, package));
        crate::effects::one_value(world, Arg::Object(Slot::WebView));
        assert(world.after_plan(plan, package).calls =~= world.calls + cast.mounts(
            is_child,
            bounds,
        ));
    }
}

/// One more part of a creation.
proof fn part_is_performed<O>(
    start: World<O>,
    plan: Seq<StepView>,
    part: Seq<StepView>,
    package: Seq<char>,
)
    ensures
        start.after_plan(plan + part, package) == start.after_plan(plan, package).after_plan(
            part,
            package,
        ),
{
    crate::effects::after_both(start, plan, part, part.len(), package);
}

/// Whether `seen` is what Java gets to see of the creation of a webview for its attributes, each
/// thing once and in this order: the webview is made on the host of the activity, its settings are
/// applied, it takes the back button unless it is a child, the first page is opened, the developer
/// tools and the background are set, it gets its clients, and it is mounted. Waiting code is run
/// with the activity and the webview, and the webview is the one object that is kept.
pub open spec fn created_as_asked<O, H: Host>(
    seen: World<O>,
    attributes: CreateWebViewAttributes<H>,
    activity: O,
    client: O,
    package: Seq<char>,
) -> bool {
    let scripts = Seq::new(
        attributes.initialization_scripts@.len(),
        |i: int| attributes.initialization_scripts@[i].script@,
    );
    let cast = cast(activity, client, package, attributes.id@, scripts);
    &&& exists|opening: Seq<Call<O>>, colouring: Seq<Call<O>>|
        {
            &&& #[trigger] cast.opens(
                opening,
                text_of(attributes.url),
                text_of(attributes.html),
                attributes.headers,
            )
            &&& #[trigger] cast.sets_background(
                colouring,
                attributes.transparent,
                attributes.background_color,
            )
            &&& seen.calls == cast.makes(package, attributes.autoplay) + cast.sets_user_agent(
                text_of(attributes.user_agent),
            ) + cast.sets_javascript(attributes.javascript_disabled) + cast.takes_back_button(
                package,
                attributes.is_child,
            ) + opening + cast.sets_devtools(attributes.devtools) + colouring + cast.sets_clients(
                package,
            ) + cast.mounts(attributes.is_child, attributes.bounds)
        }
    &&& seen.hooks == if attributes.on_webview_created is Some {
        seq![(cast.activity, cast.webview)]
    } else {
        Seq::empty()
    }
    &&& seen.kept == seq![cast.webview]
    &&& seen.read.len() == 0
    &&& seen.numbers.len() == 0
}

/// The creation of a webview does what its attributes ask for.
pub proof fn creation_does_what_was_asked<H: Host>(
    registries: RegistriesView<H>,
    activity_id: ActivityId,
    attributes: Arc<CreateWebViewAttributes<H>>,
    any: Option<Arc<H::Object>>,
)
    requires
        registries.activities.contains_key(activity_id),
        registries.package is Some,
        attributes.initialization_scripts@.len() <= i32::MAX,
    ensures
        ({
            let task = registries.handling(
                activity_id,
                WebViewMessage::<H>::CreateWebView(attributes),
                any,
            );
            let proxy = registries.activities[activity_id];
            &&& created_as_asked(
                crate::effects::java_sees(task),
                *attributes,
                proxy.activity,
                proxy.webchrome_client,
                registries.package->0,
            )
            &&& task.completion == (Completion::<H, Seq<char>>::Created { activity_id, attributes })
        }),
{
    let proxy = registries.activities[activity_id];
    steps_create_as_asked(
        proxy.activity,
        proxy.webchrome_client,
        &attributes,
        registries.package->0,
    );
}

/// A creation with a URL opens that very URL; one with a page text and no URL opens that very
/// text.
pub proof fn first_page_is_the_one_asked_for<H: Host>(
    registries: RegistriesView<H>,
    activity_id: ActivityId,
    attributes: Arc<CreateWebViewAttributes<H>>,
    any: Option<Arc<H::Object>>,
)
    requires
        registries.activities.contains_key(activity_id),
        registries.package is Some,
        attributes.initialization_scripts@.len() <= i32::MAX,
        attributes.url is Some || attributes.html is Some,
    ensures
        ({
            let task = registries.handling(
                activity_id,
                WebViewMessage::<H>::CreateWebView(attributes),
                any,
            );
            let seen = crate::effects::java_sees(task);
            exists|i: int|
                {
                    &&& 0 <= i < seen.calls.len()
                    &&& (#[trigger] seen.calls[i]).target == seen.kept[0]
                    &&& match attributes.url {
                        Some(url) => seen.calls[i].method == "loadUrlMainThread"@
                            && seen.calls[i].arguments[0] == Thing::<Arc<H::Object>>::Text(url@),
                        None => seen.calls[i].method == "loadHTMLMainThread"@
                            && seen.calls[i].arguments[0] == Thing::<Arc<H::Object>>::Text(
                            attributes.html->0@,
                        ),
                    }
                }
        }),
{
    creation_does_what_was_asked(registries, activity_id, attributes, any);
    let task = registries.handling(
        activity_id,
        WebViewMessage::<H>::CreateWebView(attributes),
        any,
    );
    let seen = crate::effects::java_sees(task);
    let proxy = registries.activities[activity_id];
    page_is_among_the_calls(
        seen,
        &attributes,
        proxy.activity,
        proxy.webchrome_client,
        registries.package->0,
    );
}

#[verifier::spinoff_prover]
#[verifier::rlimit(50)]
proof fn page_is_among_the_calls<O, H: Host>(
    seen: World<O>,
    attributes: &CreateWebViewAttributes<H>,
    activity: O,
    client: O,
    package: Seq<char>,
)
    requires
        created_as_asked(seen, *attributes, activity, client, package),
        attributes.url is Some || attributes.html is Some,
    ensures
        exists|i: int|
            {
                &&& 0 <= i < seen.calls.len()
                &&& (#[trigger] seen.calls[i]).target == seen.kept[0]
                &&& match attributes.url {
                    Some(url) => seen.calls[i].method == "loadUrlMainThread"@
                        && seen.calls[i].arguments[0] == Thing::<O>::Text(url@),
                    None => seen.calls[i].method == "loadHTMLMainThread"@
                        && seen.calls[i].arguments[0] == Thing::<O>::Text(attributes.html->0@),
                }
            },
{
    let scripts = Seq::new(
        attributes.initialization_scripts@.len(),
        |i: int| attributes.initialization_scripts@[i].script@,
    );
    let cast = cast(activity, client, package, attributes.id@, scripts);
    let before = cast.makes(package, attributes.autoplay) + cast.sets_user_agent(
        text_of(attributes.user_agent),
    ) + cast.sets_javascript(attributes.javascript_disabled) + cast.takes_back_button(
        package,
        attributes.is_child,
    );
    let (opening, colouring) = choose|opening: Seq<Call<O>>, colouring: Seq<Call<O>>|
        {
            &&& #[trigger] cast.opens(
                opening,
                text_of(attributes.url),
                text_of(attributes.html),
                attributes.headers,
            )
            &&& #[trigger] cast.sets_background(
                colouring,
                attributes.transparent,
                attributes.background_color,
            )
            &&& seen.calls == before + opening + cast.sets_devtools(attributes.devtools) + colouring
                + cast.sets_clients(package) + cast.mounts(attributes.is_child, attributes.bounds)
        };
    assert(seen.calls[before.len() as int] == opening[0]);
}

#[verifier::spinoff_prover]
#[verifier::rlimit(60)]
proof fn steps_create_as_asked<O, H: Host>(
    activity: O,
    client: O,
    attributes: &CreateWebViewAttributes<H>,
    package: Seq<char>,
)
    requires
        attributes.initialization_scripts@.len() <= i32::MAX,
    ensures
        created_as_asked(
            World::start(Some(activity), None, Some(client)).after_plan(
                crate::plan::create_steps(*attributes, package),
                package,
            ),
            *attributes,
            activity,
            client,
            package,
        ),
{
    let scripts = Seq::new(
        attributes.initialization_scripts@.len(),
        |i: int| attributes.initialization_scripts@[i].script@,
    );
    assert(crate::attributes::script_texts(attributes.initialization_scripts@) =~= scripts);
    let cast = cast(activity, client, package, attributes.id@, scripts);
    let url = crate::plan::optional(attributes.url);
    let html = crate::plan::optional(attributes.html);
    let agent = crate::plan::optional(attributes.user_agent);
    let pairs = crate::plan::header_pairs(attributes.headers);
    let start = World::start(Some(activity), None::<O>, Some(client));

    let p1 = crate::plan::script_steps(scripts);
    let s2 = crate::plan::make_webview_steps(attributes.id@, package, attributes.autoplay);
    let s3 = crate::plan::user_agent_steps(agent);
    let s4 = crate::plan::javascript_steps(attributes.javascript_disabled);
    let s5 = crate::plan::back_button_steps(attributes.is_child);
    let s6 = crate::plan::navigation_steps(url, html, pairs);
    let s7 = crate::plan::devtools_steps(attributes.devtools);
    let s8 = crate::plan::background_steps(attributes.transparent, attributes.background_color);
    let s9 = crate::plan::client_steps(package);
    let s10 = crate::plan::mount_steps(attributes.is_child, attributes.bounds);
    let s11 = crate::plan::hook_steps(attributes.on_webview_created is Some);
    let s12 = crate::plan::keep_steps();
    let p2 = p1 + s2;
    let p3 = p2 + s3;
    let p4 = p3 + s4;
    let p5 = p4 + s5;
    let p6 = p5 + s6;
    let p7 = p6 + s7;
    let p8 = p7 + s8;
    let p9 = p8 + s9;
    let p10 = p9 + s10;
    let p11 = p10 + s11;
    let p12 = p11 + s12;
    assert(crate::plan::create_steps(*attributes, package) == p12);

    let w1 = start.after_plan(p1, package);
    scripts_become_an_array(start, scripts, package);
    let w2 = w1.after_plan(s2, package);
    part_is_performed(start, p1, s2, package);
    webview_is_made(
        w1,
        activity,
        client,
        attributes.id@,
        scripts,
        package,
        attributes.autoplay,
    );
    let c2 = cast.makes(package, attributes.autoplay);
    assert(w2.calls =~= c2);
    let w3 = w2.after_plan(s3, package);
    part_is_performed(start, p2, s3, package);
    settings_are_applied(
        w2,
        cast,
        package,
        agent,
        attributes.javascript_disabled,
        attributes.is_child,
    );
    let c3 = c2 + cast.sets_user_agent(agent);
    let w4 = w3.after_plan(s4, package);
    part_is_performed(start, p3, s4, package);
    settings_are_applied(
        w3,
        cast,
        package,
        agent,
        attributes.javascript_disabled,
        attributes.is_child,
    );
    let c4 = c3 + cast.sets_javascript(attributes.javascript_disabled);
    let w5 = w4.after_plan(s5, package);
    part_is_performed(start, p4, s5, package);
    settings_are_applied(
        w4,
        cast,
        package,
        agent,
        attributes.javascript_disabled,
        attributes.is_child,
    );
    let c5 = c4 + cast.takes_back_button(package, attributes.is_child);
    let w6 = w5.after_plan(s6, package);
    part_is_performed(start, p5, s6, package);
    first_page_is_opened(w5, cast, url, html, attributes.headers, package);
    let opened = opening(w5, url, html, attributes.headers, package);
    let c6 = c5 + opened;
    let w7 = w6.after_plan(s7, package);
    part_is_performed(start, p6, s7, package);
    look_is_applied(
        w6,
        cast,
        package,
        attributes.devtools,
        attributes.transparent,
        attributes.background_color,
    );
    let c7 = c6 + cast.sets_devtools(attributes.devtools);
    let w8 = w7.after_plan(s8, package);
    part_is_performed(start, p7, s8, package);
    look_is_applied(
        w7,
        cast,
        package,
        attributes.devtools,
        attributes.transparent,
        attributes.background_color,
    );
    let coloured = colouring(cast, attributes.transparent, attributes.background_color);
    let c8 = c7 + coloured;
    let w9 = w8.after_plan(s9, package);
    part_is_performed(start, p8, s9, package);
    clients_are_set(w8, cast, package);
    let c9 = c8 + cast.sets_clients(package);
    let w10 = w9.after_plan(s10, package);
    part_is_performed(start, p9, s10, package);
    webview_is_mounted(w9, cast, package, attributes.is_child, attributes.bounds);
    let c10 = c9 + cast.mounts(attributes.is_child, attributes.bounds);
    assert(w10.calls == c10);
    let w11 = w10.after_plan(s11, package);
    part_is_performed(start, p10, s11, package);
    assert(w10.after_steps(s11, 0, package) == w10);
    if attributes.on_webview_created is Some {
        assert(w10.after_steps(s11, 1, package) == w10.after(s11[0].action, package));
        assert(w11.hooks =~= seq![(cast.activity, cast.webview)]);
    }
    let w12 = w11.after_plan(s12, package);
    part_is_performed(start, p11, s12, package);
    assert(w11.after_steps(s12, 0, package) == w11);
    assert(w11.after_steps(s12, 1, package) == w11.after(s12[0].action, package));
    assert(w12.kept =~= seq![cast.webview]);
    assert(start.after_plan(p12, package) == w12);
    assert(w12.calls == c10);
    assert(cast.opens(opened, text_of(attributes.url), text_of(attributes.html), attributes.headers));
    assert(cast.sets_background(coloured, attributes.transparent, attributes.background_color));
}

/// The contents of an optional text.
pub open spec fn text_of(text: Option<String>) -> Option<Seq<char>> {
    match text {
        Some(t) => Some(t@),
        None => None,
    }
}

/// Whether an action opens the first page.
pub open spec fn opens_page(action: JniAction<Seq<char>, Seq<Arg>>) -> bool {
    match action {
        JniAction::CallVoid { target: _, method, arguments: _ } => {
            method.name_text() == "loadUrlMainThread"@ || method.name_text()
                == "loadHTMLMainThread"@
        },
        _ => false,
    }
}

/// Whether the failure of step `i` has the right consequence. A page that is no Java string is not
/// opened, and all else goes on. A density that cannot be read is not read, and all else goes on.
/// Waiting code that fails changes nothing. Any other failure ends the creation.
pub open spec fn fails_rightly(plan: Seq<StepView>, i: int) -> bool {
    match plan[i].action {
        JniAction::NewString { text: _, into } => if into == Slot::Url || into == Slot::Html {
            &&& plan[i].on_error matches OnError::Skip(n)
            &&& 0 < n < plan.len() - i
            &&& opens_page(plan[i + n].action)
            &&& forall|j: int| i < j < i + n ==> !opens_page((#[trigger] plan[j]).action)
        } else {
            plan[i].on_error == OnError::Return
        },
        JniAction::CallObject { target: _, method, arguments: _, into } => {
            if into == Slot::Resources {
                &&& plan[i].on_error == OnError::Skip(2)
                &&& i + 2 < plan.len()
                &&& plan[i + 2].action is ReadDensity
            } else if into == Slot::DisplayMetrics {
                &&& plan[i].on_error == OnError::Skip(1)
                &&& i + 1 < plan.len()
                &&& plan[i + 1].action is ReadDensity
            } else {
                plan[i].on_error == OnError::Return
            }
        },
        JniAction::ReadDensity { from: _ } => plan[i].on_error == OnError::Skip(0),
        JniAction::RunCreatedHook => plan[i].on_error == OnError::Skip(0),
        _ => plan[i].on_error == OnError::Return,
    }
}

/// Whether the failure of every step has the right consequence.
pub open spec fn all_fail_rightly(plan: Seq<StepView>) -> bool {
    forall|i: int| 0 <= i < plan.len() ==> #[trigger] fails_rightly(plan, i)
}

proof fn both_fail_rightly(a: Seq<StepView>, b: Seq<StepView>)
    requires
        all_fail_rightly(a),
        all_fail_rightly(b),
    ensures
        all_fail_rightly(a + b),
{
    let ab = a + b;
    assert forall|i: int| 0 <= i < ab.len() implies #[trigger] fails_rightly(ab, i) by {
        if i < a.len() {
            assert(fails_rightly(a, i));
            assert(ab[i] == a[i]);
            match a[i].on_error {
                OnError::Skip(n) => {
                    if i + n < a.len() {
                        assert(ab[i + n] == a[i + n]);
                        assert forall|j: int| i < j < i + n implies #[trigger] ab[j] == a[j] by {}
                    }
                },
                _ => {},
            }
        } else {
            let k = i - a.len();
            assert(fails_rightly(b, k));
            assert(ab[i] == b[k]);
            match b[k].on_error {
                OnError::Skip(n) => {
                    if k + n < b.len() {
                        assert(ab[i + n] == b[k + n]);
                        assert forall|j: int| i < j < i + n implies #[trigger] ab[j] == b[j
                            - a.len()] by {}
                    }
                },
                _ => {},
            }
        }
    }
}

proof fn header_elements_are_quiet(headers: Seq<(Seq<char>, Seq<char>)>, n: nat)
    ensures
        all_fail_rightly(crate::plan::header_elements(headers, n)),
        forall|i: int|
            0 <= i < crate::plan::header_elements(headers, n).len() ==> !opens_page(
                (#[trigger] crate::plan::header_elements(headers, n)[i]).action,
            ),
    decreases n,
{
    if n > 0 {
        let m = (n - 1) as nat;
        header_elements_are_quiet(headers, m);
        let plan = crate::plan::header_elements(headers, n);
        let earlier = crate::plan::header_elements(headers, m);
        let last = plan.skip(earlier.len() as int);
        assert(plan =~= earlier + last);
        assert(fails_rightly(last, 0) && fails_rightly(last, 1) && fails_rightly(last, 2));
        both_fail_rightly(earlier, last);
        assert forall|i: int| 0 <= i < plan.len() implies !opens_page(
            (#[trigger] plan[i]).action,
        ) by {
            if i < earlier.len() {
                assert(plan[i] == earlier[i]);
            }
        }
    }
}

proof fn script_elements_fail_rightly(scripts: Seq<Seq<char>>, n: nat)
    ensures
        all_fail_rightly(crate::plan::script_elements(scripts, n)),
    decreases n,
{
    if n > 0 {
        let m = (n - 1) as nat;
        script_elements_fail_rightly(scripts, m);
        let plan = crate::plan::script_elements(scripts, n);
        let earlier = crate::plan::script_elements(scripts, m);
        let last = plan.skip(earlier.len() as int);
        assert(plan =~= earlier + last);
        assert(fails_rightly(last, 0) && fails_rightly(last, 1));
        both_fail_rightly(earlier, last);
    }
}

proof fn page_fails_rightly(
    url: Option<Seq<char>>,
    html: Option<Seq<char>>,
    headers: Option<Seq<(Seq<char>, Seq<char>)>>,
)
    requires
        crate::plan::navigation_steps(url, html, headers).len() <= usize::MAX,
    ensures
        all_fail_rightly(crate::plan::navigation_steps(url, html, headers)),
{
    let plan = crate::plan::navigation_steps(url, html, headers);
    match url {
        Some(_) => {
            let load = crate::plan::load_url_steps(headers, true);
            assert(plan.skip(1) =~= load);
            match headers {
                Some(h) => {
                    let elements = crate::plan::header_elements(h, h.len());
                    header_elements_are_quiet(h, h.len());
                    crate::effect_laws::header_elements_must(h, h.len());
                    assert forall|j: int| 0 < j < plan.len() - 1 implies !opens_page(
                        (#[trigger] plan[j]).action,
                    ) && plan[j].on_error == OnError::Return && fails_rightly(plan, j) by {
                        if j >= 3 {
                            assert(plan[j] == elements[j - 3]);
                            assert(fails_rightly(elements, j - 3));
                        }
                    }
                },
                None => {},
            }
            assert(opens_page(plan.last().action));
            assert(fails_rightly(plan, 0));
            assert(fails_rightly(plan, plan.len() - 1));
        },
        None => match html {
            Some(_) => {
                assert(opens_page(plan[1].action));
                assert(fails_rightly(plan, 0));
                assert(fails_rightly(plan, 1));
            },
            None => {},
        },
    }
}

/// The failure of every step of a creation has the right consequence.
#[verifier::spinoff_prover]
#[verifier::rlimit(60)]
pub proof fn creation_fails_rightly<H: Host>(
    attributes: &CreateWebViewAttributes<H>,
    package: Seq<char>,
)
    requires
        crate::plan::create_steps(*attributes, package).len() <= usize::MAX,
    ensures
        all_fail_rightly(crate::plan::create_steps(*attributes, package)),
{
    let scripts = crate::attributes::script_texts(attributes.initialization_scripts@);
    let p1 = crate::plan::script_steps(scripts);
    let s2 = crate::plan::make_webview_steps(attributes.id@, package, attributes.autoplay);
    let s3 = crate::plan::user_agent_steps(crate::plan::optional(attributes.user_agent));
    let s4 = crate::plan::javascript_steps(attributes.javascript_disabled);
    let s5 = crate::plan::back_button_steps(attributes.is_child);
    let url = crate::plan::optional(attributes.url);
    let html = crate::plan::optional(attributes.html);
    let pairs = crate::plan::header_pairs(attributes.headers);
    let s6 = crate::plan::navigation_steps(url, html, pairs);
    let s7 = crate::plan::devtools_steps(attributes.devtools);
    let s8 = crate::plan::background_steps(attributes.transparent, attributes.background_color);
    let s9 = crate::plan::client_steps(package);
    let s10 = crate::plan::mount_steps(attributes.is_child, attributes.bounds);
    let s11 = crate::plan::hook_steps(attributes.on_webview_created is Some);
    let s12 = crate::plan::keep_steps();
    let elements = crate::plan::script_elements(scripts, scripts.len());
    let first = p1.take(3);
    assert(p1 =~= first + elements);
    assert(fails_rightly(first, 0) && fails_rightly(first, 1) && fails_rightly(first, 2));
    script_elements_fail_rightly(scripts, scripts.len());
    both_fail_rightly(first, elements);
    assert(all_fail_rightly(s2));
    both_fail_rightly(p1, s2);
    assert(all_fail_rightly(s3));
    both_fail_rightly(p1 + s2, s3);
    assert(all_fail_rightly(s4));
    both_fail_rightly(p1 + s2 + s3, s4);
    assert(all_fail_rightly(s5));
    both_fail_rightly(p1 + s2 + s3 + s4, s5);
    let p5 = p1 + s2 + s3 + s4 + s5;
    page_fails_rightly(url, html, pairs);
    both_fail_rightly(p5, s6);
    assert(all_fail_rightly(s7));
    both_fail_rightly(p5 + s6, s7);
    assert(all_fail_rightly(s8));
    both_fail_rightly(p5 + s6 + s7, s8);
    let p8 = p5 + s6 + s7 + s8;
    assert(all_fail_rightly(s9));
    both_fail_rightly(p8, s9);
    assert(all_fail_rightly(s10)) by {
        assert forall|i: int| 0 <= i < s10.len() implies #[trigger] fails_rightly(s10, i) by {
            assert(i == 0 || i == 1 || i == 2 || i == 3 || i == 4);
        }
    }
    both_fail_rightly(p8 + s9, s10);
    assert(all_fail_rightly(s11));
    both_fail_rightly(p8 + s9 + s10, s11);
    assert(all_fail_rightly(s12));
    both_fail_rightly(p8 + s9 + s10 + s11, s12);
}

} // verus!
