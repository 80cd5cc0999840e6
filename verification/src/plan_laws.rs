//! What holds of the steps of every message.
use crate::action::{JniAction, OnError, StepView};
use crate::attributes::{CreateWebViewAttributes, Rect, RGBA};
use crate::host::Host;
use crate::java::JavaMethod;
use vstd::prelude::*;

verus! {

/// Whether no failure leaves steps out.
pub open spec fn strict(plan: Seq<StepView>) -> bool {
    forall|i: int| 0 <= i < plan.len() ==> !((#[trigger] plan[i]).on_error is Skip)
}

/// Whether a step calls `method`.
pub open spec fn is_call(step: StepView, method: JavaMethod) -> bool {
    match step.action {
        JniAction::CallObject { target: _, method: m, arguments: _, into: _ } => m == method,
        JniAction::CallVoid { target: _, method: m, arguments: _ } => m == method,
        JniAction::CallStaticVoid { class: _, method: m, arguments: _ } => m == method,
        JniAction::CallInt { target: _, method: m } => m == method,
        _ => false,
    }
}

/// Whether one of the steps calls `method`.
pub open spec fn calls(plan: Seq<StepView>, method: JavaMethod) -> bool {
    exists|i: int| 0 <= i < plan.len() && is_call(#[trigger] plan[i], method)
}

/// Whether a plan neither mounts a webview nor gives it the back button.
pub open spec fn mounts_nothing(plan: Seq<StepView>) -> bool {
    forall|i: int|
        0 <= i < plan.len() ==> !is_call(#[trigger] plan[i], JavaMethod::AddChildWebView)
            && !is_call(plan[i], JavaMethod::SetContentView) && !is_call(
            plan[i],
            JavaMethod::SetWebView,
        )
}

pub(crate) proof fn strict_skips_soundly(plan: Seq<StepView>)
    requires
        strict(plan),
    ensures
        crate::run::skips_soundly(plan),
{
}

pub(crate) proof fn both_skip_soundly(a: Seq<StepView>, b: Seq<StepView>)
    requires
        crate::run::skips_soundly(a),
        crate::run::skips_soundly(b),
    ensures
        crate::run::skips_soundly(a + b),
{
    let ab = a + b;
    assert forall|i: int| 0 <= i < ab.len() implies match (#[trigger] ab[i]).on_error {
        OnError::Skip(n) => i + 1 + n <= ab.len() && crate::run::silent(ab.subrange(i, i + 1 + n)),
        _ => true,
    } by {
        match ab[i].on_error {
            OnError::Skip(n) => {
                if i < a.len() {
                    assert(a[i] == ab[i]);
                    assert(ab.subrange(i, i + 1 + n) =~= a.subrange(i, i + 1 + n));
                } else {
                    let k = i - a.len();
                    assert(b[k] == ab[i]);
                    assert(ab.subrange(i, i + 1 + n) =~= b.subrange(k, k + 1 + n));
                }
            },
            _ => {},
        }
    }
}

proof fn both_silent(a: Seq<StepView>, b: Seq<StepView>)
    requires
        crate::run::silent(a),
        crate::run::silent(b),
    ensures
        crate::run::silent(a + b),
{
}

pub(crate) proof fn script_elements_are_plain(scripts: Seq<Seq<char>>, n: nat)
    ensures
        strict(crate::plan::script_elements(scripts, n)),
        crate::run::silent(crate::plan::script_elements(scripts, n)),
        mounts_nothing(crate::plan::script_elements(scripts, n)),
    decreases n,
{
    if n > 0 {
        script_elements_are_plain(scripts, (n - 1) as nat);
    }
}

pub(crate) proof fn header_elements_are_plain(headers: Seq<(Seq<char>, Seq<char>)>, n: nat)
    ensures
        strict(crate::plan::header_elements(headers, n)),
        crate::run::silent(crate::plan::header_elements(headers, n)),
        mounts_nothing(crate::plan::header_elements(headers, n)),
    decreases n,
{
    if n > 0 {
        header_elements_are_plain(headers, (n - 1) as nat);
    }
}

pub(crate) proof fn load_url_is_plain(headers: Option<Seq<(Seq<char>, Seq<char>)>>, main_thread: bool)
    ensures
        strict(crate::plan::load_url_steps(headers, main_thread)),
        crate::run::silent(crate::plan::load_url_steps(headers, main_thread)),
        mounts_nothing(crate::plan::load_url_steps(headers, main_thread)),
{
    match headers {
        Some(h) => {
            header_elements_are_plain(h, h.len());
        },
        None => {},
    }
}

pub(crate) proof fn navigation_is_sound(
    url: Option<Seq<char>>,
    html: Option<Seq<char>>,
    headers: Option<Seq<(Seq<char>, Seq<char>)>>,
)
    requires
        crate::plan::navigation_steps(url, html, headers).len() <= usize::MAX,
    ensures
        crate::run::skips_soundly(crate::plan::navigation_steps(url, html, headers)),
        crate::run::silent(crate::plan::navigation_steps(url, html, headers)),
        mounts_nothing(crate::plan::navigation_steps(url, html, headers)),
{
    load_url_is_plain(headers, true);
    let plan = crate::plan::navigation_steps(url, html, headers);
    assert(crate::run::silent(plan));
    assert forall|i: int| 0 <= i < plan.len() implies match (#[trigger] plan[i]).on_error {
        OnError::Skip(n) => i + 1 + n <= plan.len() && crate::run::silent(
            plan.subrange(i, i + 1 + n),
        ),
        _ => true,
    } by {
        if i == 0 {
            match plan[i].on_error {
                OnError::Skip(n) => {
                    assert(plan.len() == 1 + n);
                    assert(plan.subrange(0, 1 + n) =~= plan);
                },
                _ => {},
            }
        } else {
            match url {
                Some(_) => {
                    assert(plan[i] == crate::plan::load_url_steps(headers, true)[i - 1]);
                },
                None => match html {
                    Some(_) => {
                        assert(plan[i] == crate::plan::load_html_steps()[i - 1]);
                    },
                    None => {},
                },
            }
        }
    }
}

pub(crate) proof fn density_is_sound()
    ensures
        crate::run::skips_soundly(crate::plan::display_density_steps()),
        crate::run::silent(crate::plan::display_density_steps()),
        mounts_nothing(crate::plan::display_density_steps()),
{
    let plan = crate::plan::display_density_steps();
    assert forall|i: int| 0 <= i < plan.len() implies match (#[trigger] plan[i]).on_error {
        OnError::Skip(n) => i + 1 + n <= plan.len() && crate::run::silent(
            plan.subrange(i, i + 1 + n),
        ),
        _ => true,
    } by {
        assert(i == 0 || i == 1 || i == 2);
    }
}

pub(crate) proof fn mount_is_sound(is_child: bool, bounds: Option<Rect>)
    ensures
        crate::run::skips_soundly(crate::plan::mount_steps(is_child, bounds)),
        crate::run::silent(crate::plan::mount_steps(is_child, bounds)),
        calls(crate::plan::mount_steps(is_child, bounds), JavaMethod::AddChildWebView) == is_child,
        calls(crate::plan::mount_steps(is_child, bounds), JavaMethod::SetContentView) == !is_child,
        !calls(crate::plan::mount_steps(is_child, bounds), JavaMethod::SetWebView),
{
    density_is_sound();
    let density = crate::plan::display_density_steps();
    let plan = crate::plan::mount_steps(is_child, bounds);
    let count = plan.len();
    if is_child {
        let rest = plan.skip(3);
        assert(plan =~= density + rest);
        strict_skips_soundly(rest);
        both_skip_soundly(density, rest);
        assert(is_call(plan[count - 1], JavaMethod::AddChildWebView));
        assert forall|i: int| 0 <= i < count implies !is_call(
            #[trigger] plan[i],
            JavaMethod::SetContentView,
        ) && !is_call(plan[i], JavaMethod::SetWebView) by {
            if i < 3 {
                assert(plan[i] == density[i]);
            }
        }
    } else {
        strict_skips_soundly(plan);
        assert(is_call(plan[0], JavaMethod::SetContentView));
    }
}

pub(crate) proof fn hook_is_sound(present: bool)
    ensures
        crate::run::skips_soundly(crate::plan::hook_steps(present)),
        crate::run::silent(crate::plan::hook_steps(present)),
        mounts_nothing(crate::plan::hook_steps(present)),
{
}

proof fn background_is_plain(transparent: bool, color: Option<RGBA>)
    ensures
        strict(crate::plan::background_steps(transparent, color)),
        crate::run::silent(crate::plan::background_steps(transparent, color)),
        mounts_nothing(crate::plan::background_steps(transparent, color)),
{
}

proof fn client_is_plain(package: Seq<char>)
    ensures
        strict(crate::plan::client_steps(package)),
        crate::run::silent(crate::plan::client_steps(package)),
        mounts_nothing(crate::plan::client_steps(package)),
{
}

proof fn make_webview_is_plain(id: Seq<char>, package: Seq<char>, autoplay: bool)
    ensures
        strict(crate::plan::make_webview_steps(id, package, autoplay)),
        crate::run::silent(crate::plan::make_webview_steps(id, package, autoplay)),
        mounts_nothing(crate::plan::make_webview_steps(id, package, autoplay)),
{
}

proof fn both_call(a: Seq<StepView>, b: Seq<StepView>, method: JavaMethod)
    ensures
        calls(a + b, method) == (calls(a, method) || calls(b, method)),
{
    let ab = a + b;
    if calls(a, method) {
        let i = choose|i: int| 0 <= i < a.len() && is_call(#[trigger] a[i], method);
        assert(ab[i] == a[i]);
    }
    if calls(b, method) {
        let i = choose|i: int| 0 <= i < b.len() && is_call(#[trigger] b[i], method);
        assert(ab[a.len() + i] == b[i]);
    }
    if calls(ab, method) {
        let i = choose|i: int| 0 <= i < ab.len() && is_call(#[trigger] ab[i], method);
        if i < a.len() {
            assert(a[i] == ab[i]);
        } else {
            assert(b[i - a.len()] == ab[i]);
        }
    }
}

/// What is shown of a part of the creation, and of several parts one after the other.
spec fn sound_part(plan: Seq<StepView>, child: bool, content: bool, back: bool) -> bool {
    &&& crate::run::skips_soundly(plan)
    &&& crate::run::silent(plan)
    &&& calls(plan, JavaMethod::AddChildWebView) == child
    &&& calls(plan, JavaMethod::SetContentView) == content
    &&& calls(plan, JavaMethod::SetWebView) == back
}

proof fn both_parts_sound(
    a: Seq<StepView>,
    b: Seq<StepView>,
    a_child: bool,
    a_content: bool,
    a_back: bool,
    b_child: bool,
    b_content: bool,
    b_back: bool,
)
    requires
        sound_part(a, a_child, a_content, a_back),
        sound_part(b, b_child, b_content, b_back),
    ensures
        sound_part(a + b, a_child || b_child, a_content || b_content, a_back || b_back),
{
    both_skip_soundly(a, b);
    both_silent(a, b);
    both_call(a, b, JavaMethod::AddChildWebView);
    both_call(a, b, JavaMethod::SetContentView);
    both_call(a, b, JavaMethod::SetWebView);
}

proof fn build_is_sound<H: Host>(attributes: CreateWebViewAttributes<H>, package: Seq<char>)
    requires
        crate::plan::build_steps(attributes, package).len() <= usize::MAX,
    ensures
        sound_part(
            crate::plan::build_steps(attributes, package),
            attributes.is_child,
            !attributes.is_child,
            !attributes.is_child,
        ),
{
    let child = attributes.is_child;
    let texts = crate::attributes::script_texts(attributes.initialization_scripts@);
    let scripts = crate::plan::script_steps(texts);
    script_elements_are_plain(texts, texts.len());
    assert(sound_part(scripts, false, false, false)) by {
        assert(strict(scripts));
        assert(mounts_nothing(scripts));
    }
    let webview = crate::plan::make_webview_steps(attributes.id@, package, attributes.autoplay);
    make_webview_is_plain(attributes.id@, package, attributes.autoplay);
    assert(sound_part(webview, false, false, false)) by {
        strict_skips_soundly(webview);
    }
    let agent = crate::plan::user_agent_steps(crate::plan::optional(attributes.user_agent));
    assert(sound_part(agent, false, false, false)) by {
        assert(strict(agent));
        assert(mounts_nothing(agent));
    }
    let javascript = crate::plan::javascript_steps(attributes.javascript_disabled);
    assert(sound_part(javascript, false, false, false)) by {
        assert(strict(javascript));
        assert(mounts_nothing(javascript));
    }
    let back = crate::plan::back_button_steps(child);
    assert(sound_part(back, false, false, !child)) by {
        assert(strict(back));
        if !child {
            assert(is_call(back[0], JavaMethod::SetWebView));
        }
    }
    let url = crate::plan::optional(attributes.url);
    let html = crate::plan::optional(attributes.html);
    let headers = crate::plan::header_pairs(attributes.headers);
    let navigation = crate::plan::navigation_steps(url, html, headers);
    navigation_is_sound(url, html, headers);
    assert(sound_part(navigation, false, false, false));
    let devtools = crate::plan::devtools_steps(attributes.devtools);
    assert(sound_part(devtools, false, false, false)) by {
        assert(strict(devtools));
        assert(mounts_nothing(devtools));
    }
    let background = crate::plan::background_steps(
        attributes.transparent,
        attributes.background_color,
    );
    background_is_plain(attributes.transparent, attributes.background_color);
    assert(sound_part(background, false, false, false)) by {
        strict_skips_soundly(background);
    }
    let clients = crate::plan::client_steps(package);
    client_is_plain(package);
    assert(sound_part(clients, false, false, false)) by {
        strict_skips_soundly(clients);
    }
    let mount = crate::plan::mount_steps(child, attributes.bounds);
    mount_is_sound(child, attributes.bounds);
    let hook = crate::plan::hook_steps(attributes.on_webview_created is Some);
    hook_is_sound(attributes.on_webview_created is Some);
    assert(sound_part(hook, false, false, false));
    let p2 = scripts + webview;
    both_parts_sound(scripts, webview, false, false, false, false, false, false);
    let p3 = p2 + agent;
    both_parts_sound(p2, agent, false, false, false, false, false, false);
    let p4 = p3 + javascript;
    both_parts_sound(p3, javascript, false, false, false, false, false, false);
    let p5 = p4 + back;
    both_parts_sound(p4, back, false, false, false, false, false, !child);
    let p6 = p5 + navigation;
    both_parts_sound(p5, navigation, false, false, !child, false, false, false);
    let p7 = p6 + devtools;
    both_parts_sound(p6, devtools, false, false, !child, false, false, false);
    let p8 = p7 + background;
    both_parts_sound(p7, background, false, false, !child, false, false, false);
    let p9 = p8 + clients;
    both_parts_sound(p8, clients, false, false, !child, false, false, false);
    let p10 = p9 + mount;
    both_parts_sound(p9, mount, false, false, !child, child, !child, false);
    both_parts_sound(p10, hook, child, !child, !child, false, false, false);
}

/// A child webview gets a window of its own; it never becomes the content of the activity and
/// never takes the back button. Any other webview becomes the content, takes the back button, and
/// gets no window.
pub proof fn creation_mounts_as_asked<H: Host>(
    attributes: CreateWebViewAttributes<H>,
    package: Seq<char>,
)
    requires
        crate::plan::create_steps(attributes, package).len() <= usize::MAX,
    ensures
        ({
            let plan = crate::plan::create_steps(attributes, package);
            &&& calls(plan, JavaMethod::AddChildWebView) == attributes.is_child
            &&& calls(plan, JavaMethod::SetContentView) == !attributes.is_child
            &&& calls(plan, JavaMethod::SetWebView) == !attributes.is_child
        }),
{
    build_is_sound(attributes, package);
    let build = crate::plan::build_steps(attributes, package);
    let keep = crate::plan::keep_steps();
    both_call(build, keep, JavaMethod::AddChildWebView);
    both_call(build, keep, JavaMethod::SetContentView);
    both_call(build, keep, JavaMethod::SetWebView);
}

/// The creation of a webview gives exactly one reference, and whatever may fail in it without
/// ending it does not take that away.
pub proof fn creation_is_sound<H: Host>(
    attributes: CreateWebViewAttributes<H>,
    package: Seq<char>,
)
    requires
        crate::plan::create_steps(attributes, package).len() <= usize::MAX,
    ensures
        crate::run::skips_soundly(crate::plan::create_steps(attributes, package)),
        crate::run::objects_in(crate::plan::create_steps(attributes, package)) == 1,
{
    build_is_sound(attributes, package);
    let build = crate::plan::build_steps(attributes, package);
    let keep = crate::plan::keep_steps();
    let plan = crate::plan::create_steps(attributes, package);
    strict_skips_soundly(keep);
    both_skip_soundly(build, keep);
    crate::run::objects_in_silent(Seq::<StepView>::empty(), build);
    assert(Seq::<StepView>::empty() + build =~= build);
    assert(plan.drop_last() =~= build);
    assert(crate::run::objects_in(Seq::<StepView>::empty()) == 0);
}

/// Going to a URL leaves no step out.
pub proof fn going_to_url_is_sound(url: Seq<char>, headers: Option<Seq<(Seq<char>, Seq<char>)>>)
    ensures
        crate::run::skips_soundly(crate::plan::go_to_url_steps(url, headers)),
{
    load_url_is_plain(headers, false);
    assert(strict(crate::plan::go_to_url_steps(url, headers)));
}

/// Moving and resizing a child leaves out only the reading of the density.
pub proof fn moving_is_sound(rect: Rect)
    ensures
        crate::run::skips_soundly(crate::plan::bounds_steps(rect)),
{
    density_is_sound();
    let density = crate::plan::display_density_steps();
    let plan = crate::plan::bounds_steps(rect);
    let first = plan.take(1);
    let last = plan.skip(4);
    strict_skips_soundly(first);
    strict_skips_soundly(last);
    both_skip_soundly(first, density);
    both_skip_soundly(first + density, last);
    assert(plan =~= first + density + last);
}

/// Setting up an activity gives one number and two references.
pub proof fn setup_gives_all(package: Seq<char>)
    ensures
        strict(crate::plan::setup_steps(package)),
        crate::run::skips_soundly(crate::plan::setup_steps(package)),
        crate::run::number_in(crate::plan::setup_steps(package)),
        crate::run::objects_in(crate::plan::setup_steps(package)) == 2,
{
    let plan = crate::plan::setup_steps(package);
    assert(plan.len() == 9);
    assert(plan[0].action is CallInt);
    reveal_with_fuel(crate::run::objects_in, 10);
}

} // verus!
