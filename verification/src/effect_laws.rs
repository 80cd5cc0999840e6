//! What each message does on the Java side.
use crate::activity::ActivityId;
use crate::attributes::{Rect, RGBA};
use crate::action::{Arg, JniAction, OnError, Slot, StepView};
use crate::effects::{Thing, World};
use crate::host::Host;
use crate::java::AppClass;
use crate::main_pipe::Completion;
use crate::message::{Outgoing, WebViewMessage};
use crate::registries::RegistriesView;
use std::sync::Arc;
use vstd::prelude::*;

verus! {

/// Showing or hiding a child calls `setChildVisible` on its activity, with the webview and with
/// the very value that was asked for.
pub proof fn visibility_is_what_was_asked<H: Host>(
    registries: RegistriesView<H>,
    activity_id: ActivityId,
    id: String,
    visible: bool,
    any: Option<Arc<H::Object>>,
)
    requires
        registries.activities.contains_key(activity_id),
        registries.webviews.contains_key(id@),
    ensures
        ({
            let task = registries.handling(
                activity_id,
                WebViewMessage::<H>::SetVisible(id, visible),
                any,
            );
            let seen = crate::effects::java_sees(task);
            &&& seen.calls.len() == 1
            &&& crate::effects::is_java(
                seen.calls[0],
                Thing::Given(registries.activities[activity_id].activity),
                "setChildVisible"@,
                "(Landroid/view/View;Z)V"@,
                seq![Thing::Given(registries.webviews[id@]), Thing::Bool(visible)],
            )
            &&& seen.only_called_since(crate::effects::start_of(task))
            &&& crate::effects::all_must(task.run.plan)
            &&& task.completion is Nothing
        }),
{
    reveal_with_fuel(World::after_steps, 2);
}

/// Taking a webview down has its activity dismiss the window of that very webview; that the call
/// fails does not matter.
pub proof fn removal_dismisses_the_window<H: Host>(
    registries: RegistriesView<H>,
    activity_id: ActivityId,
    id: String,
    any: Option<Arc<H::Object>>,
)
    requires
        registries.activities.contains_key(activity_id),
        registries.webviews.contains_key(id@),
    ensures
        ({
            let task = registries.handling(
                activity_id,
                WebViewMessage::<H>::RemoveChildWebView(id),
                any,
            );
            let seen = crate::effects::java_sees(task);
            &&& seen.calls.len() == 1
            &&& crate::effects::is_java(
                seen.calls[0],
                Thing::Given(registries.activities[activity_id].activity),
                "removeChildWebView"@,
                "(Landroid/view/View;)V"@,
                seq![Thing::Given(registries.webviews[id@])],
            )
            &&& seen.only_called_since(crate::effects::start_of(task))
            &&& task.run.plan.len() == 1
            &&& task.run.plan[0].on_error == OnError::Skip(0)
        }),
{
    reveal_with_fuel(World::after_steps, 2);
}

/// Loading the page again calls `reload` on the webview.
pub proof fn reload_reloads<H: Host>(
    registries: RegistriesView<H>,
    activity_id: ActivityId,
    id: String,
    any: Option<Arc<H::Object>>,
)
    requires
        registries.webviews.contains_key(id@),
    ensures
        ({
            let task = registries.handling(activity_id, WebViewMessage::<H>::Reload(id), any);
            let seen = crate::effects::java_sees(task);
            &&& seen.calls.len() == 1
            &&& crate::effects::is_java(
                seen.calls[0],
                Thing::Given(registries.webviews[id@]),
                "reload"@,
                "()V"@,
                seq![],
            )
            &&& seen.only_called_since(crate::effects::start_of(task))
            &&& crate::effects::all_must(task.run.plan)
            &&& task.completion is Nothing
        }),
{
    reveal_with_fuel(World::after_steps, 2);
}

/// Forgetting the browsing data calls `clearAllBrowsingData` on the webview.
pub proof fn clearing_clears<H: Host>(
    registries: RegistriesView<H>,
    activity_id: ActivityId,
    id: String,
    any: Option<Arc<H::Object>>,
)
    requires
        registries.webviews.contains_key(id@),
    ensures
        ({
            let task = registries.handling(activity_id, WebViewMessage::<H>::ClearAllBrowsingData(id), any);
            let seen = crate::effects::java_sees(task);
            &&& seen.calls.len() == 1
            &&& crate::effects::is_java(
                seen.calls[0],
                Thing::Given(registries.webviews[id@]),
                "clearAllBrowsingData"@,
                "()V"@,
                seq![],
            )
            &&& seen.only_called_since(crate::effects::start_of(task))
            &&& crate::effects::all_must(task.run.plan)
            &&& task.completion is Nothing
        }),
{
    reveal_with_fuel(World::after_steps, 2);
}

/// Loading a page from its text hands that very text to the webview.
pub proof fn html_is_loaded_as_given<H: Host>(
    registries: RegistriesView<H>,
    activity_id: ActivityId,
    id: String,
    html: String,
    any: Option<Arc<H::Object>>,
)
    requires
        registries.webviews.contains_key(id@),
    ensures
        ({
            let task = registries.handling(activity_id, WebViewMessage::<H>::LoadHtml(id, html), any);
            let seen = crate::effects::java_sees(task);
            &&& seen.calls.len() == 1
            &&& crate::effects::is_java(
                seen.calls[0],
                Thing::Given(registries.webviews[id@]),
                "loadHTMLMainThread"@,
                "(Ljava/lang/String;)V"@,
                seq![Thing::Text(html@)],
            )
            &&& seen.only_called_since(crate::effects::start_of(task))
            &&& crate::effects::all_must(task.run.plan)
            &&& task.completion is Nothing
        }),
{
    reveal_with_fuel(World::after_steps, 3);
}

/// Evaluating a script hands that very script to the webview, with the number under which the
/// taker of its result is kept.
pub proof fn script_is_evaluated_as_given<H: Host>(
    registries: RegistriesView<H>,
    activity_id: ActivityId,
    id: String,
    script: String,
    callback: Option<H::EvalCallback>,
    any: Option<Arc<H::Object>>,
)
    requires
        registries.webviews.contains_key(id@),
    ensures
        ({
            let task = registries.handling(activity_id, WebViewMessage::<H>::Eval(id, script, callback), any);
            let seen = crate::effects::java_sees(task);
            &&& seen.calls.len() == 1
            &&& crate::effects::is_java(
                seen.calls[0],
                Thing::Given(registries.webviews[id@]),
                "evalScript"@,
                "(ILjava/lang/String;)V"@,
                seq![Thing::Int(registries.eval_ids as i32), Thing::Text(script@)],
            )
            &&& seen.only_called_since(crate::effects::start_of(task))
            &&& crate::effects::all_must(task.run.plan)
            &&& task.completion is Nothing
        }),
{
    reveal_with_fuel(World::after_steps, 3);
}

/// The background colour goes to the webview as one number, whose bytes are the alpha, the red, the
/// green and the blue of the colour, from the highest to the lowest.
pub proof fn background_is_the_colour<H: Host>(
    registries: RegistriesView<H>,
    activity_id: ActivityId,
    id: String,
    color: RGBA,
    any: Option<Arc<H::Object>>,
)
    requires
        registries.webviews.contains_key(id@),
    ensures
        ({
            let task = registries.handling(
                activity_id,
                WebViewMessage::<H>::SetBackgroundColor(id, color),
                any,
            );
            let seen = crate::effects::java_sees(task);
            &&& seen.calls.len() == 1
            &&& seen.calls[0].arguments.len() == 1
            &&& seen.calls[0].arguments[0] matches Thing::Int(n)
            &&& is_argb(n, color)
            &&& crate::effects::is_java(
                seen.calls[0],
                Thing::Given(registries.webviews[id@]),
                "setBackgroundColor"@,
                "(I)V"@,
                seq![Thing::Int(n)],
            )
            &&& seen.only_called_since(crate::effects::start_of(task))
            &&& crate::effects::all_must(task.run.plan)
            &&& task.completion is Nothing
        }),
{
    reveal_with_fuel(World::after_steps, 2);
    colour_is_argb(color);
}

/// Whether the four bytes of a number are those of a colour.
pub open spec fn is_argb(n: i32, color: RGBA) -> bool {
    let bits: int = if n < 0 {
        n + 0x1_0000_0000
    } else {
        n as int
    };
    &&& bits / 0x100_0000 == color.3
    &&& bits / 0x1_0000 % 0x100 == color.0
    &&& bits / 0x100 % 0x100 == color.1
    &&& bits % 0x100 == color.2
}

/// The number of a colour has the four channels as its bytes.
#[verifier::spinoff_prover]
pub proof fn colour_is_argb(color: RGBA)
    ensures
        i32::MIN <= crate::color::argb(color) <= i32::MAX,
        is_argb(crate::color::argb(color) as i32, color),
{
    let u = crate::color::argb_unsigned(color);
    let alpha: int = color.3 as int;
    let red: int = color.0 as int;
    let green: int = color.1 as int;
    let blue: int = color.2 as int;
    assert(u == alpha * 0x100_0000 + red * 0x1_0000 + green * 0x100 + blue);
    assert(0 <= u < 0x1_0000_0000);
    assert(u / 0x100_0000 == alpha);
    assert(u / 0x1_0000 == alpha * 0x100 + red);
    assert((alpha * 0x100 + red) % 0x100 == red);
    assert(u / 0x100 == alpha * 0x1_0000 + red * 0x100 + green);
    assert((alpha * 0x1_0000 + red * 0x100 + green) % 0x100 == green);
    assert(u % 0x100 == blue);
}

/// A URL without headers of its own is handed to the webview as it is.
pub proof fn url_is_loaded_as_given<H: Host>(
    registries: RegistriesView<H>,
    activity_id: ActivityId,
    id: String,
    url: String,
    any: Option<Arc<H::Object>>,
)
    requires
        registries.webviews.contains_key(id@),
    ensures
        ({
            let task = registries.handling(
                activity_id,
                WebViewMessage::<H>::LoadUrl(id, url, None),
                any,
            );
            let seen = crate::effects::java_sees(task);
            &&& seen.calls.len() == 1
            &&& crate::effects::is_java(
                seen.calls[0],
                Thing::Given(registries.webviews[id@]),
                "loadUrl"@,
                "(Ljava/lang/String;)V"@,
                seq![Thing::Text(url@)],
            )
            &&& seen.only_called_since(crate::effects::start_of(task))
            &&& crate::effects::all_must(task.run.plan)
            &&& task.completion is Nothing
        }),
{
    reveal_with_fuel(World::after_steps, 3);
}

/// Whether `entries` is what a map of headers must hold: each name with the text of its own value,
/// in the order of a walk over the headers.
pub open spec fn holds_headers<O>(
    entries: Seq<(Thing<O>, Thing<O>)>,
    headers: http::HeaderMap,
) -> bool {
    let walk = crate::outside::header_walk(headers);
    &&& entries.len() == walk.len()
    &&& forall|i: int|
        0 <= i < walk.len() ==> {
            &&& (#[trigger] entries[i]).0 == Thing::<O>::Text(walk[i].0)
            &&& entries[i].1 matches Thing::Text(text)
            &&& reads_as(walk[i].1, text)
        }
}

/// Whether `text` is how the bytes of a header value read: character by character where all of
/// them are visible, and empty where one is not.
pub open spec fn reads_as(bytes: Seq<u8>, text: Seq<char>) -> bool {
    let readable = forall|i: int|
        0 <= i < bytes.len() ==> 32 <= #[trigger] bytes[i] < 127 || bytes[i] == 9;
    &&& readable ==> text.len() == bytes.len() && forall|i: int|
        0 <= i < bytes.len() ==> #[trigger] text[i] as int == bytes[i]
    &&& !readable ==> text.len() == 0
}

/// A header value reads as its bytes, or as nothing.
pub proof fn header_values_read_as_they_are(bytes: Seq<u8>)
    ensures
        reads_as(bytes, crate::headers::value_text(bytes)),
{
    let readable = forall|i: int|
        0 <= i < bytes.len() ==> 32 <= #[trigger] bytes[i] < 127 || bytes[i] == 9;
    if readable {
        assert forall|i: int| 0 <= i < bytes.len() implies crate::outside::visible(
            #[trigger] bytes[i],
        ) by {}
    } else {
        let i = choose|i: int|
            0 <= i < bytes.len() && !(32 <= #[trigger] bytes[i] < 127 || bytes[i] == 9);
        assert(!crate::outside::visible(bytes[i]));
    }
}

#[verifier::spinoff_prover]
#[verifier::rlimit(50)]
proof fn header_elements_fill_the_table<O>(
    world: World<O>,
    headers: Seq<(Seq<char>, Seq<char>)>,
    n: nat,
    package: Seq<char>,
)
    requires
        n <= headers.len(),
        world.at(Slot::Headers) == (Thing::<O>::Table { open: true, entries: Seq::empty() }),
    ensures
        ({
            let after = world.after_plan(crate::plan::header_elements(headers, n), package);
            &&& after.at(Slot::Headers) matches Thing::Table { open, entries }
            &&& open
            &&& entries.len() == n
            &&& forall|i: int|
                0 <= i < n ==> #[trigger] entries[i] == (
                    Thing::<O>::Text(headers[i].0),
                    Thing::<O>::Text(headers[i].1),
                )
            &&& after.calls == world.calls
            &&& after.only_called_since(world)
            &&& forall|slot: Slot|
                slot != Slot::Headers && slot != Slot::HeaderName && slot != Slot::HeaderValue
                    ==> #[trigger] after.at(slot) == world.at(slot)
        }),
    decreases n,
{
    let plan = crate::plan::header_elements(headers, n);
    if n > 0 {
        let m = (n - 1) as nat;
        let earlier = crate::plan::header_elements(headers, m);
        let last = plan.skip(earlier.len() as int);
        header_elements_fill_the_table(world, headers, m, package);
        assert(plan =~= earlier + last);
        crate::effects::after_both(world, earlier, last, 3, package);
        let w0 = world.after_plan(earlier, package);
        let name = headers[n - 1].0;
        let value = headers[n - 1].1;
        entry_is_put(w0, name, value, package);
        assert(w0.after_steps(last, 0, package) == w0);
        assert(w0.after_steps(last, 1, package) == w0.after(last[0].action, package));
        assert(w0.after_steps(last, 2, package) == w0.after_steps(last, 1, package).after(
            last[1].action,
            package,
        ));
        assert(w0.after_steps(last, 3, package) == after_entry(w0, name, value, package));
        assert(plan.len() == earlier.len() + 3);
    }
}

spec fn after_entry<O>(
    world: World<O>,
    name: Seq<char>,
    value: Seq<char>,
    package: Seq<char>,
) -> World<O> {
    world.after(JniAction::NewString { text: name, into: Slot::HeaderName }, package).after(
        JniAction::NewString { text: value, into: Slot::HeaderValue },
        package,
    ).after(
        JniAction::PutEntry {
            map: Slot::Headers,
            key: Slot::HeaderName,
            value: Slot::HeaderValue,
        },
        package,
    )
}

#[verifier::spinoff_prover]
#[verifier::rlimit(50)]
proof fn entry_is_put<O>(world: World<O>, name: Seq<char>, value: Seq<char>, package: Seq<char>)
    requires
        world.at(Slot::Headers) is Table,
        world.at(Slot::Headers)->open,
    ensures
        ({
            let after = after_entry(world, name, value, package);
            &&& after.at(Slot::Headers) == (Thing::<O>::Table {
                open: true,
                entries: world.at(Slot::Headers)->entries.push(
                    (Thing::Text(name), Thing::Text(value)),
                ),
            })
            &&& after.calls == world.calls
            &&& after.only_called_since(world)
            &&& forall|slot: Slot|
                slot != Slot::Headers && slot != Slot::HeaderName && slot != Slot::HeaderValue
                    ==> #[trigger] after.at(slot) == world.at(slot)
        }),
{
}

/// Whether a call loads `url` into `webview`, with exactly these headers.
pub open spec fn is_load<O>(
    call: crate::effects::Call<O>,
    webview: Thing<O>,
    url: Thing<O>,
    headers: Option<http::HeaderMap>,
    main_thread: bool,
) -> bool {
    &&& !call.is_static
    &&& call.target == webview
    &&& call.method == if main_thread {
        "loadUrlMainThread"@
    } else {
        "loadUrl"@
    }
    &&& match headers {
        Some(map) => {
            &&& call.signature == "(Ljava/lang/String;Ljava/util/Map;)V"@
            &&& call.arguments.len() == 2
            &&& call.arguments[0] == url
            &&& call.arguments[1] matches Thing::Table { open, entries }
            &&& open
            &&& holds_headers(entries, map)
        },
        None => {
            &&& call.signature == "(Ljava/lang/String;)V"@
            &&& call.arguments.len() == 1
            &&& call.arguments[0] == url
        },
    }
}

/// The steps that load a URL hand over the URL, with the headers if there are any.
#[verifier::spinoff_prover]
#[verifier::rlimit(50)]
pub(crate) proof fn loading_hands_over<O>(
    world: World<O>,
    headers: Option<http::HeaderMap>,
    main_thread: bool,
    package: Seq<char>,
)
    ensures
        ({
            let plan = crate::plan::load_url_steps(crate::plan::header_pairs(headers), main_thread);
            let after = world.after_plan(plan, package);
            &&& after.calls == world.calls.push(after.calls.last())
            &&& is_load(
                after.calls.last(),
                world.at(Slot::WebView),
                world.at(Slot::Url),
                headers,
                main_thread,
            )
            &&& after.only_called_since(world)
            &&& forall|slot: Slot|
                slot != Slot::Headers && slot != Slot::HeaderName && slot != Slot::HeaderValue
                    ==> #[trigger] after.at(slot) == world.at(slot)
            &&& crate::effects::all_must(plan)
        }),
{
    let pairs = crate::plan::header_pairs(headers);
    let plan = crate::plan::load_url_steps(pairs, main_thread);
    match headers {
        Some(map) => {
            let texts = pairs->0;
            let walk = crate::outside::header_walk(map);
            let first = plan.take(2);
            let elements = crate::plan::header_elements(texts, texts.len());
            let last = plan.skip(2 + elements.len() as int);
            assert(plan =~= first + elements + last);
            let opened = world.after_plan(first, package);
            let filled = opened.after_plan(elements, package);
            let call = last[0].action;
            assert(world.after_steps(first, 0, package) == world);
            assert(world.after_steps(first, 1, package) == world.after(first[0].action, package));
            assert(opened == world.after(
                JniAction::NewHashMap { into: Slot::Headers },
                package,
            ).after(JniAction::OpenMap { map: Slot::Headers }, package));
            assert(opened.at(Slot::Headers) == (Thing::<O>::Table {
                open: true,
                entries: Seq::empty(),
            }));
            header_elements_fill_the_table(opened, texts, texts.len(), package);
            crate::effects::after_both(world, first, elements, elements.len(), package);
            crate::effects::after_both(world, first + elements, last, 1, package);
            assert(filled.after_steps(last, 0, package) == filled);
            assert(filled.after_steps(last, 1, package) == filled.after(call, package));
            assert(world.after_plan(plan, package) == filled.after(call, package));
            crate::effects::two_values(
                filled,
                Arg::Object(Slot::Url),
                Arg::Object(Slot::Headers),
            );
            header_elements_must(texts, texts.len());
            assert forall|i: int| 0 <= i < walk.len() implies reads_as(
                walk[i].1,
                #[trigger] texts[i].1,
            ) by {
                header_values_read_as_they_are(walk[i].1);
            }
            let entries = filled.at(Slot::Headers)->entries;
            assert(holds_headers(entries, map)) by {
                assert forall|i: int| 0 <= i < walk.len() implies {
                    &&& (#[trigger] entries[i]).0 == Thing::<O>::Text(walk[i].0)
                    &&& entries[i].1 matches Thing::Text(text)
                    &&& reads_as(walk[i].1, text)
                } by {
                    assert(reads_as(walk[i].1, texts[i].1));
                }
            }
            let after = world.after_plan(plan, package);
            assert(after.calls == world.calls.push(after.calls.last()));
            assert(crate::effects::all_must(plan));
            assert(after.calls.last().arguments == seq![
                world.at(Slot::Url),
                filled.at(Slot::Headers),
            ]);
            assert(is_load(
                after.calls.last(),
                world.at(Slot::WebView),
                world.at(Slot::Url),
                headers,
                main_thread,
            ));
            assert(after.only_called_since(world));
            assert forall|slot: Slot|
                slot != Slot::Headers && slot != Slot::HeaderName && slot != Slot::HeaderValue implies
                #[trigger] after.at(slot) == world.at(slot) by {
                assert(after.at(slot) == filled.at(slot));
                assert(filled.at(slot) == opened.at(slot));
            }
        },
        None => {
            reveal_with_fuel(World::after_steps, 2);
        },
    }
}

pub(crate) proof fn header_elements_must(headers: Seq<(Seq<char>, Seq<char>)>, n: nat)
    ensures
        crate::effects::all_must(crate::plan::header_elements(headers, n)),
    decreases n,
{
    if n > 0 {
        header_elements_must(headers, (n - 1) as nat);
    }
}

/// A URL with headers of its own is handed to the webview together with a map in which each name
/// of the headers stands with its own value.
#[verifier::spinoff_prover]
#[verifier::rlimit(50)]
pub proof fn headers_go_along<H: Host>(
    registries: RegistriesView<H>,
    activity_id: ActivityId,
    id: String,
    url: String,
    headers: Option<http::HeaderMap>,
    any: Option<Arc<H::Object>>,
)
    requires
        registries.webviews.contains_key(id@),
    ensures
        ({
            let task = registries.handling(
                activity_id,
                WebViewMessage::<H>::LoadUrl(id, url, headers),
                any,
            );
            let seen = crate::effects::java_sees(task);
            &&& seen.calls.len() == 1
            &&& is_load(
                seen.calls[0],
                Thing::Given(registries.webviews[id@]),
                Thing::Text(url@),
                headers,
                false,
            )
            &&& seen.only_called_since(crate::effects::start_of(task))
            &&& crate::effects::all_must(task.run.plan)
            &&& task.completion is Nothing
        }),
{
    let task = registries.handling(
        activity_id,
        WebViewMessage::<H>::LoadUrl(id, url, headers),
        any,
    );
    let plan = task.run.plan;
    let load = crate::plan::load_url_steps(crate::plan::header_pairs(headers), false);
    let first = plan.take(1);
    let start = crate::effects::start_of(task);
    assert(plan =~= first + load);
    reveal_with_fuel(World::after_steps, 2);
    loading_hands_over(start.after_plan(first, task.package), headers, false, task.package);
    crate::effects::after_both(start, first, load, load.len(), task.package);
}

/// The activity that hosts the webviews, as Java gives it.
pub open spec fn host_of<O>(activity: Thing<O>) -> Thing<O> {
    crate::effects::answer(activity, "getHost"@, "()Landroid/app/Activity;"@, Seq::empty())
}

/// The resources of an activity, as Java gives them.
pub open spec fn resources_of<O>(host: Thing<O>) -> Thing<O> {
    crate::effects::answer(
        host,
        "getResources"@,
        "()Landroid/content/res/Resources;"@,
        Seq::empty(),
    )
}

/// The measures of the display of an activity, as Java gives them.
pub open spec fn metrics_of<O>(host: Thing<O>) -> Thing<O> {
    crate::effects::answer(
        resources_of(host),
        "getDisplayMetrics"@,
        "()Landroid/util/DisplayMetrics;"@,
        Seq::empty(),
    )
}

/// A view, and where it is to lie: the bounds in physical pixels for a density.
pub open spec fn placed<O>(view: Thing<O>, bounds: Rect, density: Thing<O>) -> Seq<Thing<O>> {
    seq![
        view,
        Thing::X { bounds, density: Box::new(density) },
        Thing::Y { bounds, density: Box::new(density) },
        Thing::Width { bounds, density: Box::new(density) },
        Thing::Height { bounds, density: Box::new(density) },
    ]
}

/// The steps that read the density of the display.
#[verifier::spinoff_prover]
#[verifier::rlimit(50)]
pub(crate) proof fn density_is_read<O>(world: World<O>, package: Seq<char>)
    ensures
        ({
            let after = world.after_plan(crate::plan::display_density_steps(), package);
            let host = world.at(Slot::HostActivity);
            &&& after.calls.len() == world.calls.len() + 2
            &&& after.calls.take(world.calls.len() as int) == world.calls
            &&& Thing::Answer(Box::new(after.calls[world.calls.len() as int])) == resources_of(host)
            &&& Thing::Answer(Box::new(after.calls[world.calls.len() as int + 1])) == metrics_of(host)
            &&& after.density == metrics_of(host)
            &&& after.only_called_since(world)
            &&& forall|slot: Slot|
                slot != Slot::Resources && slot != Slot::DisplayMetrics ==> #[trigger] after.at(
                    slot,
                ) == world.at(slot)
        }),
{
    let plan = crate::plan::display_density_steps();
    let w1 = world.after_steps(plan, 1, package);
    let w2 = world.after_steps(plan, 2, package);
    let w3 = world.after_steps(plan, 3, package);
    assert(world.after_steps(plan, 0, package) == world);
    assert(w1 == world.after(plan[0].action, package));
    assert(w2 == w1.after(plan[1].action, package));
    assert(w3 == w2.after(plan[2].action, package));
    crate::effects::no_values(world);
    crate::effects::no_values(w1);
    assert(w3.calls.take(world.calls.len() as int) =~= world.calls);
}

/// Moving and resizing a child calls `setChildBounds` on its activity, with the webview and with
/// the very bounds that were asked for, in physical pixels for the density of the display of the
/// host.
#[verifier::spinoff_prover]
#[verifier::rlimit(50)]
pub proof fn bounds_are_what_was_asked<H: Host>(
    registries: RegistriesView<H>,
    activity_id: ActivityId,
    id: String,
    rect: Rect,
    any: Option<Arc<H::Object>>,
)
    requires
        registries.activities.contains_key(activity_id),
        registries.webviews.contains_key(id@),
    ensures
        ({
            let task = registries.handling(
                activity_id,
                WebViewMessage::<H>::SetBounds(id, rect),
                any,
            );
            let seen = crate::effects::java_sees(task);
            let activity = Thing::Given(registries.activities[activity_id].activity);
            let host = host_of(activity);
            &&& seen.calls.len() == 4
            &&& Thing::Answer(Box::new(seen.calls[0])) == host
            &&& Thing::Answer(Box::new(seen.calls[1])) == resources_of(host)
            &&& Thing::Answer(Box::new(seen.calls[2])) == metrics_of(host)
            &&& crate::effects::is_java(
                seen.calls[3],
                activity,
                "setChildBounds"@,
                "(Landroid/view/View;IIII)V"@,
                placed(Thing::Given(registries.webviews[id@]), rect, metrics_of(host)),
            )
            &&& seen.only_called_since(crate::effects::start_of(task))
            &&& task.completion is Nothing
            &&& task.run.plan.len() == 6
            &&& task.run.plan[0].on_error == OnError::Return
            &&& task.run.plan[4].on_error == OnError::Return
            &&& task.run.plan[5].on_error == OnError::Return
        }),
{
    let task = registries.handling(activity_id, WebViewMessage::<H>::SetBounds(id, rect), any);
    let plan = task.run.plan;
    let package = task.package;
    let start = crate::effects::start_of(task);
    let first = plan.take(1);
    let density = crate::plan::display_density_steps();
    let last = plan.skip(4);
    assert(plan =~= first + density + last);
    let w1 = start.after_plan(first, package);
    assert(start.after_steps(first, 0, package) == start);
    assert(w1 == start.after(first[0].action, package));
    crate::effects::no_values(start);
    density_is_read(w1, package);
    crate::effects::after_both(start, first, density, 3, package);
    let w4 = w1.after_plan(density, package);
    crate::effects::after_both(start, first + density, last, 2, package);
    let w5 = w4.after_steps(last, 1, package);
    let w6 = w4.after_steps(last, 2, package);
    assert(w4.after_steps(last, 0, package) == w4);
    assert(w5 == w4.after(last[0].action, package));
    assert(w6 == w5.after(last[1].action, package));
    assert(crate::effects::java_sees(task) == w6);
    crate::effects::five_values(
        w5,
        Arg::Object(Slot::WebView),
        Arg::X,
        Arg::Y,
        Arg::Width,
        Arg::Height,
    );
    assert(w1.calls[0] == w4.calls.take(1)[0]);
    assert(w5.at(Slot::WebView) == Thing::Given(registries.webviews[id@]));
    assert(w5.at(Slot::Activity) == Thing::Given(registries.activities[activity_id].activity));
}

/// Where the density cannot be read, a child is moved to the same bounds all the same, as if the
/// density were one.
#[verifier::spinoff_prover]
#[verifier::rlimit(50)]
pub proof fn bounds_do_without_density<H: Host>(
    registries: RegistriesView<H>,
    activity_id: ActivityId,
    id: String,
    rect: Rect,
    any: Option<Arc<H::Object>>,
    failed: nat,
)
    requires
        registries.activities.contains_key(activity_id),
        registries.webviews.contains_key(id@),
        1 <= failed <= 3,
    ensures
        ({
            let task = registries.handling(
                activity_id,
                WebViewMessage::<H>::SetBounds(id, rect),
                any,
            );
            let plan = task.run.plan;
            let before = crate::effects::start_of(task).after_steps(plan, failed, task.package);
            let after = before.after(plan[4].action, task.package).after(
                plan[5].action,
                task.package,
            );
            &&& plan[failed as int].on_error matches OnError::Skip(n)
            &&& failed + 1 + n == 4
            &&& crate::effects::is_java(
                after.calls.last(),
                Thing::Given(registries.activities[activity_id].activity),
                "setChildBounds"@,
                "(Landroid/view/View;IIII)V"@,
                placed(Thing::Given(registries.webviews[id@]), rect, Thing::Nothing),
            )
        }),
{
    let task = registries.handling(activity_id, WebViewMessage::<H>::SetBounds(id, rect), any);
    let plan = task.run.plan;
    let package = task.package;
    let w0 = crate::effects::start_of(task);
    let w1 = w0.after_steps(plan, 1, package);
    let w2 = w0.after_steps(plan, 2, package);
    let w3 = w0.after_steps(plan, 3, package);
    assert(w0.after_steps(plan, 0, package) == w0);
    assert(w1 == w0.after(plan[0].action, package));
    assert(w2 == w1.after(plan[1].action, package));
    assert(w3 == w2.after(plan[2].action, package));
    let before = w0.after_steps(plan, failed, package);
    assert(before.density == Thing::<Arc<H::Object>>::Nothing);
    crate::effects::five_values(
        before.after(plan[4].action, package),
        Arg::Object(Slot::WebView),
        Arg::X,
        Arg::Y,
        Arg::Width,
        Arg::Height,
    );
}

/// Whether a plan asks Java one question, reads the answer, and does nothing else.
pub open spec fn asks<O>(
    world: World<O>,
    before: World<O>,
    target: Thing<O>,
    method: Seq<char>,
    signature: Seq<char>,
    arguments: Seq<Thing<O>>,
) -> bool {
    &&& world.calls.len() == 1
    &&& crate::effects::is_java(world.calls[0], target, method, signature, arguments)
    &&& world.read.len() == 1
    &&& world.read[0] == Thing::Answer(Box::new(world.calls[0]))
    &&& world.numbers == before.numbers
    &&& world.hooks == before.hooks
    &&& world.kept == before.kept
}

/// The version of the webview is asked of the activity that the question was sent to.
pub proof fn version_is_asked_of_the_activity<H: Host>(
    registries: RegistriesView<H>,
    activity_id: ActivityId,
    reply: H::VersionReply,
    any: Option<Arc<H::Object>>,
)
    requires
        registries.activities.contains_key(activity_id),
    ensures
        ({
            let task = registries.handling(
                activity_id,
                WebViewMessage::<H>::GetWebViewVersion(reply),
                any,
            );
            &&& asks(
                crate::effects::java_sees(task),
                crate::effects::start_of(task),
                Thing::Given(registries.activities[activity_id].activity),
                "getVersion"@,
                "()Ljava/lang/String;"@,
                seq![],
            )
            &&& task.completion == Completion::<H, Seq<char>>::Version(reply)
            &&& task.run.plan.len() == 2
            &&& task.run.plan[0].on_error == OnError::Conclude
            &&& task.run.plan[1].on_error == OnError::Conclude
        }),
{
    let task = registries.handling(
        activity_id,
        WebViewMessage::<H>::GetWebViewVersion(reply),
        any,
    );
    question_of_two_steps(crate::effects::start_of(task), task.run.plan, task.package);
}

/// The URL is asked of the webview of the id.
pub proof fn url_is_asked_of_the_webview<H: Host>(
    registries: RegistriesView<H>,
    activity_id: ActivityId,
    id: String,
    reply: H::UrlReply,
    any: Option<Arc<H::Object>>,
)
    requires
        registries.webviews.contains_key(id@),
    ensures
        ({
            let task = registries.handling(
                activity_id,
                WebViewMessage::<H>::GetUrl(id, reply),
                any,
            );
            &&& asks(
                crate::effects::java_sees(task),
                crate::effects::start_of(task),
                Thing::Given(registries.webviews[id@]),
                "getUrl"@,
                "()Ljava/lang/String;"@,
                seq![],
            )
            &&& task.completion == Completion::<H, Seq<char>>::Url(reply)
            &&& task.run.plan.len() == 2
            &&& task.run.plan[0].on_error == OnError::Conclude
            &&& task.run.plan[1].on_error == OnError::Conclude
        }),
{
    let task = registries.handling(activity_id, WebViewMessage::<H>::GetUrl(id, reply), any);
    question_of_two_steps(crate::effects::start_of(task), task.run.plan, task.package);
}

proof fn question_of_two_steps<O>(world: World<O>, plan: Seq<StepView>, package: Seq<char>)
    ensures
        world.after_steps(plan, 2, package) == world.after(plan[0].action, package).after(
            plan[1].action,
            package,
        ),
{
    assert(world.after_steps(plan, 0, package) == world);
    assert(world.after_steps(plan, 1, package) == world.after(plan[0].action, package));
}

/// The cookies are asked of the webview of the id, for the very URL that was asked about.
#[verifier::spinoff_prover]
#[verifier::rlimit(50)]
pub proof fn cookies_are_asked_of_the_webview<H: Host>(
    registries: RegistriesView<H>,
    activity_id: ActivityId,
    id: String,
    reply: H::CookiesReply,
    url: String,
    any: Option<Arc<H::Object>>,
)
    requires
        registries.webviews.contains_key(id@),
    ensures
        ({
            let task = registries.handling(
                activity_id,
                WebViewMessage::<H>::GetCookies(id, reply, url),
                any,
            );
            &&& asks(
                crate::effects::java_sees(task),
                crate::effects::start_of(task),
                Thing::Given(registries.webviews[id@]),
                "getCookies"@,
                "(Ljava/lang/String;)Ljava/lang/String;"@,
                seq![Thing::Text(url@)],
            )
            &&& task.completion == Completion::<H, Seq<char>>::Cookies(reply)
            &&& task.run.plan.len() == 3
            &&& task.run.plan[0].on_error == OnError::Return
            &&& task.run.plan[1].on_error == OnError::Conclude
            &&& task.run.plan[2].on_error == OnError::Conclude
        }),
{
    let task = registries.handling(
        activity_id,
        WebViewMessage::<H>::GetCookies(id, reply, url),
        any,
    );
    let plan = task.run.plan;
    let package = task.package;
    let w0 = crate::effects::start_of(task);
    let w1 = w0.after(plan[0].action, package);
    question_of_two_steps(w0, plan, package);
    assert(w0.after_steps(plan, 3, package) == w1.after(plan[1].action, package).after(
        plan[2].action,
        package,
    ));
}

/// The class loader of an activity, as Java gives it.
pub open spec fn loader_of<O>(activity: Thing<O>) -> Thing<O> {
    crate::effects::answer(
        activity,
        "getClassLoader"@,
        "()Ljava/lang/ClassLoader;"@,
        Seq::empty(),
    )
}

/// The class that the class loader of an activity gives for a name with dots.
pub open spec fn class_named<O>(activity: Thing<O>, name: Seq<char>) -> Thing<O> {
    crate::effects::answer(
        loader_of(activity),
        "loadClass"@,
        "(Ljava/lang/String;)Ljava/lang/Class;"@,
        seq![Thing::Text(name)],
    )
}

/// The name with dots of a class of the application.
pub open spec fn dotted(package: Seq<char>, class: Seq<char>) -> Seq<char> {
    Seq::new(
        package.len() + 1 + class.len(),
        |i: int|
            if i < package.len() {
                if package[i] == '/' {
                    '.'
                } else {
                    package[i]
                }
            } else if i == package.len() {
                '.'
            } else {
                class[i - package.len() - 1]
            },
    )
}

/// The steps that find a class of the application.
#[verifier::spinoff_prover]
#[verifier::rlimit(50)]
pub(crate) proof fn class_is_found<O>(
    world: World<O>,
    path: Seq<char>,
    into: Slot,
    package: Seq<char>,
)
    requires
        into != Slot::ClassLoader,
        into != Slot::ClassName,
    ensures
        ({
            let plan = crate::plan::find_class_steps(path, into);
            let after = world.after_plan(plan, package);
            let activity = world.at(Slot::Activity);
            let class = class_named(activity, crate::text::replaced(path, '/', '.'));
            &&& after.calls.len() == world.calls.len() + 2
            &&& after.calls.take(world.calls.len() as int) == world.calls
            &&& Thing::Answer(Box::new(after.calls[world.calls.len() as int])) == loader_of(
                activity,
            )
            &&& Thing::Answer(Box::new(after.calls[world.calls.len() as int + 1])) == class
            &&& after.at(into) == class
            &&& after.only_called_since(world)
            &&& after.density == world.density
            &&& forall|slot: Slot|
                slot != into && slot != Slot::ClassLoader && slot != Slot::ClassName
                    ==> #[trigger] after.at(slot) == world.at(slot)
            &&& crate::effects::all_must(plan)
            &&& plan.len() == 3
        }),
{
    let plan = crate::plan::find_class_steps(path, into);
    let w1 = world.after_steps(plan, 1, package);
    let w2 = world.after_steps(plan, 2, package);
    let w3 = world.after_steps(plan, 3, package);
    assert(world.after_steps(plan, 0, package) == world);
    assert(w1 == world.after(plan[0].action, package));
    assert(w2 == w1.after(plan[1].action, package));
    assert(w3 == w2.after(plan[2].action, package));
    crate::effects::no_values(world);
    crate::effects::one_value(w2, Arg::Object(Slot::ClassName));
    assert(w3.calls.take(world.calls.len() as int) =~= world.calls);
}

/// The name of a class of the application, with dots.
pub(crate) proof fn path_gets_dots(package: Seq<char>, class: AppClass)
    ensures
        crate::text::replaced(class.path_text(package), '/', '.') == dotted(
            package,
            match class {
                AppClass::RustWebView => "RustWebView"@,
                AppClass::RustWebViewClient => "RustWebViewClient"@,
                AppClass::RustWebChromeClient => "RustWebChromeClient"@,
                AppClass::Ipc => "Ipc"@,
            },
        ),
{
    reveal_strlit("/");
    reveal_strlit("RustWebView");
    reveal_strlit("RustWebViewClient");
    reveal_strlit("RustWebChromeClient");
    reveal_strlit("Ipc");
    assert(crate::text::replaced(class.path_text(package), '/', '.') =~= dotted(
        package,
        match class {
            AppClass::RustWebView => "RustWebView"@,
            AppClass::RustWebViewClient => "RustWebViewClient"@,
            AppClass::RustWebChromeClient => "RustWebChromeClient"@,
            AppClass::Ipc => "Ipc"@,
        },
    ));
}

/// Setting up an activity takes its hash code as its number, and keeps two objects: first what
/// `getWindowManager` gives, then a new `RustWebChromeClient` for the host of the activity.
#[verifier::spinoff_prover]
#[verifier::rlimit(50)]
pub proof fn setup_keeps_manager_and_client<O>(activity: O, package: Seq<char>)
    ensures
        ({
            let plan = crate::plan::setup_steps(package);
            let seen = World::start(Some(activity), None, None).after_plan(plan, package);
            let given = Thing::Given(activity);
            let class = class_named(given, dotted(package, "RustWebChromeClient"@));
            let manager = crate::effects::answer(
                given,
                "getWindowManager"@,
                "()Landroid/view/WindowManager;"@,
                Seq::empty(),
            );
            &&& seen.numbers.len() == 1
            &&& seen.numbers[0] == crate::effects::answer(
                given,
                "hashCode"@,
                "()I"@,
                Seq::empty(),
            )
            &&& seen.kept.len() == 2
            &&& seen.kept[0] == manager
            &&& seen.kept[1] == (Thing::Object {
                class: Box::new(class),
                constructor: "(Landroid/app/Activity;)V"@,
                arguments: seq![host_of(given)],
            })
            &&& seen.calls.len() == 5
            &&& Thing::Answer(Box::new(seen.calls[0])) == seen.numbers[0]
            &&& Thing::Answer(Box::new(seen.calls[1])) == manager
            &&& Thing::Answer(Box::new(seen.calls[2])) == host_of(given)
            &&& Thing::Answer(Box::new(seen.calls[3])) == loader_of(given)
            &&& Thing::Answer(Box::new(seen.calls[4])) == class
            &&& seen.read.len() == 0
            &&& seen.hooks.len() == 0
            &&& crate::effects::all_must(plan)
        }),
{
    let plan = crate::plan::setup_steps(package);
    let start = World::start(Some(activity), None::<O>, None::<O>);
    let first = plan.take(4);
    let path = AppClass::RustWebChromeClient.path_text(package);
    let find = crate::plan::find_class_steps(path, Slot::ChromeClientClass);
    let last = plan.skip(7);
    assert(plan =~= first + find + last);
    let w1 = start.after_steps(first, 1, package);
    let w2 = start.after_steps(first, 2, package);
    let w3 = start.after_steps(first, 3, package);
    let w4 = start.after_steps(first, 4, package);
    assert(start.after_steps(first, 0, package) == start);
    assert(w1 == start.after(first[0].action, package));
    assert(w2 == w1.after(first[1].action, package));
    assert(w3 == w2.after(first[2].action, package));
    assert(w4 == w3.after(first[3].action, package));
    crate::effects::no_values(w1);
    crate::effects::no_values(w3);
    class_is_found(w4, path, Slot::ChromeClientClass, package);
    path_gets_dots(package, AppClass::RustWebChromeClient);
    crate::effects::after_both(start, first, find, 3, package);
    let w7 = w4.after_plan(find, package);
    crate::effects::after_both(start, first + find, last, 2, package);
    let w8 = w7.after_steps(last, 1, package);
    let w9 = w7.after_steps(last, 2, package);
    assert(w7.after_steps(last, 0, package) == w7);
    assert(w8 == w7.after(last[0].action, package));
    assert(w9 == w8.after(last[1].action, package));
    crate::effects::one_value(w7, Arg::Object(Slot::HostActivity));
    assert(w7.calls.take(3)[0] == w4.calls[0]);
    assert(w7.calls.take(3)[1] == w4.calls[1]);
    assert(w7.calls.take(3)[2] == w4.calls[2]);
    assert(w7.at(Slot::HostActivity) == host_of(Thing::Given(activity)));
    assert(start.after_plan(plan, package) == w9);
}

/// What the Java side gets to see of a message that is sent, with what is registered when it
/// arrives.
pub open spec fn on_java<H: Host>(
    outgoing: Outgoing<H>,
    registries: RegistriesView<H>,
    any: Option<Arc<H::Object>>,
) -> World<Arc<H::Object>> {
    crate::effects::java_sees(
        registries.handling(outgoing.activity_id, outgoing.message, any),
    )
}

/// Whether a message calls one method of the webview `id`, wherever that is registered.
pub open spec fn webview_gets<H: Host>(
    outgoing: Outgoing<H>,
    id: Seq<char>,
    method: Seq<char>,
    signature: Seq<char>,
    arguments: Seq<Thing<Arc<H::Object>>>,
) -> bool {
    forall|registries: RegistriesView<H>, any: Option<Arc<H::Object>>|
        registries.webviews.contains_key(id) ==> {
            let seen = #[trigger] on_java(outgoing, registries, any);
            &&& seen.calls.len() == 1
            &&& crate::effects::is_java(
                seen.calls[0],
                Thing::Given(registries.webviews[id]),
                method,
                signature,
                arguments,
            )
        }
}

/// Whether a message loads a URL into the webview `id`, with these headers.
pub open spec fn webview_loads<H: Host>(
    outgoing: Outgoing<H>,
    id: Seq<char>,
    url: Seq<char>,
    headers: Option<http::HeaderMap>,
) -> bool {
    forall|registries: RegistriesView<H>, any: Option<Arc<H::Object>>|
        registries.webviews.contains_key(id) ==> {
            let seen = #[trigger] on_java(outgoing, registries, any);
            &&& seen.calls.len() == 1
            &&& is_load(
                seen.calls[0],
                Thing::Given(registries.webviews[id]),
                Thing::Text(url),
                headers,
                false,
            )
        }
}

/// Whether a message evaluates a script in the webview `id`, and keeps the taker of its result
/// under the number that goes along.
pub open spec fn webview_evaluates<H: Host>(
    outgoing: Outgoing<H>,
    id: Seq<char>,
    script: Seq<char>,
    callback: Option<H::EvalCallback>,
) -> bool {
    forall|registries: RegistriesView<H>, any: Option<Arc<H::Object>>|
        registries.webviews.contains_key(id) ==> {
            let seen = #[trigger] on_java(outgoing, registries, any);
            let number = registries.eval_ids as i32;
            &&& seen.calls.len() == 1
            &&& crate::effects::is_java(
                seen.calls[0],
                Thing::Given(registries.webviews[id]),
                "evalScript"@,
                "(ILjava/lang/String;)V"@,
                seq![Thing::Int(number), Thing::Text(script)],
            )
            &&& registries.on_arrival(outgoing.message).eval_callbacks.contains_key(number)
            &&& registries.on_arrival(outgoing.message).eval_callbacks[number] == callback
        }
}

/// Whether a message calls one method of an activity with the webview `id` and more arguments,
/// wherever both are registered.
pub open spec fn activity_gets<H: Host>(
    outgoing: Outgoing<H>,
    activity_id: ActivityId,
    id: Seq<char>,
    method: Seq<char>,
    signature: Seq<char>,
    more: Seq<Thing<Arc<H::Object>>>,
) -> bool {
    forall|registries: RegistriesView<H>, any: Option<Arc<H::Object>>|
        registries.activities.contains_key(activity_id) && registries.webviews.contains_key(id)
            ==> {
            let seen = #[trigger] on_java(outgoing, registries, any);
            &&& seen.calls.len() == 1
            &&& crate::effects::is_java(
                seen.calls[0],
                Thing::Given(registries.activities[activity_id].activity),
                method,
                signature,
                seq![Thing::Given(registries.webviews[id])] + more,
            )
        }
}

/// Whether a message moves and resizes the webview `id` to these bounds, wherever it and its
/// activity are registered.
pub open spec fn child_goes_to<H: Host>(
    outgoing: Outgoing<H>,
    activity_id: ActivityId,
    id: Seq<char>,
    rect: Rect,
) -> bool {
    forall|registries: RegistriesView<H>, any: Option<Arc<H::Object>>|
        registries.activities.contains_key(activity_id) && registries.webviews.contains_key(id)
            ==> {
            let seen = #[trigger] on_java(outgoing, registries, any);
            let activity = Thing::Given(registries.activities[activity_id].activity);
            &&& seen.calls.len() == 4
            &&& crate::effects::is_java(
                seen.calls[3],
                activity,
                "setChildBounds"@,
                "(Landroid/view/View;IIII)V"@,
                placed(
                    Thing::Given(registries.webviews[id]),
                    rect,
                    metrics_of(host_of(activity)),
                ),
            )
        }
}

/// Whether a message asks the webview `id` a question, reads the answer, and hands it on as
/// `completion` says.
pub open spec fn webview_is_asked<H: Host>(
    outgoing: Outgoing<H>,
    id: Seq<char>,
    method: Seq<char>,
    signature: Seq<char>,
    arguments: Seq<Thing<Arc<H::Object>>>,
    completion: Completion<H, Seq<char>>,
) -> bool {
    forall|registries: RegistriesView<H>, any: Option<Arc<H::Object>>|
        registries.webviews.contains_key(id) ==> {
            let seen = #[trigger] on_java(outgoing, registries, any);
            &&& seen.calls.len() == 1
            &&& crate::effects::is_java(
                seen.calls[0],
                Thing::Given(registries.webviews[id]),
                method,
                signature,
                arguments,
            )
            &&& seen.read.len() == 1
            &&& seen.read[0] == Thing::Answer(Box::new(seen.calls[0]))
            &&& registries.handling(outgoing.activity_id, outgoing.message, any).completion
                == completion
        }
}

/// A message to load the page again reloads it, whatever is registered.
pub proof fn reload_message<H: Host>(outgoing: Outgoing<H>, id: String)
    requires
        outgoing.message == WebViewMessage::<H>::Reload(id),
    ensures
        webview_gets(outgoing, id@, "reload"@, "()V"@, seq![]),
{
    assert forall|registries: RegistriesView<H>, any: Option<Arc<H::Object>>|
        registries.webviews.contains_key(id@) implies {
        let seen = #[trigger] on_java(outgoing, registries, any);
        &&& seen.calls.len() == 1
        &&& crate::effects::is_java(
            seen.calls[0],
            Thing::Given(registries.webviews[id@]),
            "reload"@,
            "()V"@,
            seq![],
        )
    } by {
        reload_reloads(registries, outgoing.activity_id, id, any);
    }
}

/// A message to forget the browsing data clears it, whatever is registered.
pub proof fn clear_message<H: Host>(outgoing: Outgoing<H>, id: String)
    requires
        outgoing.message == WebViewMessage::<H>::ClearAllBrowsingData(id),
    ensures
        webview_gets(outgoing, id@, "clearAllBrowsingData"@, "()V"@, seq![]),
{
    assert forall|registries: RegistriesView<H>, any: Option<Arc<H::Object>>|
        registries.webviews.contains_key(id@) implies {
        let seen = #[trigger] on_java(outgoing, registries, any);
        &&& seen.calls.len() == 1
        &&& crate::effects::is_java(
            seen.calls[0],
            Thing::Given(registries.webviews[id@]),
            "clearAllBrowsingData"@,
            "()V"@,
            seq![],
        )
    } by {
        clearing_clears(registries, outgoing.activity_id, id, any);
    }
}

/// A message to load a page text loads that text, whatever is registered.
pub proof fn html_message<H: Host>(outgoing: Outgoing<H>, id: String, html: String)
    requires
        outgoing.message == WebViewMessage::<H>::LoadHtml(id, html),
    ensures
        webview_gets(outgoing, id@, "loadHTMLMainThread"@, "(Ljava/lang/String;)V"@, seq![Thing::Text(html@)]),
{
    assert forall|registries: RegistriesView<H>, any: Option<Arc<H::Object>>|
        registries.webviews.contains_key(id@) implies {
        let seen = #[trigger] on_java(outgoing, registries, any);
        &&& seen.calls.len() == 1
        &&& crate::effects::is_java(
            seen.calls[0],
            Thing::Given(registries.webviews[id@]),
            "loadHTMLMainThread"@,
            "(Ljava/lang/String;)V"@,
            seq![Thing::Text(html@)],
        )
    } by {
        html_is_loaded_as_given(registries, outgoing.activity_id, id, html, any);
    }
}

/// A message to load a URL loads that URL with its headers, whatever is registered.
pub proof fn load_message<H: Host>(outgoing: Outgoing<H>, id: String, url: String, headers: Option<http::HeaderMap>)
    requires
        outgoing.message == WebViewMessage::<H>::LoadUrl(id, url, headers),
    ensures
        webview_loads(outgoing, id@, url@, headers),
{
    assert forall|registries: RegistriesView<H>, any: Option<Arc<H::Object>>|
        registries.webviews.contains_key(id@) implies {
        let seen = #[trigger] on_java(outgoing, registries, any);
        &&& seen.calls.len() == 1
        &&& is_load(
            seen.calls[0],
            Thing::Given(registries.webviews[id@]),
            Thing::Text(url@),
            headers,
            false,
        )
    } by {
        headers_go_along(registries, outgoing.activity_id, id, url, headers, any);
    }
}

/// A message to set the background sets that colour, whatever is registered.
pub proof fn background_message<H: Host>(outgoing: Outgoing<H>, id: String, color: RGBA)
    requires
        outgoing.message == WebViewMessage::<H>::SetBackgroundColor(id, color),
    ensures
        exists|n: i32| is_argb(n, color) && #[trigger] webview_gets(outgoing, id@, "setBackgroundColor"@, "(I)V"@, seq![Thing::Int(n)]),
{
    assert forall|registries: RegistriesView<H>, any: Option<Arc<H::Object>>|
        registries.webviews.contains_key(id@) implies {
        let seen = #[trigger] on_java(outgoing, registries, any);
        &&& seen.calls.len() == 1
        &&& crate::effects::is_java(
            seen.calls[0],
            Thing::Given(registries.webviews[id@]),
            "setBackgroundColor"@,
            "(I)V"@,
            seq![Thing::Int(crate::color::argb(color) as i32)],
        )
    } by {
        background_is_the_colour(registries, outgoing.activity_id, id, color, any);
        reveal_with_fuel(World::after_steps, 2);
    }
    let n = crate::color::argb(color) as i32;
    colour_is_argb(color);
    assert(webview_gets(outgoing, id@, "setBackgroundColor"@, "(I)V"@, seq![Thing::Int(n)]));
}

/// A message to evaluate a script evaluates that script, whatever is registered.
pub proof fn eval_message<H: Host>(outgoing: Outgoing<H>, id: String, script: String, callback: Option<H::EvalCallback>)
    requires
        outgoing.message == WebViewMessage::<H>::Eval(id, script, callback),
    ensures
        webview_evaluates(outgoing, id@, script@, callback),
{
    assert forall|registries: RegistriesView<H>, any: Option<Arc<H::Object>>|
        registries.webviews.contains_key(id@) implies {
        let seen = #[trigger] on_java(outgoing, registries, any);
        let number = registries.eval_ids as i32;
        &&& seen.calls.len() == 1
        &&& crate::effects::is_java(
            seen.calls[0],
            Thing::Given(registries.webviews[id@]),
            "evalScript"@,
            "(ILjava/lang/String;)V"@,
            seq![Thing::Int(number), Thing::Text(script@)],
        )
        &&& registries.on_arrival(outgoing.message).eval_callbacks.contains_key(number)
        &&& registries.on_arrival(outgoing.message).eval_callbacks[number] == callback
    } by {
        script_is_evaluated_as_given(
            registries,
            outgoing.activity_id,
            id,
            script,
            callback,
            any,
        );
    }
}

/// A message to show or hide a child does just that, whatever is registered.
pub proof fn visible_message<H: Host>(outgoing: Outgoing<H>, id: String, visible: bool)
    requires
        outgoing.message == WebViewMessage::<H>::SetVisible(id, visible),
    ensures
        activity_gets(outgoing, outgoing.activity_id, id@, "setChildVisible"@, "(Landroid/view/View;Z)V"@, seq![Thing::Bool(visible)]),
{
    assert forall|registries: RegistriesView<H>, any: Option<Arc<H::Object>>|
        registries.activities.contains_key(outgoing.activity_id)
            && registries.webviews.contains_key(id@) implies {
        let seen = #[trigger] on_java(outgoing, registries, any);
        &&& seen.calls.len() == 1
        &&& crate::effects::is_java(
            seen.calls[0],
            Thing::Given(registries.activities[outgoing.activity_id].activity),
            "setChildVisible"@,
            "(Landroid/view/View;Z)V"@,
            seq![Thing::Given(registries.webviews[id@])] + seq![Thing::Bool(visible)],
        )
    } by {
        visibility_is_what_was_asked(
            registries,
            outgoing.activity_id,
            id,
            visible,
            any,
        );
    }
}

/// A message to take a webview down dismisses its window, whatever is registered.
pub proof fn removal_message<H: Host>(outgoing: Outgoing<H>, id: String)
    requires
        outgoing.message == WebViewMessage::<H>::RemoveChildWebView(id),
    ensures
        activity_gets(outgoing, outgoing.activity_id, id@, "removeChildWebView"@, "(Landroid/view/View;)V"@, seq![]),
{
    assert forall|registries: RegistriesView<H>, any: Option<Arc<H::Object>>|
        registries.activities.contains_key(outgoing.activity_id)
            && registries.webviews.contains_key(id@) implies {
        let seen = #[trigger] on_java(outgoing, registries, any);
        &&& seen.calls.len() == 1
        &&& crate::effects::is_java(
            seen.calls[0],
            Thing::Given(registries.activities[outgoing.activity_id].activity),
            "removeChildWebView"@,
            "(Landroid/view/View;)V"@,
            seq![Thing::Given(registries.webviews[id@])] + seq![],
        )
    } by {
        removal_dismisses_the_window(registries, outgoing.activity_id, id, any);
    }
}

/// A message to move and resize a child takes it to those bounds, whatever is registered.
pub proof fn bounds_message<H: Host>(outgoing: Outgoing<H>, id: String, rect: Rect)
    requires
        outgoing.message == WebViewMessage::<H>::SetBounds(id, rect),
    ensures
        child_goes_to(outgoing, outgoing.activity_id, id@, rect),
{
    assert forall|registries: RegistriesView<H>, any: Option<Arc<H::Object>>|
        registries.activities.contains_key(outgoing.activity_id)
            && registries.webviews.contains_key(id@) implies {
        let seen = #[trigger] on_java(outgoing, registries, any);
        let activity = Thing::Given(registries.activities[outgoing.activity_id].activity);
        &&& seen.calls.len() == 4
        &&& crate::effects::is_java(
            seen.calls[3],
            activity,
            "setChildBounds"@,
            "(Landroid/view/View;IIII)V"@,
            placed(
                Thing::Given(registries.webviews[id@]),
                rect,
                metrics_of(host_of(activity)),
            ),
        )
    } by {
        bounds_are_what_was_asked(registries, outgoing.activity_id, id, rect, any);
    }
}

/// A question for the URL asks the webview for it, whatever is registered.
pub proof fn url_message<H: Host>(outgoing: Outgoing<H>, id: String, reply: H::UrlReply)
    requires
        outgoing.message == WebViewMessage::<H>::GetUrl(id, reply),
    ensures
        webview_is_asked(
            outgoing,
            id@,
            "getUrl"@,
            "()Ljava/lang/String;"@,
            seq![],
            Completion::Url(reply),
        ),
{
    assert forall|registries: RegistriesView<H>, any: Option<Arc<H::Object>>|
        registries.webviews.contains_key(id@) implies {
        let seen = #[trigger] on_java(outgoing, registries, any);
        &&& seen.calls.len() == 1
        &&& crate::effects::is_java(
            seen.calls[0],
            Thing::Given(registries.webviews[id@]),
            "getUrl"@,
            "()Ljava/lang/String;"@,
            seq![],
        )
        &&& seen.read.len() == 1
        &&& seen.read[0] == Thing::Answer(Box::new(seen.calls[0]))
        &&& registries.handling(outgoing.activity_id, outgoing.message, any).completion == Completion::<H, Seq<char>>::Url(reply)
    } by {
        url_is_asked_of_the_webview(registries, outgoing.activity_id, id, reply, any);
    }
}

/// A question for the cookies asks the webview for those of that URL, whatever is registered.
pub proof fn cookies_message<H: Host>(outgoing: Outgoing<H>, id: String, reply: H::CookiesReply, url: String)
    requires
        outgoing.message == WebViewMessage::<H>::GetCookies(id, reply, url),
    ensures
        webview_is_asked(
            outgoing,
            id@,
            "getCookies"@,
            "(Ljava/lang/String;)Ljava/lang/String;"@,
            seq![Thing::Text(url@)],
            Completion::Cookies(reply),
        ),
{
    assert forall|registries: RegistriesView<H>, any: Option<Arc<H::Object>>|
        registries.webviews.contains_key(id@) implies {
        let seen = #[trigger] on_java(outgoing, registries, any);
        &&& seen.calls.len() == 1
        &&& crate::effects::is_java(
            seen.calls[0],
            Thing::Given(registries.webviews[id@]),
            "getCookies"@,
            "(Ljava/lang/String;)Ljava/lang/String;"@,
            seq![Thing::Text(url@)],
        )
        &&& seen.read.len() == 1
        &&& seen.read[0] == Thing::Answer(Box::new(seen.calls[0]))
        &&& registries.handling(outgoing.activity_id, outgoing.message, any).completion == Completion::<H, Seq<char>>::Cookies(reply)
    } by {
        cookies_are_asked_of_the_webview(
            registries,
            outgoing.activity_id,
            id,
            reply,
            url,
            any,
        );
    }
}

} // verus!
