//! Every step finds in place what it needs.
use crate::action::{Arg, JniAction, OnError, Slot, StepView};
use crate::activity::ActivityId;
use crate::attributes::{CreateWebViewAttributes, Rect};
use crate::host::Host;
use crate::main_pipe::TaskView;
use crate::message::WebViewMessage;
use crate::registries::RegistriesView;
use crate::run::{Outcome, RunView};
use std::sync::Arc;
use vstd::prelude::*;

verus! {

/// Something that a step takes from where an earlier step left it.
pub enum Need {
    /// The object in a place.
    Object(Slot),
    /// Bounds in physical pixels.
    Bounds,
}

/// Whether an argument list takes `need`.
pub open spec fn takes(arguments: Seq<Arg>, need: Need) -> bool {
    exists|i: int|
        0 <= i < arguments.len() && match #[trigger] arguments[i] {
            Arg::Object(slot) => need == Need::Object(slot),
            Arg::X | Arg::Y | Arg::Width | Arg::Height => need == Need::Bounds,
            _ => false,
        }
}

/// Whether an action takes `need`.
pub open spec fn uses(action: JniAction<Seq<char>, Seq<Arg>>, need: Need) -> bool {
    match action {
        JniAction::FindStringClass { into: _ } => false,
        JniAction::NewString { text: _, into: _ } => false,
        JniAction::NewStringArray { length: _, class, initial, into: _ } => {
            need == Need::Object(class) || need == Need::Object(initial)
        },
        JniAction::SetArrayElement { array, index: _, value } => {
            need == Need::Object(array) || need == Need::Object(value)
        },
        JniAction::NewObject { class, of: _, arguments, into: _ } => {
            need == Need::Object(class) || takes(arguments, need)
        },
        JniAction::NewHashMap { into: _ } => false,
        JniAction::OpenMap { map } => need == Need::Object(map),
        JniAction::PutEntry { map, key, value } => {
            need == Need::Object(map) || need == Need::Object(key) || need == Need::Object(value)
        },
        JniAction::CallObject { target, method: _, arguments, into: _ } => {
            need == Need::Object(target) || takes(arguments, need)
        },
        JniAction::CallVoid { target, method: _, arguments } => {
            need == Need::Object(target) || takes(arguments, need)
        },
        JniAction::CallStaticVoid { class, method: _, arguments } => {
            need == Need::Object(class) || takes(arguments, need)
        },
        JniAction::CallInt { target, method: _ } => need == Need::Object(target),
        JniAction::ReadText { from } => need == Need::Object(from),
        JniAction::ReadDensity { from } => need == Need::Object(from),
        JniAction::ToPhysical { bounds: _ } => false,
        JniAction::RunCreatedHook => {
            need == Need::Object(Slot::Activity) || need == Need::Object(Slot::WebView)
        },
        JniAction::NewGlobalRef { object } => need == Need::Object(object),
    }
}

/// Whether an action leaves `need` in place.
pub open spec fn leaves(action: JniAction<Seq<char>, Seq<Arg>>, need: Need) -> bool {
    match action {
        JniAction::FindStringClass { into } => need == Need::Object(into),
        JniAction::NewString { text: _, into } => need == Need::Object(into),
        JniAction::NewStringArray { length: _, class: _, initial: _, into } => {
            need == Need::Object(into)
        },
        JniAction::NewObject { class: _, of: _, arguments: _, into } => need == Need::Object(into),
        JniAction::NewHashMap { into } => need == Need::Object(into),
        JniAction::CallObject { target: _, method: _, arguments: _, into } => {
            need == Need::Object(into)
        },
        JniAction::ToPhysical { bounds: _ } => need == Need::Bounds,
        _ => false,
    }
}

/// How far the failure of a step reaches: the step that is performed next.
pub open spec fn reach(plan: Seq<StepView>, k: int) -> int {
    match plan[k].on_error {
        OnError::Skip(n) => k + 1 + n,
        _ => plan.len() as int,
    }
}

/// Whether every failure that keeps step `j` from being performed, its own included, also keeps
/// step `i` from it.
pub open spec fn secured(plan: Seq<StepView>, j: int, i: int) -> bool {
    forall|k: int| 0 <= k <= j && j < #[trigger] reach(plan, k) ==> i < reach(plan, k)
}

/// Whether step `j` leaves `need` in place for step `i`.
pub open spec fn supplies(plan: Seq<StepView>, j: int, i: int, need: Need) -> bool {
    0 <= j < i && leaves(plan[j].action, need) && secured(plan, j, i)
}

/// Whether every step of a plan takes only what is given at first or what an earlier step leaves
/// in place, whichever steps fail.
pub open spec fn supplied(plan: Seq<StepView>, given: Set<Need>) -> bool {
    forall|i: int, need: Need|
        0 <= i < plan.len() && #[trigger] uses(plan[i].action, need) ==> given.contains(need) || (
        exists|j: int| #[trigger] supplies(plan, j, i, need))
}

/// What is in place after some steps have come to the given outcomes.
pub open spec fn in_place<H: Host>(
    run: RunView<H>,
    outcomes: Seq<Outcome<H>>,
    given: Set<Need>,
) -> Set<Need>
    decreases outcomes.len(),
{
    if outcomes.len() == 0 {
        given
    } else {
        let before = crate::laws::after_all(run, outcomes.drop_last());
        let there = in_place(run, outcomes.drop_last(), given);
        if outcomes.last() is Failed {
            there
        } else {
            there.union(Set::new(|need: Need| leaves(before.plan[before.at].action, need)))
        }
    }
}

proof fn secured_steps_are_performed<H: Host>(
    plan: Seq<StepView>,
    outcomes: Seq<Outcome<H>>,
    given: Set<Need>,
)
    requires
        RunView::<H>::start(plan).wf(),
        crate::laws::is_history(RunView::<H>::start(plan), outcomes),
    ensures
        ({
            let run = crate::laws::after_all(RunView::<H>::start(plan), outcomes);
            let there = in_place(RunView::<H>::start(plan), outcomes, given);
            &&& given.subset_of(there)
            &&& !run.done() ==> forall|j: int, need: Need|
                0 <= j < run.at && #[trigger] leaves(plan[j].action, need) && secured(
                    plan,
                    j,
                    run.at,
                ) ==> there.contains(need)
        }),
    decreases outcomes.len(),
{
    let start = RunView::<H>::start(plan);
    if outcomes.len() > 0 {
        let earlier = outcomes.drop_last();
        secured_steps_are_performed(plan, earlier, given);
        crate::laws::runs_end(start, earlier);
        crate::laws::runs_end(start, outcomes);
        let before = crate::laws::after_all(start, earlier);
        let run = crate::laws::after_all(start, outcomes);
        let there = in_place(start, outcomes, given);
        if !run.done() {
            assert forall|j: int, need: Need|
                0 <= j < run.at && #[trigger] leaves(plan[j].action, need) && secured(
                    plan,
                    j,
                    run.at,
                ) implies there.contains(need) by {
                if j < before.at {
                    assert(secured(plan, j, before.at));
                } else if outcomes.last() is Failed {
                    assert(reach(plan, before.at) == run.at);
                }
            }
        }
    }
}

/// Whatever the Java side does, each step of a plan that is supplied finds what it takes in
/// place.
pub proof fn steps_find_what_they_need<H: Host>(
    plan: Seq<StepView>,
    outcomes: Seq<Outcome<H>>,
    given: Set<Need>,
    need: Need,
)
    requires
        RunView::<H>::start(plan).wf(),
        supplied(plan, given),
        crate::laws::is_history(RunView::<H>::start(plan), outcomes),
        !crate::laws::after_all(RunView::<H>::start(plan), outcomes).done(),
        ({
            let run = crate::laws::after_all(RunView::<H>::start(plan), outcomes);
            uses(run.plan[run.at].action, need)
        }),
    ensures
        in_place(RunView::<H>::start(plan), outcomes, given).contains(need),
{
    let start = RunView::<H>::start(plan);
    let run = crate::laws::after_all(start, outcomes);
    crate::laws::runs_end(start, outcomes);
    secured_steps_are_performed(plan, outcomes, given);
    if !given.contains(need) {
        let j = choose|j: int| #[trigger] supplies(plan, j, run.at, need);
        assert(leaves(plan[j].action, need));
    }
}

/// Whether no failure of an earlier step, nor its own, lets a run go on without step `j`.
spec fn never_left_out(plan: Seq<StepView>, j: int) -> bool {
    forall|k: int|
        0 <= k <= j ==> match (#[trigger] plan[k]).on_error {
            OnError::Skip(n) => k + 1 + n <= j,
            _ => true,
        }
}

/// Whether a run that comes to the end of a plan has `need` in place there.
spec fn lasting(plan: Seq<StepView>, need: Need) -> bool {
    exists|j: int|
        0 <= j < plan.len() && #[trigger] leaves(plan[j].action, need) && never_left_out(plan, j)
}

proof fn more_is_given(plan: Seq<StepView>, less: Set<Need>, more: Set<Need>)
    requires
        supplied(plan, less),
        less.subset_of(more),
    ensures
        supplied(plan, more),
{
}

proof fn both_supplied(a: Seq<StepView>, b: Seq<StepView>, given: Set<Need>, then: Set<Need>)
    requires
        crate::run::skips_soundly(a),
        supplied(a, given),
        supplied(b, then),
        forall|need: Need| #[trigger]
            then.contains(need) ==> given.contains(need) || lasting(a, need),
    ensures
        supplied(a + b, given),
{
    let ab = a + b;
    assert forall|i: int, need: Need|
        0 <= i < ab.len() && #[trigger] uses(ab[i].action, need) implies given.contains(need) || (
    exists|j: int| #[trigger] supplies(ab, j, i, need)) by {
        if !given.contains(need) {
            if i < a.len() {
                assert(uses(a[i].action, need));
                let j = choose|j: int| #[trigger] supplies(a, j, i, need);
                assert(secured(ab, j, i)) by {
                    assert forall|k: int| 0 <= k <= j && j < #[trigger] reach(ab, k) implies i
                        < reach(ab, k) by {
                        assert(j < reach(a, k));
                    }
                }
                assert(supplies(ab, j, i, need));
            } else {
                let m = i - a.len();
                assert(ab[i] == b[m]);
                assert(uses(b[m].action, need));
                if then.contains(need) {
                    let j = choose|j: int|
                        0 <= j < a.len() && #[trigger] leaves(a[j].action, need) && never_left_out(
                            a,
                            j,
                        );
                    assert(ab[j] == a[j]);
                    assert(secured(ab, j, i)) by {
                        assert forall|k: int| 0 <= k <= j && j < #[trigger] reach(ab, k) implies i
                            < reach(ab, k) by {
                            assert(ab[k] == a[k]);
                        }
                    }
                    assert(supplies(ab, j, i, need));
                } else {
                    let j = choose|j: int| #[trigger] supplies(b, j, m, need);
                    let shifted = j + a.len();
                    assert(ab[shifted] == b[j]);
                    assert(secured(ab, shifted, i)) by {
                        assert forall|k: int|
                            0 <= k <= shifted && shifted < #[trigger] reach(ab, k) implies i
                            < reach(ab, k) by {
                            if k < a.len() {
                                assert(ab[k] == a[k]);
                            } else {
                                assert(ab[k] == b[k - a.len()]);
                                assert(j < reach(b, k - a.len()));
                            }
                        }
                    }
                    assert(supplies(ab, shifted, i, need));
                }
            }
        }
    }
}

proof fn lasts_in_both(a: Seq<StepView>, b: Seq<StepView>, need: Need)
    requires
        crate::run::skips_soundly(a),
        lasting(a, need) || lasting(b, need),
    ensures
        lasting(a + b, need),
{
    let ab = a + b;
    if lasting(a, need) {
        let j = choose|j: int|
            0 <= j < a.len() && #[trigger] leaves(a[j].action, need) && never_left_out(a, j);
        assert forall|k: int| 0 <= k <= j implies match (#[trigger] ab[k]).on_error {
            OnError::Skip(n) => k + 1 + n <= j,
            _ => true,
        } by {
            assert(ab[k] == a[k]);
        }
        assert(leaves(ab[j].action, need) && never_left_out(ab, j));
    } else {
        let j = choose|j: int|
            0 <= j < b.len() && #[trigger] leaves(b[j].action, need) && never_left_out(b, j);
        let shifted = j + a.len();
        assert forall|k: int| 0 <= k <= shifted implies match (#[trigger] ab[k]).on_error {
            OnError::Skip(n) => k + 1 + n <= shifted,
            _ => true,
        } by {
            if k < a.len() {
                assert(ab[k] == a[k]);
            } else {
                assert(ab[k] == b[k - a.len()]);
            }
        }
        assert(ab[shifted] == b[j]);
        assert(leaves(ab[shifted].action, need) && never_left_out(ab, shifted));
    }
}

proof fn strict_is_supplied(plan: Seq<StepView>, given: Set<Need>)
    requires
        crate::plan_laws::strict(plan),
        forall|i: int, need: Need|
            0 <= i < plan.len() && #[trigger] uses(plan[i].action, need) ==> given.contains(need)
                || (exists|j: int| 0 <= j < i && #[trigger] leaves(plan[j].action, need)),
    ensures
        crate::run::skips_soundly(plan),
        supplied(plan, given),
        forall|j: int, need: Need|
            0 <= j < plan.len() && #[trigger] leaves(plan[j].action, need) ==> lasting(plan, need),
{
    assert forall|i: int, need: Need|
        0 <= i < plan.len() && #[trigger] uses(plan[i].action, need) implies given.contains(need)
        || (exists|j: int| #[trigger] supplies(plan, j, i, need)) by {
        if !given.contains(need) {
            let j = choose|j: int| 0 <= j < i && #[trigger] leaves(plan[j].action, need);
            assert(supplies(plan, j, i, need));
        }
    }
    assert forall|j: int, need: Need|
        0 <= j < plan.len() && #[trigger] leaves(plan[j].action, need) implies lasting(
        plan,
        need,
    ) by {
        assert(never_left_out(plan, j));
    }
}

/// The place of an object, as something that is needed.
spec fn at(slot: Slot) -> Need {
    Need::Object(slot)
}

proof fn make_webview_is_supplied(id: Seq<char>, package: Seq<char>, autoplay: bool)
    ensures
        ({
            let plan = crate::plan::make_webview_steps(id, package, autoplay);
            &&& crate::run::skips_soundly(plan)
            &&& supplied(plan, set![at(Slot::Activity), at(Slot::Scripts)])
            &&& lasting(plan, at(Slot::HostActivity))
            &&& lasting(plan, at(Slot::WebView))
            &&& lasting(plan, at(Slot::WebViewClass))
            &&& lasting(plan, at(Slot::Settings))
        }),
{
    let plan = crate::plan::make_webview_steps(id, package, autoplay);
    assert(plan.len() == 8);
    assert(leaves(plan[0].action, at(Slot::WebViewId)));
    assert(leaves(plan[1].action, at(Slot::HostActivity)));
    assert(leaves(plan[2].action, at(Slot::ClassLoader)));
    assert(leaves(plan[3].action, at(Slot::ClassName)));
    assert(leaves(plan[4].action, at(Slot::WebViewClass)));
    assert(leaves(plan[5].action, at(Slot::WebView)));
    assert(leaves(plan[6].action, at(Slot::Settings)));
    strict_is_supplied(plan, set![at(Slot::Activity), at(Slot::Scripts)]);
}

proof fn client_is_supplied(package: Seq<char>)
    ensures
        ({
            let plan = crate::plan::client_steps(package);
            &&& crate::run::skips_soundly(plan)
            &&& supplied(
                plan,
                set![
                    at(Slot::Activity),
                    at(Slot::WebView),
                    at(Slot::HostActivity),
                    at(Slot::ChromeClient),
                ],
            )
        }),
{
    let plan = crate::plan::client_steps(package);
    assert(plan.len() == 12);
    assert(leaves(plan[0].action, at(Slot::ClassLoader)));
    assert(leaves(plan[1].action, at(Slot::ClassName)));
    assert(leaves(plan[2].action, at(Slot::ClientClass)));
    assert(leaves(plan[3].action, at(Slot::Client)));
    assert(leaves(plan[8].action, at(Slot::IpcClass)));
    assert(leaves(plan[9].action, at(Slot::Ipc)));
    assert(leaves(plan[10].action, at(Slot::IpcName)));
    strict_is_supplied(
        plan,
        set![
            at(Slot::Activity),
            at(Slot::WebView),
            at(Slot::HostActivity),
            at(Slot::ChromeClient),
        ],
    );
}

proof fn script_elements_are_supplied(scripts: Seq<Seq<char>>, n: nat)
    ensures
        supplied(crate::plan::script_elements(scripts, n), set![at(Slot::Scripts)]),
    decreases n,
{
    if n > 0 {
        let given = set![at(Slot::Scripts)];
        let whole = crate::plan::script_elements(scripts, n);
        let earlier = crate::plan::script_elements(scripts, (n - 1) as nat);
        let last = whole.skip(earlier.len() as int);
        script_elements_are_supplied(scripts, (n - 1) as nat);
        crate::plan_laws::script_elements_are_plain(scripts, (n - 1) as nat);
        crate::plan_laws::strict_skips_soundly(earlier);
        assert(last.len() == 2);
        assert(leaves(last[0].action, at(Slot::Text)));
        strict_is_supplied(last, given);
        both_supplied(earlier, last, given, given);
        assert(whole =~= earlier + last);
    }
}

proof fn scripts_are_supplied(scripts: Seq<Seq<char>>)
    ensures
        ({
            let plan = crate::plan::script_steps(scripts);
            &&& crate::run::skips_soundly(plan)
            &&& supplied(plan, Set::empty())
            &&& lasting(plan, at(Slot::Scripts))
        }),
{
    let plan = crate::plan::script_steps(scripts);
    let first = plan.take(3);
    let elements = crate::plan::script_elements(scripts, scripts.len());
    assert(leaves(first[0].action, at(Slot::StringClass)));
    assert(leaves(first[1].action, at(Slot::Text)));
    assert(leaves(first[2].action, at(Slot::Scripts)));
    strict_is_supplied(first, Set::empty());
    script_elements_are_supplied(scripts, scripts.len());
    crate::plan_laws::script_elements_are_plain(scripts, scripts.len());
    crate::plan_laws::strict_skips_soundly(elements);
    both_supplied(first, elements, Set::empty(), set![at(Slot::Scripts)]);
    lasts_in_both(first, elements, at(Slot::Scripts));
    crate::plan_laws::both_skip_soundly(first, elements);
    assert(plan =~= first + elements);
}

proof fn header_elements_are_supplied(headers: Seq<(Seq<char>, Seq<char>)>, n: nat)
    ensures
        supplied(crate::plan::header_elements(headers, n), set![at(Slot::Headers)]),
    decreases n,
{
    if n > 0 {
        let given = set![at(Slot::Headers)];
        let whole = crate::plan::header_elements(headers, n);
        let earlier = crate::plan::header_elements(headers, (n - 1) as nat);
        let last = whole.skip(earlier.len() as int);
        header_elements_are_supplied(headers, (n - 1) as nat);
        crate::plan_laws::header_elements_are_plain(headers, (n - 1) as nat);
        crate::plan_laws::strict_skips_soundly(earlier);
        assert(last.len() == 3);
        assert(leaves(last[0].action, at(Slot::HeaderName)));
        assert(leaves(last[1].action, at(Slot::HeaderValue)));
        strict_is_supplied(last, given);
        both_supplied(earlier, last, given, given);
        assert(whole =~= earlier + last);
    }
}

proof fn load_url_is_supplied(headers: Option<Seq<(Seq<char>, Seq<char>)>>, main_thread: bool)
    ensures
        supplied(
            crate::plan::load_url_steps(headers, main_thread),
            set![at(Slot::WebView), at(Slot::Url)],
        ),
{
    let given = set![at(Slot::WebView), at(Slot::Url)];
    let plan = crate::plan::load_url_steps(headers, main_thread);
    match headers {
        Some(h) => {
            let first = plan.take(2);
            let elements = crate::plan::header_elements(h, h.len());
            let last = plan.skip(2 + elements.len() as int);
            assert(leaves(first[0].action, at(Slot::Headers)));
            strict_is_supplied(first, given);
            header_elements_are_supplied(h, h.len());
            crate::plan_laws::header_elements_are_plain(h, h.len());
            crate::plan_laws::strict_skips_soundly(elements);
            both_supplied(first, elements, given, set![at(Slot::Headers)]);
            lasts_in_both(first, elements, at(Slot::Headers));
            crate::plan_laws::both_skip_soundly(first, elements);
            let then = given.insert(at(Slot::Headers));
            strict_is_supplied(last, then);
            both_supplied(first + elements, last, given, then);
            assert(plan =~= first + elements + last);
        },
        None => {
            strict_is_supplied(plan, given);
        },
    }
}

/// A step whose failure leaves out all that follows supplies all that follows.
proof fn all_or_nothing_is_supplied(
    first: StepView,
    rest: Seq<StepView>,
    given: Set<Need>,
    then: Set<Need>,
)
    requires
        first.on_error == OnError::Skip(rest.len() as usize),
        rest.len() <= usize::MAX,
        forall|need: Need| #[trigger] uses(first.action, need) ==> given.contains(need),
        supplied(rest, then),
        forall|need: Need| #[trigger]
            then.contains(need) ==> given.contains(need) || leaves(first.action, need),
    ensures
        supplied(seq![first] + rest, given),
{
    let plan = seq![first] + rest;
    assert forall|i: int, need: Need|
        0 <= i < plan.len() && #[trigger] uses(plan[i].action, need) implies given.contains(need)
        || (exists|j: int| #[trigger] supplies(plan, j, i, need)) by {
        if i > 0 && !given.contains(need) {
            assert(plan[i] == rest[i - 1]);
            assert(uses(rest[i - 1].action, need));
            if then.contains(need) {
                assert(reach(plan, 0) == plan.len());
                assert(supplies(plan, 0, i, need));
            } else {
                let j = choose|j: int| #[trigger] supplies(rest, j, i - 1, need);
                assert(secured(plan, j + 1, i)) by {
                    assert forall|k: int| 0 <= k <= j + 1 && j + 1 < #[trigger] reach(
                        plan,
                        k,
                    ) implies i < reach(plan, k) by {
                        if k > 0 {
                            assert(plan[k] == rest[k - 1]);
                            assert(j < reach(rest, k - 1));
                        }
                    }
                }
                assert(plan[j + 1] == rest[j]);
                assert(supplies(plan, j + 1, i, need));
            }
        }
    }
}

proof fn navigation_is_supplied(
    url: Option<Seq<char>>,
    html: Option<Seq<char>>,
    headers: Option<Seq<(Seq<char>, Seq<char>)>>,
)
    requires
        crate::plan::navigation_steps(url, html, headers).len() <= usize::MAX,
    ensures
        supplied(crate::plan::navigation_steps(url, html, headers), set![at(Slot::WebView)]),
{
    let given = set![at(Slot::WebView)];
    let plan = crate::plan::navigation_steps(url, html, headers);
    match url {
        Some(_) => {
            load_url_is_supplied(headers, true);
            let rest = crate::plan::load_url_steps(headers, true);
            all_or_nothing_is_supplied(plan[0], rest, given, given.insert(at(Slot::Url)));
            more_is_given(rest, set![at(Slot::WebView), at(Slot::Url)], given.insert(at(Slot::Url)));
            assert(plan =~= seq![plan[0]] + rest);
        },
        None => match html {
            Some(_) => {
                let rest = crate::plan::load_html_steps();
                strict_is_supplied(rest, given.insert(at(Slot::Html)));
                all_or_nothing_is_supplied(plan[0], rest, given, given.insert(at(Slot::Html)));
                assert(plan =~= seq![plan[0]] + rest);
            },
            None => {},
        },
    }
}

proof fn density_is_supplied()
    ensures
        supplied(crate::plan::display_density_steps(), set![at(Slot::HostActivity)]),
{
    let given = set![at(Slot::HostActivity)];
    let plan = crate::plan::display_density_steps();
    let last = seq![plan[2]];
    assert(supplied(last, given.insert(at(Slot::DisplayMetrics))));
    let rest = seq![plan[1]] + last;
    all_or_nothing_is_supplied(
        plan[1],
        last,
        given.insert(at(Slot::Resources)),
        given.insert(at(Slot::DisplayMetrics)),
    );
    all_or_nothing_is_supplied(plan[0], rest, given, given.insert(at(Slot::Resources)));
    assert(plan =~= seq![plan[0]] + rest);
}

proof fn mount_is_supplied(is_child: bool, bounds: Option<Rect>)
    ensures
        supplied(
            crate::plan::mount_steps(is_child, bounds),
            set![at(Slot::Activity), at(Slot::WebView), at(Slot::HostActivity)],
        ),
{
    let given = set![at(Slot::Activity), at(Slot::WebView), at(Slot::HostActivity)];
    let plan = crate::plan::mount_steps(is_child, bounds);
    if is_child {
        let density = crate::plan::display_density_steps();
        let rest = plan.skip(3);
        density_is_supplied();
        crate::plan_laws::density_is_sound();
        more_is_given(density, set![at(Slot::HostActivity)], given);
        if bounds is Some {
            assert(leaves(rest[0].action, Need::Bounds));
        }
        strict_is_supplied(rest, given);
        both_supplied(density, rest, given, given);
        assert(plan =~= density + rest);
    } else {
        strict_is_supplied(plan, given);
    }
}

/// One more part of a creation, which takes only what the making of the webview leaves.
proof fn part_is_supplied(
    plan: Seq<StepView>,
    part: Seq<StepView>,
    given: Set<Need>,
    then: Set<Need>,
)
    requires
        crate::run::skips_soundly(plan),
        crate::run::skips_soundly(part),
        supplied(plan, given),
        supplied(part, then),
        forall|need: Need| #[trigger]
            then.contains(need) ==> given.contains(need) || lasting(plan, need),
    ensures
        crate::run::skips_soundly(plan + part),
        supplied(plan + part, given),
        forall|need: Need| #[trigger]
            then.contains(need) ==> given.contains(need) || lasting(plan + part, need),
{
    both_supplied(plan, part, given, then);
    crate::plan_laws::both_skip_soundly(plan, part);
    assert forall|need: Need| #[trigger] then.contains(need) implies given.contains(need)
        || lasting(plan + part, need) by {
        if !given.contains(need) {
            lasts_in_both(plan, part, need);
        }
    }
}

#[verifier::spinoff_prover]
#[verifier::rlimit(60)]
proof fn creation_is_supplied<H: Host>(
    attributes: &CreateWebViewAttributes<H>,
    package: Seq<char>,
)
    requires
        crate::plan::create_steps(*attributes, package).len() <= usize::MAX,
    ensures
        supplied(
            crate::plan::create_steps(*attributes, package),
            set![at(Slot::Activity), at(Slot::ChromeClient)],
        ),
{
    let given = set![at(Slot::Activity), at(Slot::ChromeClient)];
    let then = given.insert(at(Slot::HostActivity)).insert(at(Slot::WebView)).insert(
        at(Slot::WebViewClass),
    ).insert(at(Slot::Settings));
    let scripts = crate::plan::script_steps(
        crate::attributes::script_texts(attributes.initialization_scripts@),
    );
    let make = crate::plan::make_webview_steps(attributes.id@, package, attributes.autoplay);
    let agent = crate::plan::user_agent_steps(crate::plan::optional(attributes.user_agent));
    let javascript = crate::plan::javascript_steps(attributes.javascript_disabled);
    let back = crate::plan::back_button_steps(attributes.is_child);
    let url = crate::plan::optional(attributes.url);
    let html = crate::plan::optional(attributes.html);
    let headers = crate::plan::header_pairs(attributes.headers);
    let navigation = crate::plan::navigation_steps(url, html, headers);
    let devtools = crate::plan::devtools_steps(attributes.devtools);
    let background = crate::plan::background_steps(
        attributes.transparent,
        attributes.background_color,
    );
    let clients = crate::plan::client_steps(package);
    let mount = crate::plan::mount_steps(attributes.is_child, attributes.bounds);
    let hook = crate::plan::hook_steps(attributes.on_webview_created is Some);
    let keep = crate::plan::keep_steps();

    scripts_are_supplied(crate::attributes::script_texts(attributes.initialization_scripts@));
    more_is_given(scripts, Set::empty(), given);
    make_webview_is_supplied(attributes.id@, package, attributes.autoplay);
    let made = scripts + make;
    both_supplied(scripts, make, given, set![at(Slot::Activity), at(Slot::Scripts)]);
    crate::plan_laws::both_skip_soundly(scripts, make);
    lasts_in_both(scripts, make, at(Slot::HostActivity));
    lasts_in_both(scripts, make, at(Slot::WebView));
    lasts_in_both(scripts, make, at(Slot::WebViewClass));
    lasts_in_both(scripts, make, at(Slot::Settings));

    if attributes.user_agent is Some {
        assert(leaves(agent[0].action, at(Slot::UserAgent)));
    }
    strict_is_supplied(agent, then);
    part_is_supplied(made, agent, given, then);
    strict_is_supplied(javascript, then);
    part_is_supplied(made + agent, javascript, given, then);
    strict_is_supplied(back, then);
    let p5 = made + agent + javascript + back;
    part_is_supplied(made + agent + javascript, back, given, then);
    navigation_is_supplied(url, html, headers);
    crate::plan_laws::navigation_is_sound(url, html, headers);
    more_is_given(navigation, set![at(Slot::WebView)], then);
    part_is_supplied(p5, navigation, given, then);
    strict_is_supplied(devtools, then);
    part_is_supplied(p5 + navigation, devtools, given, then);
    strict_is_supplied(background, then);
    part_is_supplied(p5 + navigation + devtools, background, given, then);
    let p8 = p5 + navigation + devtools + background;
    client_is_supplied(package);
    more_is_given(
        clients,
        set![
            at(Slot::Activity),
            at(Slot::WebView),
            at(Slot::HostActivity),
            at(Slot::ChromeClient),
        ],
        then,
    );
    part_is_supplied(p8, clients, given, then);
    mount_is_supplied(attributes.is_child, attributes.bounds);
    crate::plan_laws::mount_is_sound(attributes.is_child, attributes.bounds);
    more_is_given(
        mount,
        set![at(Slot::Activity), at(Slot::WebView), at(Slot::HostActivity)],
        then,
    );
    part_is_supplied(p8 + clients, mount, given, then);
    assert(supplied(hook, then));
    crate::plan_laws::hook_is_sound(attributes.on_webview_created is Some);
    part_is_supplied(p8 + clients + mount, hook, given, then);
    strict_is_supplied(keep, then);
    part_is_supplied(p8 + clients + mount + hook, keep, given, then);
}

proof fn moving_is_supplied(rect: Rect)
    ensures
        supplied(
            crate::plan::bounds_steps(rect),
            set![at(Slot::Activity), at(Slot::WebView)],
        ),
{
    let given = set![at(Slot::Activity), at(Slot::WebView)];
    let then = given.insert(at(Slot::HostActivity));
    let plan = crate::plan::bounds_steps(rect);
    let first = plan.take(1);
    let density = crate::plan::display_density_steps();
    let last = plan.skip(4);
    assert(leaves(first[0].action, at(Slot::HostActivity)));
    strict_is_supplied(first, given);
    density_is_supplied();
    crate::plan_laws::density_is_sound();
    more_is_given(density, set![at(Slot::HostActivity)], then);
    part_is_supplied(first, density, given, then);
    assert(leaves(last[0].action, Need::Bounds));
    strict_is_supplied(last, then);
    part_is_supplied(first + density, last, given, then);
    assert(plan =~= first + density + last);
}

/// The steps of a setup find what they need in place, with the activity at hand.
pub proof fn setup_is_supplied(package: Seq<char>)
    ensures
        supplied(crate::plan::setup_steps(package), set![Need::Object(Slot::Activity)]),
{
    let plan = crate::plan::setup_steps(package);
    assert(plan.len() == 9);
    assert(leaves(plan[1].action, at(Slot::WindowManager)));
    assert(leaves(plan[3].action, at(Slot::HostActivity)));
    assert(leaves(plan[4].action, at(Slot::ClassLoader)));
    assert(leaves(plan[5].action, at(Slot::ClassName)));
    assert(leaves(plan[6].action, at(Slot::ChromeClientClass)));
    assert(leaves(plan[7].action, at(Slot::ChromeClient)));
    strict_is_supplied(plan, set![at(Slot::Activity)]);
}

/// What is in place before the first step of a message.
pub open spec fn at_hand<H: Host>(task: TaskView<H>) -> Set<Need> {
    Set::new(
        |need: Need|
            {
                ||| need == Need::Object(Slot::Activity) && task.activity is Some
                ||| need == Need::Object(Slot::WebView) && task.webview is Some
                ||| need == Need::Object(Slot::ChromeClient) && task.chrome_client is Some
            },
    )
}

/// The steps of every message find what they need in place: in the activity, the webview and the
/// client that the message is handled with, or where an earlier step left it.
pub proof fn messages_are_supplied<H: Host>(
    registries: RegistriesView<H>,
    activity_id: ActivityId,
    message: WebViewMessage<H>,
    any: Option<Arc<H::Object>>,
)
    requires
        registries.handling(activity_id, message, any).run.plan.len() <= usize::MAX,
    ensures
        ({
            let task = registries.handling(activity_id, message, any);
            supplied(task.run.plan, at_hand(task))
        }),
{
    let task = registries.handling(activity_id, message, any);
    let plan = task.run.plan;
    let given = at_hand(task);
    if plan.len() > 0 {
        match message {
            WebViewMessage::CreateWebView(attributes) => {
                let package = crate::main_pipe::package_or_empty(registries.package);
                creation_is_supplied(&attributes, package);
                more_is_given(plan, set![at(Slot::Activity), at(Slot::ChromeClient)], given);
            },
            WebViewMessage::Eval(_, _, _) => {
                assert(leaves(plan[0].action, at(Slot::Text)));
                strict_is_supplied(plan, given);
            },
            WebViewMessage::GetWebViewVersion(_) => {
                assert(leaves(plan[0].action, at(Slot::Answer)));
                strict_is_supplied(plan, given);
            },
            WebViewMessage::GetUrl(_, _) => {
                assert(leaves(plan[0].action, at(Slot::Answer)));
                strict_is_supplied(plan, given);
            },
            WebViewMessage::GetCookies(_, _, _) => {
                assert(leaves(plan[0].action, at(Slot::Url)));
                assert(leaves(plan[1].action, at(Slot::Answer)));
                strict_is_supplied(plan, given);
            },
            WebViewMessage::LoadUrl(_, _, headers) => {
                let first = plan.take(1);
                let rest = crate::plan::load_url_steps(crate::plan::header_pairs(headers), false);
                let then = given.insert(at(Slot::Url));
                assert(leaves(first[0].action, at(Slot::Url)));
                strict_is_supplied(first, given);
                load_url_is_supplied(crate::plan::header_pairs(headers), false);
                more_is_given(rest, set![at(Slot::WebView), at(Slot::Url)], then);
                both_supplied(first, rest, given, then);
                assert(plan =~= first + rest);
            },
            WebViewMessage::LoadHtml(_, _) => {
                assert(leaves(plan[0].action, at(Slot::Html)));
                strict_is_supplied(plan, given);
            },
            WebViewMessage::SetBounds(_, rect) => {
                moving_is_supplied(rect);
                more_is_given(plan, set![at(Slot::Activity), at(Slot::WebView)], given);
            },
            _ => {
                assert(plan.len() == 1);
            },
        }
    }
}

} // verus!
