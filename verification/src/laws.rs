//! What holds of the backend as a whole.
use crate::action::{Arg, JniAction, OnError, StepView};
use crate::activity::{ActivityId, ActivityProxy};
use crate::attributes::{
    CreateWebViewAttributes, PlatformSpecificWebViewAttributes, Rect, WebViewAttributes,
};
use crate::host::Host;
use crate::inner_webview::InnerWebView;
use crate::main_pipe::{Completion, Finished, TaskView};
use crate::message::{Outgoing, WebViewMessage};
use crate::registries::RegistriesView;
use crate::run::{Ending, Outcome, RunView};
use std::sync::Arc;
use vstd::prelude::*;

verus! {

/// The id of the webview that a message names, other than a message that creates one.
pub open spec fn named_webview<H: Host>(message: WebViewMessage<H>) -> Option<Seq<char>> {
    match message {
        WebViewMessage::CreateWebView(_) => None,
        WebViewMessage::Eval(id, _, _) => Some(id@),
        WebViewMessage::SetBackgroundColor(id, _) => Some(id@),
        WebViewMessage::GetWebViewVersion(_) => None,
        WebViewMessage::GetUrl(id, _) => Some(id@),
        WebViewMessage::GetCookies(id, _, _) => Some(id@),
        WebViewMessage::Jni(id, _) => match id {
            Some(id) => Some(id@),
            None => None,
        },
        WebViewMessage::LoadUrl(id, _, _) => Some(id@),
        WebViewMessage::LoadHtml(id, _) => Some(id@),
        WebViewMessage::Reload(id) => Some(id@),
        WebViewMessage::ClearAllBrowsingData(id) => Some(id@),
        WebViewMessage::SetBounds(id, _) => Some(id@),
        WebViewMessage::SetVisible(id, _) => Some(id@),
        WebViewMessage::RemoveChildWebView(id) => Some(id@),
        WebViewMessage::OnDestroy { activity_id: _, webview_id, is_changing_configurations: _ } => {
            Some(webview_id@)
        },
    }
}

/// A message that names a webview never acts on another one: its steps get the Java object under
/// that very id, or there are no steps.
pub proof fn message_reaches_its_webview<H: Host>(
    registries: RegistriesView<H>,
    activity_id: ActivityId,
    message: WebViewMessage<H>,
    any: Option<Arc<H::Object>>,
    id: Seq<char>,
)
    requires
        named_webview(message) == Some(id),
    ensures
        ({
            let task = registries.handling(activity_id, message, any);
            &&& task.webview is Some ==> task.webview == registries.webview_at(id)
            &&& task.run.plan.len() > 0 ==> registries.webviews.contains_key(id) && task.webview
                == Some(registries.webviews[id])
        }),
{
}

/// A message for a webview that is not registered asks nothing of the Java side. Unless it takes
/// the webview down or its activity away, it changes nothing either.
pub proof fn unknown_webview_is_left_alone<H: Host>(
    registries: RegistriesView<H>,
    activity_id: ActivityId,
    message: WebViewMessage<H>,
    any: Option<Arc<H::Object>>,
    id: Seq<char>,
)
    requires
        named_webview(message) == Some(id),
        !registries.webviews.contains_key(id),
    ensures
        registries.handling(activity_id, message, any).run.plan.len() == 0,
        registries.handling(activity_id, message, any).webview is None,
        !(message is OnDestroy) ==> registries.on_arrival(message) == registries,
        !(message is OnDestroy) && !(message is RemoveChildWebView)
            ==> registries.on_completion(registries.handling(activity_id, message, any))
            == registries,
{
}

/// No message that arrives touches what is kept for another webview than the one it names.
pub proof fn arrival_spares_siblings<H: Host>(
    registries: RegistriesView<H>,
    message: WebViewMessage<H>,
    sibling: Seq<char>,
)
    requires
        named_webview(message) != Some(sibling),
    ensures
        registries.on_arrival(message).agrees_on(registries, sibling),
{
}

/// The id of the webview that the completion of a task registers or forgets.
pub open spec fn completed_webview<H: Host>(task: TaskView<H>) -> Option<Seq<char>> {
    match task.completion {
        Completion::Created { activity_id: _, attributes } => Some(attributes.id@),
        Completion::Removed { activity_id: _, webview_id } => Some(webview_id),
        _ => None,
    }
}

/// No message that is completed touches what is kept for another webview than the one it is
/// about.
pub proof fn completion_spares_siblings<H: Host>(
    registries: RegistriesView<H>,
    task: TaskView<H>,
    sibling: Seq<char>,
)
    requires
        completed_webview(task) != Some(sibling),
    ensures
        registries.on_completion(task).agrees_on(registries, sibling),
{
}

/// A webview whose creation went well is found under its id from then on, and is the one that its
/// activity remembers, unless the activity has gone meanwhile; in that case the webview is found
/// all the same.
pub proof fn created_webview_is_found<H: Host>(
    registries: RegistriesView<H>,
    task: TaskView<H>,
    activity_id: ActivityId,
    attributes: Arc<CreateWebViewAttributes<H>>,
)
    requires
        task.wf(),
        task.run.done(),
        task.run.ending is Fine,
        task.completion == (Completion::<H, Seq<char>>::Created { activity_id, attributes }),
    ensures
        ({
            let after = registries.on_completion(task);
            let webview = task.run.objects[0];
            &&& task.run.objects.len() == 1
            &&& after.webview_at(attributes.id@) == Some(webview)
            &&& registries.activities.contains_key(activity_id)
                ==> after.activities.contains_key(activity_id)
                && after.activities[activity_id].webview == Some(webview)
                && crate::activity::remembers(after.activities[activity_id], attributes.id@)
            &&& !registries.activities.contains_key(activity_id) ==> after.activities
                == registries.activities
            &&& after.activities.dom() == registries.activities.dom()
        }),
{
    assert(task.run.plan.take(task.run.at) =~= task.run.plan);
    assert(registries.on_completion(task).activities.dom() =~= registries.activities.dom());
}

/// A creation that fails registers nothing and reports its error.
pub proof fn failed_creation_changes_nothing<H: Host>(
    registries: RegistriesView<H>,
    task: TaskView<H>,
    finished: Finished<H>,
    error: jni::errors::Error,
)
    requires
        task.completion is Created,
        task.run.ending == Ending::Failed(error),
        crate::main_pipe::concludes(task, finished),
    ensures
        registries.on_completion(task) == registries,
        finished == Finished::<H>::Return(Err(error)),
{
}

/// The run after several steps have come to the given outcomes.
pub open spec fn after_all<H: Host>(run: RunView<H>, outcomes: Seq<Outcome<H>>) -> RunView<H>
    decreases outcomes.len(),
{
    if outcomes.len() == 0 {
        run
    } else {
        after_all(run, outcomes.drop_last()).after(outcomes.last())
    }
}

/// Whether no step of a plan ends the whole by its failure.
pub open spec fn forgiving(plan: Seq<StepView>) -> bool {
    forall|i: int| 0 <= i < plan.len() ==> !((#[trigger] plan[i]).on_error is Return)
}

/// Whether the outcomes are those of the steps, one after the other.
pub open spec fn is_history<H: Host>(run: RunView<H>, outcomes: Seq<Outcome<H>>) -> bool
    decreases outcomes.len(),
{
    outcomes.len() > 0 ==> {
        let before = after_all(run, outcomes.drop_last());
        &&& is_history(run, outcomes.drop_last())
        &&& !before.done()
        &&& crate::run::fits(before.plan[before.at].action, outcomes.last())
    }
}

/// Whatever the Java side does, a run stays well formed, and it takes no more steps than there
/// are.
pub proof fn runs_end<H: Host>(run: RunView<H>, outcomes: Seq<Outcome<H>>)
    requires
        run.wf(),
        is_history(run, outcomes),
    ensures
        after_all(run, outcomes).wf(),
        after_all(run, outcomes).plan == run.plan,
        run.at + outcomes.len() <= after_all(run, outcomes).at,
        outcomes.len() <= run.plan.len() - run.at,
    decreases outcomes.len(),
{
    if outcomes.len() > 0 {
        runs_end(run, outcomes.drop_last());
        let before = after_all(run, outcomes.drop_last());
        crate::run::step_makes_progress(before, outcomes.last());
    }
}

/// A plan whose steps are all forgiving never fails, whatever the Java side does.
pub proof fn forgiving_plans_never_fail<H: Host>(run: RunView<H>, outcomes: Seq<Outcome<H>>)
    requires
        run.wf(),
        forgiving(run.plan),
        !(run.ending is Failed),
        is_history(run, outcomes),
    ensures
        !(after_all(run, outcomes).ending is Failed),
    decreases outcomes.len(),
{
    if outcomes.len() > 0 {
        forgiving_plans_never_fail(run, outcomes.drop_last());
        runs_end(run, outcomes.drop_last());
    }
}

/// A run of which nothing failed performs every step and ends fine.
pub proof fn undisturbed_runs_end_fine<H: Host>(plan: Seq<StepView>, outcomes: Seq<Outcome<H>>)
    requires
        crate::run::skips_soundly(plan),
        is_history(RunView::<H>::start(plan), outcomes),
        forall|i: int| 0 <= i < outcomes.len() ==> !((#[trigger] outcomes[i]) is Failed),
    ensures
        after_all(RunView::<H>::start(plan), outcomes).at == outcomes.len(),
        after_all(RunView::<H>::start(plan), outcomes).ending is Fine,
    decreases outcomes.len(),
{
    if outcomes.len() > 0 {
        assert forall|i: int| 0 <= i < outcomes.drop_last().len() implies !((
        #[trigger] outcomes.drop_last()[i]) is Failed) by {
            assert(outcomes.drop_last()[i] == outcomes[i]);
        }
        undisturbed_runs_end_fine::<H>(plan, outcomes.drop_last());
        assert(outcomes.last() == outcomes[outcomes.len() - 1]);
    }
}

/// Taking a webview down never fails: whatever the Java side does, everything of the webview is
/// forgotten, no activity remembers it, all activities and all other webviews stay, and no error
/// is reported.
pub proof fn removal_always_succeeds<H: Host>(
    registries: RegistriesView<H>,
    later: RegistriesView<H>,
    activity_id: ActivityId,
    id: String,
    any: Option<Arc<H::Object>>,
    outcomes: Seq<Outcome<H>>,
    finished: Finished<H>,
)
    requires
        ({
            let task = registries.handling(
                activity_id,
                WebViewMessage::<H>::RemoveChildWebView(id),
                any,
            );
            let end = TaskView::<H> { run: after_all(task.run, outcomes), ..task };
            &&& is_history(task.run, outcomes)
            &&& end.run.done()
            &&& crate::main_pipe::concludes(end, finished)
        }),
    ensures
        ({
            let task = registries.handling(
                activity_id,
                WebViewMessage::<H>::RemoveChildWebView(id),
                any,
            );
            let end = TaskView::<H> { run: after_all(task.run, outcomes), ..task };
            let after = later.on_completion(end);
            &&& !after.knows(id@)
            &&& forall|a: ActivityId| #[trigger]
                after.activities.contains_key(a) ==> !crate::activity::remembers(
                    after.activities[a],
                    id@,
                )
            &&& after.activities.dom() == later.activities.dom()
            &&& forall|a: ActivityId| #[trigger]
                later.activities.contains_key(a) ==> after.activities[a]
                    == crate::activity::forgetting(later.activities[a], id@)
            &&& forall|sibling: Seq<char>|
                sibling != id@ ==> #[trigger] after.agrees_on(later, sibling)
            &&& finished == Finished::<H>::Return(Ok(()))
        }),
{
    assert(crate::activity::without_webview(later.activities, id@).dom()
        =~= later.activities.dom());
}

/// Whether every activity that has a webview in its slot knows the id of it, and only those do.
pub open spec fn slots_are_named<H: Host>(activities: Map<ActivityId, ActivityProxy<H>>) -> bool {
    forall|a: ActivityId| #[trigger]
        activities.contains_key(a) ==> (activities[a].webview is Some
            <==> activities[a].webview_id is Some)
}

/// An activity that remembers a webview always knows the id of it, so a webview that is removed is
/// found in every slot: nothing that is registered or handled breaks this.
pub proof fn slots_stay_named<H: Host>(
    registries: RegistriesView<H>,
    message: WebViewMessage<H>,
    task: TaskView<H>,
    activity_id: ActivityId,
    proxy: ActivityProxy<H>,
)
    requires
        slots_are_named(registries.activities),
    ensures
        slots_are_named(registries.on_arrival(message).activities),
        slots_are_named(registries.on_completion(task).activities),
        slots_are_named(
            registries.activities.insert(
                activity_id,
                crate::activity::registered_again(registries.activities, activity_id, proxy),
            ),
        ),
{
    let after = registries.on_completion(task).activities;
    assert forall|a: ActivityId| #[trigger] after.contains_key(a) implies (after[a].webview is Some
        <==> after[a].webview_id is Some) by {
        if task.completion is Removed {
            assert(registries.activities.contains_key(a));
        }
    }
}

/// A question for the URL of a registered webview is answered whatever the Java side does: with
/// what was read, or with the empty text.
pub proof fn url_question_is_answered<H: Host>(
    registries: RegistriesView<H>,
    activity_id: ActivityId,
    id: String,
    reply: H::UrlReply,
    any: Option<Arc<H::Object>>,
    outcomes: Seq<Outcome<H>>,
    finished: Finished<H>,
)
    requires
        registries.webviews.contains_key(id@),
        ({
            let task = registries.handling(
                activity_id,
                WebViewMessage::<H>::GetUrl(id, reply),
                any,
            );
            let end = TaskView::<H> { run: after_all(task.run, outcomes), ..task };
            &&& is_history(task.run, outcomes)
            &&& end.run.done()
            &&& crate::main_pipe::concludes(end, finished)
        }),
    ensures
        finished matches Finished::Url(r, _) && r == reply,
{
    let task = registries.handling(activity_id, WebViewMessage::<H>::GetUrl(id, reply), any);
    assert(task.run.plan.take(0) =~= Seq::<StepView>::empty());
    assert(forgiving(task.run.plan));
    forgiving_plans_never_fail(task.run, outcomes);
}

/// A question for the version is answered whatever the Java side does, also where there is no
/// activity to ask.
pub proof fn version_question_is_answered<H: Host>(
    registries: RegistriesView<H>,
    activity_id: ActivityId,
    reply: H::VersionReply,
    any: Option<Arc<H::Object>>,
    outcomes: Seq<Outcome<H>>,
    finished: Finished<H>,
)
    requires
        ({
            let task = registries.handling(
                activity_id,
                WebViewMessage::<H>::GetWebViewVersion(reply),
                any,
            );
            let end = TaskView::<H> { run: after_all(task.run, outcomes), ..task };
            &&& is_history(task.run, outcomes)
            &&& end.run.done()
            &&& crate::main_pipe::concludes(end, finished)
        }),
    ensures
        finished matches Finished::Version(r, _) && r == reply,
        !registries.activities.contains_key(activity_id) ==> finished
            == Finished::<H>::Version(reply, Err(crate::error::WebViewError::ActivityNotFound)),
{
    let task = registries.handling(
        activity_id,
        WebViewMessage::<H>::GetWebViewVersion(reply),
        any,
    );
    assert(task.run.plan.take(0) =~= Seq::<StepView>::empty());
    assert(forgiving(task.run.plan));
    forgiving_plans_never_fail(task.run, outcomes);
}

/// An activity that goes away only to come back with another configuration leaves everything
/// registered.
pub proof fn configuration_change_keeps_everything<H: Host>(
    registries: RegistriesView<H>,
    activity_id: ActivityId,
    webview_id: String,
)
    ensures
        registries.on_arrival(
            WebViewMessage::<H>::OnDestroy {
                activity_id,
                webview_id,
                is_changing_configurations: true,
            },
        ) == registries,
{
}

/// An activity that goes away for good is forgotten together with the webview that it names;
/// other activities stay.
pub proof fn destruction_forgets<H: Host>(
    registries: RegistriesView<H>,
    activity_id: ActivityId,
    webview_id: String,
    other: ActivityId,
)
    requires
        other != activity_id,
    ensures
        ({
            let after = registries.on_arrival(
                WebViewMessage::<H>::OnDestroy {
                    activity_id,
                    webview_id,
                    is_changing_configurations: false,
                },
            );
            &&& !after.knows(webview_id@)
            &&& !after.activities.contains_key(activity_id)
            &&& crate::registries::same_at(after.activities, registries.activities, other)
        }),
{
}

/// Once the activity is back after a configuration change, every webview whose attributes are
/// kept is created again from the same attributes, exactly once.
pub proof fn configuration_change_recreates_all<H: Host>(
    registries: RegistriesView<H>,
    activity_id: ActivityId,
    webview_id: String,
    back: ActivityId,
    messages: Seq<Outgoing<H>>,
    known: Seq<char>,
)
    requires
        ({
            let after = registries.on_arrival(
                WebViewMessage::<H>::OnDestroy {
                    activity_id,
                    webview_id,
                    is_changing_configurations: true,
                },
            );
            crate::setup::recreates(after.attributes, back, messages)
        }),
        registries.attributes.contains_key(known),
    ensures
        exists|i: int|
            {
                &&& 0 <= i < messages.len()
                &&& (#[trigger] messages[i]).activity_id == back
                &&& messages[i].message == WebViewMessage::<H>::CreateWebView(
                    registries.attributes[known],
                )
            },
        messages.len() == registries.attributes.dom().len(),
{
    let attributes = registries.attributes;
    let ids = choose|ids: Seq<Seq<char>>| #[trigger]
        crate::setup::recreates_in_order(attributes, back, messages, ids);
    assert(crate::setup::recreates_in_order(attributes, back, messages, ids));
    assert(ids.to_set().contains(known));
    let i = choose|i: int| 0 <= i < ids.len() && ids[i] == known;
    assert(messages[i].activity_id == back);
    ids.unique_seq_to_set();
}

/// Code that is run without an activity gets no webview either.
pub proof fn job_without_activity_gets_nothing<H: Host>(
    registries: RegistriesView<H>,
    activity_id: ActivityId,
    id: Option<String>,
    job: H::Job,
    any: Option<Arc<H::Object>>,
    finished: Finished<H>,
)
    requires
        !registries.activities.contains_key(activity_id),
        crate::main_pipe::concludes(
            registries.handling(activity_id, WebViewMessage::<H>::Jni(id, job), any),
            finished,
        ),
    ensures
        finished == (Finished::<H>::Run { job, activity: None, webview: None }),
{
}

/// The package that was offered first stays, whatever is offered later.
pub proof fn first_package_stays(known: Option<Seq<char>>, first: Seq<char>, second: Seq<char>)
    ensures
        crate::setup::package_kept(
            Some(crate::setup::package_kept(known, first)),
            second,
        ) == crate::setup::package_kept(known, first),
{
}

/// The name under which a class is loaded holds no slash, and differs from the name with slashes
/// only where that has one.
pub proof fn loaded_name_has_no_slash(name: Seq<char>, i: int)
    requires
        0 <= i < name.len(),
    ensures
        crate::text::replaced(name, '/', '.').len() == name.len(),
        crate::text::replaced(name, '/', '.')[i] != '/',
        name[i] != '/' ==> crate::text::replaced(name, '/', '.')[i] == name[i],
{
}

/// Scripts that are evaluated one after the other get different numbers, so that no result goes
/// to the wrong taker, for as long as the numbers have not been used up.
pub proof fn eval_numbers_are_distinct(upcoming: u32, first: nat, second: nat)
    requires
        first < second,
        second - first <= u32::MAX,
    ensures
        (crate::counter::after_draws(upcoming, first) as i32) != (crate::counter::after_draws(
            upcoming,
            second,
        ) as i32),
{
    crate::counter::draws_are_distinct(upcoming, first, second);
    let a = crate::counter::after_draws(upcoming, first);
    let b = crate::counter::after_draws(upcoming, second);
    assert(a != b ==> (a as i32) != (b as i32)) by (bit_vector);
}

/// Webviews that are made without an id of their own get different ids, for as long as the numbers
/// have not been used up.
pub proof fn generated_ids_are_distinct(upcoming: u32, first: nat, second: nat)
    requires
        first < second,
        second - first <= u32::MAX,
    ensures
        crate::inner_webview::chosen_id(None, crate::counter::after_draws(upcoming, first))
            != crate::inner_webview::chosen_id(
            None,
            crate::counter::after_draws(upcoming, second),
        ),
{
    crate::counter::draws_are_distinct(upcoming, first, second);
    let a = crate::counter::after_draws(upcoming, first) as nat;
    let b = crate::counter::after_draws(upcoming, second) as nat;
    if crate::text::decimal(a) == crate::text::decimal(b) {
        crate::text::decimal_is_injective(a, b);
    }
}

/// A script that is evaluated is sent to Java under a number, and whoever takes its result is
/// kept under the same number.
pub proof fn eval_number_finds_its_taker<H: Host>(
    registries: RegistriesView<H>,
    activity_id: ActivityId,
    id: String,
    script: String,
    callback: Option<H::EvalCallback>,
    any: Option<Arc<H::Object>>,
)
    requires
        registries.webviews.contains_key(id@),
    ensures
        ({
            let message = WebViewMessage::<H>::Eval(id, script, callback);
            let after = registries.on_arrival(message);
            let number = registries.eval_ids as i32;
            &&& registries.handling(activity_id, message, any).run.plan
                == crate::plan::eval_steps(number, script@)
            &&& after.eval_callbacks.contains_key(number)
            &&& after.eval_callbacks[number] == callback
        }),
{
}

/// Making a webview, registering it once it is created, and taking it down again leaves what was
/// registered before, but for the numbers that have been handed out and for the activity that got
/// the webview: it remembers none, not even the one that it remembered before.
pub proof fn removal_undoes_creation<H: Host>(
    registries: RegistriesView<H>,
    id: Seq<char>,
    attributes: WebViewAttributes<H>,
    pl_attrs: PlatformSpecificWebViewAttributes<H>,
    created: Arc<CreateWebViewAttributes<H>>,
    activity_id: ActivityId,
    creation: TaskView<H>,
    removal: TaskView<H>,
)
    requires
        !registries.knows(id),
        forall|a: ActivityId| #[trigger]
            registries.activities.contains_key(a) ==> !crate::activity::remembers(
                registries.activities[a],
                id,
            ),
        created.id@ == id,
        creation.completion == (Completion::<H, Seq<char>>::Created {
            activity_id,
            attributes: created,
        }),
        removal.completion == (Completion::<H, Seq<char>>::Removed {
            activity_id,
            webview_id: id,
        }),
    ensures
        ({
            let made = registries.with_new(id, attributes, pl_attrs, created);
            let registered = made.on_completion(creation);
            registered.on_completion(removal) == (RegistriesView::<H> {
                activities: if creation.run.ending is Fine && registries.activities.contains_key(
                    activity_id,
                ) {
                    registries.activities.insert(
                        activity_id,
                        ActivityProxy::<H> {
                            webview: None,
                            webview_id: None,
                            ..registries.activities[activity_id]
                        },
                    )
                } else {
                    registries.activities
                },
                webview_ids: made.webview_ids,
                ..registries
            })
        }),
{
    let made = registries.with_new(id, attributes, pl_attrs, created);
    let registered = made.on_completion(creation);
    let after = registered.on_completion(removal);
    let kept = if creation.run.ending is Fine && registries.activities.contains_key(activity_id) {
        registries.activities.insert(
            activity_id,
            ActivityProxy::<H> {
                webview: None,
                webview_id: None,
                ..registries.activities[activity_id]
            },
        )
    } else {
        registries.activities
    };
    assert(after.activities =~= kept);
    assert(after =~= (RegistriesView::<H> {
        activities: kept,
        webview_ids: made.webview_ids,
        ..registries
    }));
}

/// Whether `f` gives one text for each URL, scheme and protocol.
pub open spec fn gives_one_text<F: Fn(&str, &str, &str) -> String>(f: F) -> bool {
    forall|url: Seq<char>, scheme: Seq<char>, protocol: Seq<char>, a: Seq<char>, b: Seq<char>|
        #[trigger] crate::work_around::turns(f, url, scheme, protocol, a)
            && #[trigger] crate::work_around::turns(f, url, scheme, protocol, b) ==> a == b
}

/// The same webview made as the content of its activity and as a child: what the two are created
/// from differs in that only the second is a child, and otherwise at most in an id that neither
/// caller chose.
pub proof fn child_differs_in_being_one<H: Host, F: Fn(&str, &str, &str) -> String>(
    attributes: WebViewAttributes<H>,
    pl_attrs: PlatformSpecificWebViewAttributes<H>,
    apply_uri_work_around: F,
    before: RegistriesView<H>,
    after: RegistriesView<H>,
    webview: InnerWebView,
    outgoing: Outgoing<H>,
    before_child: RegistriesView<H>,
    after_child: RegistriesView<H>,
    child: InnerWebView,
    outgoing_child: Outgoing<H>,
)
    requires
        gives_one_text(apply_uri_work_around),
        crate::inner_webview::made(
            before,
            after,
            attributes,
            pl_attrs,
            false,
            apply_uri_work_around,
            webview,
            outgoing,
        ),
        crate::inner_webview::made(
            before_child,
            after_child,
            attributes,
            pl_attrs,
            true,
            apply_uri_work_around,
            child,
            outgoing_child,
        ),
    ensures
        outgoing.message is CreateWebView,
        outgoing_child.message is CreateWebView,
        ({
            let one = *outgoing.message->CreateWebView_0;
            let other = *outgoing_child.message->CreateWebView_0;
            &&& !one.is_child
            &&& other.is_child
            &&& crate::plan::optional(other.url) == crate::plan::optional(one.url)
            &&& other == (CreateWebViewAttributes::<H> {
                is_child: true,
                id: other.id,
                url: other.url,
                ..one
            })
            &&& attributes.id is Some || before.webview_ids == before_child.webview_ids ==> other.id@
                == one.id@
        }),
{
}

/// Where the density of the display cannot be read, a child is moved all the same: the next step
/// is the conversion of the bounds.
pub proof fn density_is_optional<H: Host>(run: RunView<H>, rect: Rect, error: jni::errors::Error)
    requires
        run.plan == crate::plan::bounds_steps(rect),
        1 <= run.at <= 3,
    ensures
        ({
            let after = run.after(Outcome::Failed(error));
            &&& after.ending == run.ending
            &&& after.at == 4
            &&& after.plan[after.at].action == (JniAction::<Seq<char>, Seq<Arg>>::ToPhysical {
                bounds: rect,
            })
        }),
{
    let density = crate::plan::display_density_steps();
    assert(run.plan[run.at] == density[run.at - 1]);
}

/// Where the first page cannot be made a Java string, the webview is created without it: exactly
/// the steps that load the page are left out.
pub proof fn first_page_is_optional(
    url: Option<Seq<char>>,
    html: Option<Seq<char>>,
    headers: Option<Seq<(Seq<char>, Seq<char>)>>,
)
    requires
        url is Some || html is Some,
        crate::plan::navigation_steps(url, html, headers).len() <= usize::MAX,
    ensures
        ({
            let plan = crate::plan::navigation_steps(url, html, headers);
            &&& plan[0].action is NewString
            &&& plan[0].on_error matches OnError::Skip(n) && n == plan.len() - 1
        }),
{
}

} // verus!
