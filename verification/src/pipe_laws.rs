//! What comes of a message: what a run gathers, what is answered, and what is registered.
use crate::action::{Arg, JniAction, OnError, StepView};
use crate::activity::ActivityId;
use crate::attributes::{CreateWebViewAttributes, PlatformSpecificWebViewAttributes, WebViewAttributes};
use crate::effects::World;
use crate::error::WebViewError;
use crate::host::Host;
use crate::inner_webview::InnerWebView;
use crate::main_pipe::{Completion, Finished, TaskView};
use crate::message::{Outgoing, WebViewMessage};
use crate::registries::RegistriesView;
use crate::run::{Ending, Outcome, RunView};
use std::sync::Arc;
use vstd::prelude::*;

verus! {

/// A step that did what it should leads to the next one, and what it gave is gathered: a text and a
/// number in place of an earlier one, and a reference behind the earlier ones.
pub proof fn what_is_given_is_gathered<H: Host>(
    run: RunView<H>,
    text: String,
    number: i32,
    object: Arc<H::Object>,
)
    ensures
        ({
            let after = run.after(Outcome::Done);
            &&& after.at == run.at + 1
            &&& after.text == run.text
            &&& after.number == run.number
            &&& after.objects == run.objects
            &&& after.ending == run.ending
        }),
        ({
            let after = run.after(Outcome::Text(text));
            &&& after.at == run.at + 1
            &&& after.text == Some(text@)
            &&& after.number == run.number
            &&& after.objects == run.objects
            &&& after.ending == run.ending
        }),
        ({
            let after = run.after(Outcome::Number(number));
            &&& after.at == run.at + 1
            &&& after.text == run.text
            &&& after.number == Some(number)
            &&& after.objects == run.objects
            &&& after.ending == run.ending
        }),
        ({
            let after = run.after(Outcome::Object(object));
            &&& after.at == run.at + 1
            &&& after.text == run.text
            &&& after.number == run.number
            &&& after.objects.len() == run.objects.len() + 1
            &&& after.objects.last() == object
            &&& after.objects.drop_last() == run.objects
            &&& after.ending == run.ending
        }),
{
    assert(run.after(Outcome::Object(object)).objects.drop_last() =~= run.objects);
}

/// A step that failed does what was laid down for it: it ends the run with the error, or it leaves
/// the rest out and keeps the error, or it leaves out as many steps as it says and the run goes on
/// as if nothing had been.
pub proof fn failure_does_as_laid_down<H: Host>(run: RunView<H>, error: jni::errors::Error)
    requires
        run.wf(),
        !run.done(),
    ensures
        ({
            let after = run.after(Outcome::Failed(error));
            &&& after.text == run.text
            &&& after.number == run.number
            &&& after.objects == run.objects
            &&& after.plan == run.plan
            &&& match run.plan[run.at].on_error {
                OnError::Return => after.done() && after.ending == Ending::Failed(error),
                OnError::Conclude => after.done() && after.ending == Ending::Concluded(error),
                OnError::Skip(n) => after.at == run.at + 1 + n && after.ending == run.ending,
            }
        }),
{
}

/// Where nothing fails, the references of a run are those of the objects that Java was asked to
/// keep, in the same order: the one that came of the step that keeps the `k`-th object is the
/// `k`-th reference.
#[verifier::spinoff_prover]
#[verifier::rlimit(60)]
pub proof fn references_are_of_what_is_kept<H: Host, O>(
    plan: Seq<StepView>,
    outcomes: Seq<Outcome<H>>,
    world: World<O>,
    package: Seq<char>,
)
    requires
        crate::run::skips_soundly(plan),
        plan.len() <= usize::MAX,
        crate::laws::is_history(RunView::<H>::start(plan), outcomes),
        forall|i: int| 0 <= i < outcomes.len() ==> !((#[trigger] outcomes[i]) is Failed),
        world.kept.len() == 0,
    ensures
        ({
            let run = crate::laws::after_all(RunView::<H>::start(plan), outcomes);
            &&& run.objects.len() == world.after_steps(plan, outcomes.len(), package).kept.len()
            &&& forall|i: int|
                0 <= i < outcomes.len() && (#[trigger] plan[i]).action is NewGlobalRef ==> {
                    let k = world.after_steps(plan, i as nat, package).kept.len();
                    &&& k < run.objects.len()
                    &&& outcomes[i] == Outcome::<H>::Object(run.objects[k as int])
                }
        }),
{
    references_by_count::<H>(plan, outcomes);
    crate::laws::undisturbed_runs_end_fine::<H>(plan, outcomes);
    assert(plan.take(0) =~= Seq::<StepView>::empty());
    crate::laws::runs_end(RunView::<H>::start(plan), outcomes);
    kept_by_count(world, plan, outcomes.len(), package);
    assert forall|i: int| 0 <= i < outcomes.len() implies #[trigger] world.after_steps(
        plan,
        i as nat,
        package,
    ).kept.len() == crate::run::objects_in(plan.take(i)) by {
        kept_by_count(world, plan, i as nat, package);
    }
}

proof fn kept_by_count<O>(world: World<O>, plan: Seq<StepView>, n: nat, package: Seq<char>)
    requires
        world.kept.len() == 0,
        n <= plan.len(),
    ensures
        world.after_steps(plan, n, package).kept.len() == crate::run::objects_in(
            plan.take(n as int),
        ),
    decreases n,
{
    if n > 0 {
        kept_by_count(world, plan, (n - 1) as nat, package);
        kept_by_one(
            world.after_steps(plan, (n - 1) as nat, package),
            plan[n - 1].action,
            package,
        );
        assert(plan.take(n as int).drop_last() =~= plan.take(n - 1));
        assert(plan.take(n as int).last() == plan[n - 1]);
    }
}

proof fn kept_by_one<O>(
    world: World<O>,
    action: JniAction<Seq<char>, Seq<Arg>>,
    package: Seq<char>,
)
    ensures
        world.after(action, package).kept.len() == world.kept.len() + if action is NewGlobalRef {
            1int
        } else {
            0
        },
{
}

#[verifier::spinoff_prover]
proof fn references_by_count<H: Host>(plan: Seq<StepView>, outcomes: Seq<Outcome<H>>)
    requires
        crate::run::skips_soundly(plan),
        plan.len() <= usize::MAX,
        crate::laws::is_history(RunView::<H>::start(plan), outcomes),
        forall|i: int| 0 <= i < outcomes.len() ==> !((#[trigger] outcomes[i]) is Failed),
    ensures
        ({
            let run = crate::laws::after_all(RunView::<H>::start(plan), outcomes);
            &&& run.objects.len() == crate::run::objects_in(plan.take(outcomes.len() as int))
            &&& forall|i: int|
                0 <= i < outcomes.len() && (#[trigger] plan[i]).action is NewGlobalRef ==> {
                    let k = crate::run::objects_in(plan.take(i));
                    &&& k < run.objects.len()
                    &&& outcomes[i] == Outcome::<H>::Object(run.objects[k as int])
                }
        }),
    decreases outcomes.len(),
{
    let start = RunView::<H>::start(plan);
    assert(plan.take(0) =~= Seq::<StepView>::empty());
    if outcomes.len() > 0 {
        let earlier = outcomes.drop_last();
        assert forall|i: int| 0 <= i < earlier.len() implies !((#[trigger] earlier[i]) is Failed) by {
            assert(earlier[i] == outcomes[i]);
        }
        references_by_count(plan, earlier);
        crate::laws::undisturbed_runs_end_fine::<H>(plan, earlier);
        crate::laws::runs_end(start, earlier);
        let n = earlier.len() as int;
        let last = outcomes.last();
        assert(last == outcomes[n]);
        let before = crate::laws::after_all(start, earlier);
        let run = crate::laws::after_all(start, outcomes);
        assert(run == before.after(last));
        assert(before.at == n);
        assert(plan.take(n + 1).drop_last() =~= plan.take(n));
        assert(plan.take(n + 1).last() == plan[n]);
        assert forall|i: int|
            0 <= i < outcomes.len() && (#[trigger] plan[i]).action is NewGlobalRef implies {
            let k = crate::run::objects_in(plan.take(i));
            &&& k < run.objects.len()
            &&& outcomes[i] == Outcome::<H>::Object(run.objects[k as int])
        } by {
            if i < n {
                assert(earlier[i] == outcomes[i]);
            }
        }
    }
}

/// A setup that nothing disturbed has as its number the one that came of the first step, and as its
/// references the one to the window manager and then the one to the client: those that came of the
/// steps that keep these two.
#[verifier::spinoff_prover]
#[verifier::rlimit(60)]
pub proof fn setup_gathers_manager_and_client<H: Host>(
    package: Seq<char>,
    outcomes: Seq<Outcome<H>>,
)
    requires
        crate::laws::is_history(RunView::<H>::start(crate::plan::setup_steps(package)), outcomes),
        crate::laws::after_all(
            RunView::<H>::start(crate::plan::setup_steps(package)),
            outcomes,
        ).done(),
        forall|i: int| 0 <= i < outcomes.len() ==> !((#[trigger] outcomes[i]) is Failed),
    ensures
        ({
            let plan = crate::plan::setup_steps(package);
            let run = crate::laws::after_all(RunView::<H>::start(plan), outcomes);
            &&& outcomes.len() == 9
            &&& run.ending is Fine
            &&& outcomes[0] matches Outcome::Number(n) && run.number == Some(n)
            &&& run.objects.len() == 2
            &&& outcomes[2] == Outcome::<H>::Object(run.objects[0])
            &&& outcomes[8] == Outcome::<H>::Object(run.objects[1])
        }),
{
    let plan = crate::plan::setup_steps(package);
    let start = RunView::<H>::start(plan);
    crate::plan_laws::setup_gives_all(package);
    assert(plan.len() == 9);
    crate::laws::undisturbed_runs_end_fine::<H>(plan, outcomes);
    assert(plan.take(0) =~= Seq::<StepView>::empty());
    crate::laws::runs_end(start, outcomes);
    assert(outcomes.len() == 9);
    let o1 = outcomes.take(1);
    let o2 = outcomes.take(2);
    let o3 = outcomes.take(3);
    let o4 = outcomes.take(4);
    let o5 = outcomes.take(5);
    let o6 = outcomes.take(6);
    let o7 = outcomes.take(7);
    let o8 = outcomes.take(8);
    assert(outcomes.drop_last() =~= o8 && o8.drop_last() =~= o7 && o7.drop_last() =~= o6);
    assert(o6.drop_last() =~= o5 && o5.drop_last() =~= o4 && o4.drop_last() =~= o3);
    assert(o3.drop_last() =~= o2 && o2.drop_last() =~= o1 && o1.drop_last() =~= Seq::empty());
    assert(outcomes.last() == outcomes[8] && o8.last() == outcomes[7] && o7.last() == outcomes[6]);
    assert(o6.last() == outcomes[5] && o5.last() == outcomes[4] && o4.last() == outcomes[3]);
    assert(o3.last() == outcomes[2] && o2.last() == outcomes[1] && o1.last() == outcomes[0]);
    let r1 = crate::laws::after_all(start, o1);
    let r2 = crate::laws::after_all(start, o2);
    let r3 = crate::laws::after_all(start, o3);
    let r4 = crate::laws::after_all(start, o4);
    let r5 = crate::laws::after_all(start, o5);
    let r6 = crate::laws::after_all(start, o6);
    let r7 = crate::laws::after_all(start, o7);
    let r8 = crate::laws::after_all(start, o8);
    assert(crate::laws::is_history(start, o8));
    assert(crate::laws::is_history(start, o7));
    assert(crate::laws::is_history(start, o6));
    assert(crate::laws::is_history(start, o5));
    assert(crate::laws::is_history(start, o4));
    assert(crate::laws::is_history(start, o3));
    assert(crate::laws::is_history(start, o2));
    assert(crate::laws::is_history(start, o1));
    assert(crate::laws::after_all(start, Seq::<Outcome<H>>::empty()) == start);
    assert(r1 == start.after(outcomes[0]));
    assert(r2 == r1.after(outcomes[1]));
    assert(r3 == r2.after(outcomes[2]));
    assert(r4 == r3.after(outcomes[3]));
    assert(r5 == r4.after(outcomes[4]));
    assert(r6 == r5.after(outcomes[5]));
    assert(r7 == r6.after(outcomes[6]));
    assert(r8 == r7.after(outcomes[7]));
}

/// A message without an answer is reported as it ended: well, or with the error that ended it.
pub proof fn ending_is_reported<H: Host>(task: TaskView<H>, finished: Finished<H>)
    requires
        task.completion is Nothing || task.completion is Created,
        crate::main_pipe::concludes(task, finished),
    ensures
        task.run.ending matches Ending::Failed(e) ==> finished == Finished::<H>::Return(Err(e)),
        !(task.run.ending is Failed) ==> finished == Finished::<H>::Return(Ok(())),
{
}

/// A question is answered to the one who asked. Where the answer was read, it is the very text: as
/// the version, as the URL, or as the cookies in it. Where it could not be read, the version is
/// answered with the error, the URL with the empty text, and the cookies with those of the empty
/// text.
pub proof fn questions_are_answered_as_read<H: Host>(task: TaskView<H>, finished: Finished<H>)
    requires
        task.wf(),
        task.run.done(),
        !(task.run.ending is Failed),
        crate::main_pipe::concludes(task, finished),
    ensures
        task.completion matches Completion::Version(reply) ==> {
            &&& finished matches Finished::Version(to, answer)
            &&& to == reply
            &&& match task.run.ending {
                Ending::Concluded(e) => answer == Err::<String, WebViewError>(
                    WebViewError::Jni(e),
                ),
                _ => task.run.text is Some && answer is Ok && answer->Ok_0@ == task.run.text->0,
            }
        },
        task.completion matches Completion::VersionWithoutActivity(reply) ==> finished
            == Finished::<H>::Version(reply, Err(WebViewError::ActivityNotFound)),
        task.completion matches Completion::Url(reply) ==> {
            &&& finished matches Finished::Url(to, answer)
            &&& to == reply
            &&& task.run.ending is Fine ==> task.run.text == Some(answer@)
            &&& task.run.ending is Concluded ==> answer@.len() == 0
        },
        task.completion matches Completion::Cookies(reply) ==> {
            &&& finished matches Finished::Cookies(to, answer)
            &&& to == reply
            &&& task.run.ending is Fine ==> task.run.text is Some && answer@
                == crate::cookies::cookies_in(task.run.text->0)
            &&& task.run.ending is Concluded ==> answer@ == crate::cookies::cookies_in(Seq::empty())
        },
{
    assert(task.run.plan.take(task.run.at) =~= task.run.plan);
}

/// Questions that end with an error that was not provided for report it and are not answered.
pub proof fn failed_questions_report<H: Host>(
    task: TaskView<H>,
    finished: Finished<H>,
    error: jni::errors::Error,
)
    requires
        task.completion is Version || task.completion is Url || task.completion is Cookies,
        task.run.ending == Ending::Failed(error),
        crate::main_pipe::concludes(task, finished),
    ensures
        finished == Finished::<H>::Return(Err(error)),
{
}

/// Code is run with the activity that it was sent to, and with the webview of its id, or with any
/// where it has no id.
pub proof fn code_runs_where_it_was_sent<H: Host>(
    registries: RegistriesView<H>,
    activity_id: ActivityId,
    id: Option<String>,
    job: H::Job,
    any: Option<Arc<H::Object>>,
    finished: Finished<H>,
)
    requires
        registries.activities.contains_key(activity_id),
        crate::main_pipe::concludes(
            registries.handling(activity_id, WebViewMessage::<H>::Jni(id, job), any),
            finished,
        ),
    ensures
        ({
            let task = registries.handling(activity_id, WebViewMessage::<H>::Jni(id, job), any);
            &&& task.run.plan.len() == 0
            &&& finished matches Finished::Run { job: ran, activity, webview }
            &&& ran == job
            &&& activity == Some(registries.activities[activity_id].activity)
            &&& match id {
                Some(name) => webview == if registries.webviews.contains_key(name@) {
                    Some(registries.webviews[name@])
                } else {
                    None
                },
                None => webview == any,
            }
        }),
{
}

/// Evaluating a script uses up one number, and the takers of other scripts stay.
pub proof fn evaluating_uses_up_a_number<H: Host>(
    registries: RegistriesView<H>,
    id: String,
    script: String,
    callback: Option<H::EvalCallback>,
    other: i32,
)
    requires
        registries.webviews.contains_key(id@),
        other != registries.eval_ids as i32,
    ensures
        ({
            let after = registries.on_arrival(WebViewMessage::<H>::Eval(id, script, callback));
            &&& after.eval_ids == (registries.eval_ids + 1) % 0x1_0000_0000
            &&& crate::registries::same_at(after.eval_callbacks, registries.eval_callbacks, other)
            &&& after.activities == registries.activities
            &&& after.webviews == registries.webviews
            &&& after.attributes == registries.attributes
            &&& after.webview_ids == registries.webview_ids
            &&& after.package == registries.package
        }),
{
}

/// Only a script that is evaluated and an activity that goes away change anything when they arrive.
pub proof fn arrival_of_others_changes_nothing<H: Host>(
    registries: RegistriesView<H>,
    message: WebViewMessage<H>,
)
    requires
        !(message is Eval),
        !(message is OnDestroy),
    ensures
        registries.on_arrival(message) == registries,
{
}

/// An activity that goes away for good is taken out, with all that stands under the id of its
/// webview; the rest stays.
pub proof fn destruction_takes_out_both<H: Host>(
    registries: RegistriesView<H>,
    activity_id: ActivityId,
    webview_id: String,
)
    ensures
        ({
            let after = registries.on_arrival(
                WebViewMessage::<H>::OnDestroy {
                    activity_id,
                    webview_id,
                    is_changing_configurations: false,
                },
            );
            let id = webview_id@;
            &&& after.activities == registries.activities.remove(activity_id)
            &&& after.webviews == registries.webviews.remove(id)
            &&& after.attributes == registries.attributes.remove(id)
            &&& after.ipc == registries.ipc.remove(id)
            &&& after.request_handlers == registries.request_handlers.remove(id)
            &&& after.title_handlers == registries.title_handlers.remove(id)
            &&& after.url_loading_overrides == registries.url_loading_overrides.remove(id)
            &&& after.on_load_handlers == registries.on_load_handlers.remove(id)
            &&& after.with_asset_loader == registries.with_asset_loader.remove(id)
            &&& after.asset_loader_domains == registries.asset_loader_domains.remove(id)
            &&& after.package == registries.package
            &&& after.eval_callbacks == registries.eval_callbacks
            &&& after.eval_ids == registries.eval_ids
            &&& after.webview_ids == registries.webview_ids
        }),
{
}

/// Only a creation and a removal change anything when they are completed.
pub proof fn completion_of_others_changes_nothing<H: Host>(
    registries: RegistriesView<H>,
    task: TaskView<H>,
)
    requires
        !(task.completion is Created),
        !(task.completion is Removed),
    ensures
        registries.on_completion(task) == registries,
{
}

/// A creation that is completed registers its one reference under the id of the webview, and in
/// the slot of its activity; the rest stays.
pub proof fn completed_creation_registers<H: Host>(
    registries: RegistriesView<H>,
    task: TaskView<H>,
    activity_id: ActivityId,
    attributes: Arc<CreateWebViewAttributes<H>>,
    other: ActivityId,
)
    requires
        task.completion == (Completion::<H, Seq<char>>::Created { activity_id, attributes }),
        task.run.ending is Fine,
        task.run.objects.len() == 1,
        other != activity_id,
    ensures
        ({
            let after = registries.on_completion(task);
            let webview = task.run.objects[0];
            &&& after.webviews == registries.webviews.insert(attributes.id@, webview)
            &&& registries.activities.contains_key(activity_id) ==> {
                &&& after.activities[activity_id].webview == Some(webview)
                &&& after.activities[activity_id].webview_id == Some(attributes.id)
            }
            &&& crate::registries::same_at(after.activities, registries.activities, other)
            &&& after.attributes == registries.attributes
            &&& after.ipc == registries.ipc
            &&& after.request_handlers == registries.request_handlers
            &&& after.title_handlers == registries.title_handlers
            &&& after.url_loading_overrides == registries.url_loading_overrides
            &&& after.on_load_handlers == registries.on_load_handlers
            &&& after.with_asset_loader == registries.with_asset_loader
            &&& after.asset_loader_domains == registries.asset_loader_domains
            &&& after.package == registries.package
            &&& after.eval_callbacks == registries.eval_callbacks
            &&& after.eval_ids == registries.eval_ids
            &&& after.webview_ids == registries.webview_ids
        }),
{
}

/// A removal that is completed takes out all that stands under the id of the webview, and the
/// slots that remember it; the rest stays. That holds however its steps ended.
pub proof fn completed_removal_takes_out<H: Host>(
    registries: RegistriesView<H>,
    task: TaskView<H>,
    activity_id: ActivityId,
    id: Seq<char>,
    activity: ActivityId,
)
    requires
        task.completion == (Completion::<H, Seq<char>>::Removed { activity_id, webview_id: id }),
        registries.activities.contains_key(activity),
    ensures
        ({
            let after = registries.on_completion(task);
            let slot = registries.activities[activity].webview_id;
            &&& after.webviews == registries.webviews.remove(id)
            &&& after.attributes == registries.attributes.remove(id)
            &&& after.ipc == registries.ipc.remove(id)
            &&& after.request_handlers == registries.request_handlers.remove(id)
            &&& after.title_handlers == registries.title_handlers.remove(id)
            &&& after.url_loading_overrides == registries.url_loading_overrides.remove(id)
            &&& after.on_load_handlers == registries.on_load_handlers.remove(id)
            &&& after.with_asset_loader == registries.with_asset_loader.remove(id)
            &&& after.asset_loader_domains == registries.asset_loader_domains.remove(id)
            &&& after.activities.contains_key(activity)
            &&& slot is Some && slot->0@ == id ==> {
                &&& after.activities[activity].webview is None
                &&& after.activities[activity].webview_id is None
            }
            &&& !(slot is Some && slot->0@ == id) ==> after.activities[activity]
                == registries.activities[activity]
            &&& after.package == registries.package
            &&& after.eval_callbacks == registries.eval_callbacks
            &&& after.eval_ids == registries.eval_ids
            &&& after.webview_ids == registries.webview_ids
        }),
{
}

/// Every message about removal is completed as one, whether or not there is a window to dismiss.
pub proof fn removal_is_completed_as_one<H: Host>(
    registries: RegistriesView<H>,
    activity_id: ActivityId,
    id: String,
    any: Option<Arc<H::Object>>,
)
    ensures
        registries.handling(
            activity_id,
            WebViewMessage::<H>::RemoveChildWebView(id),
            any,
        ).completion == (Completion::<H, Seq<char>>::Removed { activity_id, webview_id: id@ }),
{
}

/// A message that needs an activity, or a webview, that is not registered asks nothing of Java.
pub proof fn nothing_is_asked_without_an_activity<H: Host>(
    registries: RegistriesView<H>,
    activity_id: ActivityId,
    message: WebViewMessage<H>,
    any: Option<Arc<H::Object>>,
)
    requires
        !registries.activities.contains_key(activity_id),
        message is CreateWebView || message is GetWebViewVersion || message is SetBounds
            || message is SetVisible || message is RemoveChildWebView,
    ensures
        registries.handling(activity_id, message, any).run.plan.len() == 0,
        message is CreateWebView || message is SetBounds || message is SetVisible
            ==> registries.handling(activity_id, message, any).completion is Nothing,
{
}

/// What a new webview registers under its id: that it has the asset loader or not, how its requests
/// are answered, what it is created from, and each handler and domain that was given. Where one was
/// not given, what stood there stays. Nothing else changes but the number that was used up.
pub proof fn new_webview_registers_what_was_given<H: Host>(
    registries: RegistriesView<H>,
    id: Seq<char>,
    attributes: WebViewAttributes<H>,
    pl_attrs: PlatformSpecificWebViewAttributes<H>,
    created: Arc<CreateWebViewAttributes<H>>,
)
    ensures
        ({
            let after = registries.with_new(id, attributes, pl_attrs, created);
            &&& after.attributes == registries.attributes.insert(id, created)
            &&& after.with_asset_loader == registries.with_asset_loader.insert(
                id,
                pl_attrs.with_asset_loader,
            )
            &&& after.request_handlers.dom() == registries.request_handlers.dom().insert(id)
            &&& after.request_handlers[id].custom_protocols == attributes.custom_protocols
            &&& after.request_handlers[id].https_scheme == pl_attrs.https_scheme
            &&& after.request_handlers[id].initialization_scripts
                == attributes.initialization_scripts
            &&& attributes.ipc_handler matches Some(h) ==> after.ipc == registries.ipc.insert(id, h)
            &&& attributes.ipc_handler is None ==> after.ipc == registries.ipc
            &&& attributes.document_title_changed_handler matches Some(h) ==> after.title_handlers
                == registries.title_handlers.insert(id, h)
            &&& attributes.document_title_changed_handler is None ==> after.title_handlers
                == registries.title_handlers
            &&& attributes.navigation_handler matches Some(h) ==> after.url_loading_overrides
                == registries.url_loading_overrides.insert(id, h)
            &&& attributes.navigation_handler is None ==> after.url_loading_overrides
                == registries.url_loading_overrides
            &&& attributes.on_page_load_handler matches Some(h) ==> after.on_load_handlers
                == registries.on_load_handlers.insert(id, h)
            &&& attributes.on_page_load_handler is None ==> after.on_load_handlers
                == registries.on_load_handlers
            &&& pl_attrs.asset_loader_domain matches Some(d) ==> after.asset_loader_domains
                == registries.asset_loader_domains.insert(id, d)
            &&& pl_attrs.asset_loader_domain is None ==> after.asset_loader_domains
                == registries.asset_loader_domains
            &&& after.webview_ids == if attributes.id is Some {
                registries.webview_ids as int
            } else {
                (registries.webview_ids + 1) % 0x1_0000_0000
            }
            &&& after.webviews == registries.webviews
            &&& after.activities == registries.activities
            &&& after.package == registries.package
            &&& after.eval_callbacks == registries.eval_callbacks
            &&& after.eval_ids == registries.eval_ids
        }),
{
    assert(registries.with_new(id, attributes, pl_attrs, created).request_handlers.dom()
        =~= registries.request_handlers.dom().insert(id));
}

/// A webview that is made is the one that was asked for: it has the id that was asked for, or else
/// the next number in decimal; it is hosted by the activity with the smallest id, which gets the
/// message that creates it; and that message holds every attribute as it was given.
pub proof fn webview_is_made_as_asked<H: Host, F: Fn(&str, &str, &str) -> String>(
    before: RegistriesView<H>,
    after: RegistriesView<H>,
    attributes: WebViewAttributes<H>,
    pl_attrs: PlatformSpecificWebViewAttributes<H>,
    is_child: bool,
    apply_uri_work_around: F,
    webview: InnerWebView,
    outgoing: Outgoing<H>,
    activity: ActivityId,
)
    requires
        crate::inner_webview::made(
            before,
            after,
            attributes,
            pl_attrs,
            is_child,
            apply_uri_work_around,
            webview,
            outgoing,
        ),
        before.activities.contains_key(activity),
    ensures
        attributes.id matches Some(id) ==> webview.id@ == id@,
        attributes.id is None ==> webview.id@ == crate::text::decimal(before.webview_ids as nat),
        before.activities.contains_key(webview.activity_id),
        webview.activity_id <= activity,
        outgoing.activity_id == webview.activity_id,
        outgoing.message is CreateWebView,
        ({
            let created = outgoing.message->CreateWebView_0;
            &&& created.id@ == webview.id@
            &&& created.html == attributes.html
            &&& created.devtools == attributes.devtools
            &&& created.transparent == attributes.transparent
            &&& created.background_color == attributes.background_color
            &&& created.headers == attributes.headers
            &&& created.autoplay == attributes.autoplay
            &&& created.on_webview_created == pl_attrs.on_webview_created
            &&& created.user_agent == attributes.user_agent
            &&& created.initialization_scripts == attributes.initialization_scripts
            &&& created.javascript_disabled == attributes.javascript_disabled
            &&& created.is_child == is_child
            &&& created.bounds == attributes.bounds
            &&& created.url is Some <==> attributes.url is Some
            &&& after.attributes.contains_key(webview.id@)
            &&& after.attributes[webview.id@] == created
        }),
{
}

/// The URL that a webview starts with is the one that was asked for, unless it begins with the name
/// of a custom protocol and `://`. In that case it is what the function gives for that URL, for
/// the scheme that was asked for and for that protocol.
pub proof fn url_is_disguised_only_for_custom_protocols<H: Host, F: Fn(
    &str,
    &str,
    &str,
) -> String>(
    before: RegistriesView<H>,
    after: RegistriesView<H>,
    attributes: WebViewAttributes<H>,
    pl_attrs: PlatformSpecificWebViewAttributes<H>,
    is_child: bool,
    apply_uri_work_around: F,
    webview: InnerWebView,
    outgoing: Outgoing<H>,
    protocol: Seq<char>,
    rest: Seq<char>,
)
    requires
        crate::inner_webview::made(
            before,
            after,
            attributes,
            pl_attrs,
            is_child,
            apply_uri_work_around,
            webview,
            outgoing,
        ),
        attributes.url is Some,
        attributes.url->0@ == protocol + "://"@ + rest,
        forall|j: int|
            0 <= j < protocol.len() ==> #[trigger] attributes.url->0@.subrange(j, j + 3) != "://"@,
    ensures
        ({
            let created = outgoing.message->CreateWebView_0;
            if attributes.custom_protocols@.contains_key(protocol) {
                exists|u: &str, s: &str, p: &str, r: String|
                    {
                        &&& #[trigger] call_ensures(apply_uri_work_around, (u, s, p), r)
                        &&& u@ == attributes.url->0@
                        &&& s@ == if pl_attrs.https_scheme {
                            "https"@
                        } else {
                            "http"@
                        }
                        &&& p@ == protocol
                        &&& created.url is Some && r@ == created.url->0@
                    }
            } else {
                created.url == attributes.url
            }
        }),
{
    reveal_strlit("://");
    let url = attributes.url->0@;
    let mark = "://"@;
    crate::text::before_is_shortest(url, mark);
    let n = protocol.len() as int;
    assert(url.subrange(n, n + 3) =~= mark);
    let found = crate::text::before(url, mark);
    assert(found is Some);
    let m = found->0.len() as int;
    assert(url.subrange(m, m + 3) =~= mark);
    assert(m == n);
    assert(found->0 =~= url.subrange(0, m));
    assert(protocol =~= url.subrange(0, n));
}

/// A URL without `://` is started with as it is.
pub proof fn url_without_protocol_is_kept<H: Host, F: Fn(&str, &str, &str) -> String>(
    before: RegistriesView<H>,
    after: RegistriesView<H>,
    attributes: WebViewAttributes<H>,
    pl_attrs: PlatformSpecificWebViewAttributes<H>,
    is_child: bool,
    apply_uri_work_around: F,
    webview: InnerWebView,
    outgoing: Outgoing<H>,
)
    requires
        crate::inner_webview::made(
            before,
            after,
            attributes,
            pl_attrs,
            is_child,
            apply_uri_work_around,
            webview,
            outgoing,
        ),
        attributes.url is Some ==> forall|j: int|
            0 <= j && j + 3 <= attributes.url->0@.len() ==> #[trigger] attributes.url->0@.subrange(
                j,
                j + 3,
            ) != "://"@,
    ensures
        outgoing.message->CreateWebView_0.url == attributes.url,
{
    reveal_strlit("://");
    if attributes.url is Some {
        let url = attributes.url->0@;
        crate::text::before_is_shortest(url, "://"@);
        let found = crate::text::before(url, "://"@);
        if found is Some {
            let m = found->0.len() as int;
            assert(url.subrange(m, m + 3) =~= "://"@);
        }
    }
}

/// A window speaks against a webview exactly where it gives no handle, with the reason for that, or
/// one that is not of Android.
pub proof fn windows_are_refused_for_their_handles(
    handle: Result<raw_window_handle::RawWindowHandle, raw_window_handle::HandleError>,
)
    ensures
        handle matches Err(e) ==> crate::inner_webview::window_error(handle) == Some(
            WebViewError::WindowHandle(e),
        ),
        handle matches Ok(h) ==> {
            &&& crate::outside::is_android_ndk_handle(h) ==> crate::inner_webview::window_error(
                handle,
            ) is None
            &&& !crate::outside::is_android_ndk_handle(h) ==> crate::inner_webview::window_error(
                handle,
            ) == Some(WebViewError::UnsupportedWindowHandle)
        },
{
}

/// The first package that is offered is kept; one that is known already stays.
pub proof fn package_is_the_first(known: Seq<char>, package: Seq<char>)
    ensures
        crate::setup::package_kept(None, package) == package,
        crate::setup::package_kept(Some(known), package) == known,
{
}

/// What creates webviews again after a setup creates only webviews that are known, each from what
/// is kept of it, and no two messages the same webview.
pub proof fn only_known_webviews_come_back<H: Host>(
    attributes: Map<Seq<char>, Arc<CreateWebViewAttributes<H>>>,
    id: ActivityId,
    messages: Seq<Outgoing<H>>,
    i: int,
)
    requires
        crate::setup::recreates(attributes, id, messages),
        0 <= i < messages.len(),
    ensures
        messages.len() == attributes.dom().len(),
        messages[i].activity_id == id,
        exists|known: Seq<char>| #[trigger]
            attributes.contains_key(known) && messages[i].message == WebViewMessage::<
                H,
            >::CreateWebView(attributes[known]),
{
    let ids = choose|ids: Seq<Seq<char>>| #[trigger]
        crate::setup::recreates_in_order(attributes, id, messages, ids);
    assert(crate::setup::recreates_in_order(attributes, id, messages, ids));
    ids.unique_seq_to_set();
    assert(messages[i].activity_id == id);
    assert(ids.to_set().contains(ids[i]));
    assert(attributes.contains_key(ids[i]));
}

} // verus!
