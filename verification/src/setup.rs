//! Setting up an activity, and the calls that need no webview at hand.
use crate::activity::{first_activity_id, register_activity_proxy, Activities, ActivityId, ActivityProxy};
use crate::attributes::CreateWebViewAttributes;
use crate::host::Host;
use crate::message::{Outgoing, WebViewMessage};
use crate::registries::{Registries, RegistriesView};
use crate::run::{Run, RunView};
use std::sync::Arc;
use vstd::prelude::*;

verus! {

/// The package that is in use once `package` has been offered: the first one that ever was.
pub open spec fn package_kept(known: Option<Seq<char>>, package: Seq<char>) -> Seq<char> {
    match known {
        Some(first) => first,
        None => package,
    }
}

/// Begins to set up an activity: keeps the application package, unless one is known already, and
/// gives the steps that get what is kept of the activity.
pub fn begin_setup<H: Host>(registries: &mut Registries<H>, package: &str) -> (r: Run<H>)
    ensures
        r@ == RunView::<H>::start(
            crate::plan::setup_steps(package_kept(old(registries)@.package, package@)),
        ),
        r@.wf(),
        crate::run::number_in(r@.plan),
        crate::run::objects_in(r@.plan) == 2,
        old(registries)@.package is None ==> {
            &&& final(registries)@.package == Some(package@)
            &&& r@.plan == crate::plan::setup_steps(package@)
        },
        old(registries)@.package matches Some(known) ==> {
            &&& final(registries)@ == old(registries)@
            &&& r@.plan == crate::plan::setup_steps(known)
        },
        final(registries)@ == (RegistriesView::<H> {
            package: Some(package_kept(old(registries)@.package, package@)),
            ..old(registries)@
        }),
{
    let kept = match &registries.package {
        Some(known) => known.clone(),
        None => package.to_owned(),
    };
    let steps = crate::plan::setup(kept.as_str());
    registries.package = Some(kept);
    Run::new(steps)
}

/// Whether `messages` creates every webview once more, for the activity `id`: one message for
/// each webview whose attributes are kept.
pub open spec fn recreates<H: Host>(
    attributes: Map<Seq<char>, Arc<CreateWebViewAttributes<H>>>,
    id: ActivityId,
    messages: Seq<Outgoing<H>>,
) -> bool {
    exists|ids: Seq<Seq<char>>| #[trigger] recreates_in_order(attributes, id, messages, ids)
}

/// Whether `messages` creates the webviews `ids` once more, in this order, and these are all.
pub open spec fn recreates_in_order<H: Host>(
    attributes: Map<Seq<char>, Arc<CreateWebViewAttributes<H>>>,
    id: ActivityId,
    messages: Seq<Outgoing<H>>,
    ids: Seq<Seq<char>>,
) -> bool {
    &&& ids.no_duplicates()
    &&& ids.to_set() == attributes.dom()
    &&& messages.len() == ids.len()
    &&& forall|i: int|
        0 <= i < messages.len() ==> (#[trigger] messages[i]).activity_id == id
            && messages[i].message == WebViewMessage::<H>::CreateWebView(attributes[ids[i]])
}

/// Whether the steps of a setup have all been performed without a failure.
pub open spec fn setup_succeeded<H: Host>(run: RunView<H>) -> bool {
    &&& run.wf()
    &&& run.done()
    &&& run.ending is Fine
    &&& crate::run::number_in(run.plan)
    &&& crate::run::objects_in(run.plan) == 2
}

/// Registers an activity whose setup steps have been performed, and gives the messages that
/// create again every webview that is known: all of them, not just the last.
pub fn android_setup<H: Host>(
    registries: &mut Registries<H>,
    vm: H::JavaVm,
    activity: Arc<H::Object>,
    run: Run<H>,
) -> (r: Vec<Outgoing<H>>)
    requires
        setup_succeeded(run@),
    ensures
        run@.number is Some,
        run@.objects.len() == 2,
        final(registries)@ == (RegistriesView::<H> {
            activities: old(registries)@.activities.insert(
                run@.number->0,
                crate::activity::registered_again(
                    old(registries)@.activities,
                    run@.number->0,
                    ActivityProxy::<H> {
                        activity,
                        window_manager: run@.objects[0],
                        webview: None,
                        webview_id: None,
                        webchrome_client: run@.objects[1],
                        java_vm: vm,
                    },
                ),
            ),
            ..old(registries)@
        }),
        recreates(old(registries)@.attributes, run@.number->0, r@),
        ({
            let registered = final(registries)@.activities[run@.number->0];
            &&& final(registries)@.activities.contains_key(run@.number->0)
            &&& registered.activity == activity
            &&& registered.window_manager == run@.objects[0]
            &&& registered.webchrome_client == run@.objects[1]
            &&& registered.java_vm == vm
        }),
{
    assert(run@.plan.take(run@.at) =~= run@.plan);
    let gathered = run.gathered();
    let activity_id: ActivityId = gathered.number.unwrap();
    register_activity_proxy(
        &mut registries.activities,
        vm,
        activity_id,
        activity,
        gathered.objects[0].clone(),
        gathered.objects[1].clone(),
    );
    let ids = registries.attributes.keys();
    let ghost known = registries@.attributes;
    let ghost all = crate::text::texts(ids@);
    let mut messages: Vec<Outgoing<H>> = Vec::new();
    let mut i: usize = 0;
    while i < ids.len()
        invariant
            i <= ids@.len(),
            all == crate::text::texts(ids@),
            all.to_set() == known.dom(),
            known == registries@.attributes,
            messages@.len() == i,
            forall|j: int|
                0 <= j < i ==> (#[trigger] messages@[j]).activity_id == activity_id
                    && messages@[j].message == WebViewMessage::<H>::CreateWebView(known[all[j]]),
        decreases ids@.len() - i,
    {
        assert(all[i as int] == ids@[i as int]@);
        assert(all.to_set().contains(all[i as int]));
        let attributes = registries.attributes.get(ids[i].as_str()).unwrap().clone();
        messages.push(
            Outgoing { activity_id, message: WebViewMessage::CreateWebView(attributes) },
        );
        i = i + 1;
    }
    assert(recreates_in_order(known, activity_id, messages@, all));
    messages
}

/// The message that asks for the version of the webview. While no activity is registered there is
/// nobody to ask, and the reply is handed back: the caller tries again later.
pub fn platform_webview_version<H: Host>(
    activities: &Activities<H>,
    reply: H::VersionReply,
) -> (r: Result<Outgoing<H>, H::VersionReply>)
    ensures
        match r {
            Ok(outgoing) => crate::activity::is_first(activities@, outgoing.activity_id)
                && outgoing.message == WebViewMessage::<H>::GetWebViewVersion(reply),
            Err(handed_back) => activities@.dom() == Set::<ActivityId>::empty() && handed_back
                == reply,
        },
{
    match first_activity_id(activities) {
        Some(activity_id) => Ok(
            Outgoing { activity_id, message: WebViewMessage::GetWebViewVersion(reply) },
        ),
        None => Err(reply),
    }
}

/// The message that runs code with the first activity and with any webview.
pub fn dispatch<H: Host>(activities: &Activities<H>, job: H::Job) -> (r: Outgoing<H>)
    requires
        activities@.dom() != Set::<ActivityId>::empty(),
    ensures
        crate::activity::is_first(activities@, r.activity_id),
        r.message == WebViewMessage::<H>::Jni(None, job),
{
    let activity_id = first_activity_id(activities).unwrap();
    Outgoing { activity_id, message: WebViewMessage::Jni(None, job) }
}

/// A way to run code with an activity.
#[derive(Clone, Copy)]
pub struct JniHandle {
    pub activity_id: ActivityId,
}

impl JniHandle {
    /// The message that runs code with the activity and with any webview.
    pub fn exec<H: Host>(&self, job: H::Job) -> (r: Outgoing<H>)
        ensures
            r.activity_id == self.activity_id,
            r.message == WebViewMessage::<H>::Jni(None, job),
    {
        Outgoing { activity_id: self.activity_id, message: WebViewMessage::Jni(None, job) }
    }
}

} // verus!
