//! Handling the messages on the thread of the webviews.
use crate::action::{JniStep, StepView};
use crate::activity::{
    activity_proxy, forget_webview, remove_activity_proxy, replace_webview, ActivityId,
};
use crate::attributes::CreateWebViewAttributes;
use crate::cookies::parse_cookies;
use crate::error::WebViewError;
use crate::host::Host;
use crate::message::WebViewMessage;
use crate::registries::{
    any_webview, destroy_webview, register_webview, unregister_webview, webview_by_id, Registries,
    RegistriesView,
};
use crate::run::{Ending, Run, RunView};
use std::sync::Arc;
use vstd::prelude::*;

verus! {

/// What remains to be done once the steps of a message have been performed. `I` stands for ids.
pub enum Completion<H: Host, I> {
    /// Nothing.
    Nothing,
    /// The webview has been created: it is registered.
    Created { activity_id: ActivityId, attributes: Arc<CreateWebViewAttributes<H>> },
    /// The version was asked for.
    Version(H::VersionReply),
    /// The version was asked for, and there is no activity to ask.
    VersionWithoutActivity(H::VersionReply),
    /// The URL was asked for.
    Url(H::UrlReply),
    /// The cookies were asked for.
    Cookies(H::CookiesReply),
    /// The webview is going away: all that is registered for it is forgotten.
    Removed { activity_id: ActivityId, webview_id: I },
    /// Code is to be run.
    Run(H::Job),
}

/// What is left to the caller once a message has been handled.
pub enum Finished<H: Host> {
    /// The handling ended so.
    Return(Result<(), jni::errors::Error>),
    /// The version is to be sent.
    Version(H::VersionReply, Result<String, WebViewError>),
    /// The URL is to be sent.
    Url(H::UrlReply, String),
    /// The cookies are to be sent.
    Cookies(H::CookiesReply, Vec<cookie::Cookie<'static>>),
    /// The code is to be run, with the activity and the webview.
    Run { job: H::Job, activity: Option<Arc<H::Object>>, webview: Option<Arc<H::Object>> },
}

/// A message that is being handled.
pub struct Task<H: Host> {
    pub run: Run<H>,
    /// The activity that the message was sent to.
    pub activity: Option<Arc<H::Object>>,
    /// The webview that the message is for.
    pub webview: Option<Arc<H::Object>>,
    /// The client of the activity that sees the dialogs.
    pub chrome_client: Option<Arc<H::Object>>,
    /// The application package; empty while there is none.
    pub package: String,
    pub completion: Completion<H, String>,
}

/// The contents of a [`Task`].
pub struct TaskView<H: Host> {
    pub run: RunView<H>,
    pub activity: Option<Arc<H::Object>>,
    pub webview: Option<Arc<H::Object>>,
    pub chrome_client: Option<Arc<H::Object>>,
    pub package: Seq<char>,
    pub completion: Completion<H, Seq<char>>,
}

impl<H: Host> View for Completion<H, String> {
    type V = Completion<H, Seq<char>>;

    open spec fn view(&self) -> Completion<H, Seq<char>> {
        match *self {
            Completion::Nothing => Completion::Nothing,
            Completion::Created { activity_id, attributes } => {
                Completion::Created { activity_id, attributes }
            },
            Completion::Version(reply) => Completion::Version(reply),
            Completion::VersionWithoutActivity(reply) => {
                Completion::VersionWithoutActivity(reply)
            },
            Completion::Url(reply) => Completion::Url(reply),
            Completion::Cookies(reply) => Completion::Cookies(reply),
            Completion::Removed { activity_id, webview_id } => {
                Completion::Removed { activity_id, webview_id: webview_id@ }
            },
            Completion::Run(job) => Completion::Run(job),
        }
    }
}

impl<H: Host> View for Task<H> {
    type V = TaskView<H>;

    open spec fn view(&self) -> TaskView<H> {
        TaskView::<H> {
            run: self.run@,
            activity: self.activity,
            webview: self.webview,
            chrome_client: self.chrome_client,
            package: self.package@,
            completion: self.completion@,
        }
    }
}

impl<H: Host> TaskView<H> {
    /// The run is well formed, and its steps give what the completion needs.
    pub open spec fn wf(self) -> bool {
        &&& self.run.wf()
        &&& match self.completion {
            Completion::Created { activity_id: _, attributes: _ } => {
                crate::run::objects_in(self.run.plan) == 1
            },
            Completion::Version(_) => crate::run::text_in(self.run.plan),
            Completion::Url(_) => crate::run::text_in(self.run.plan),
            Completion::Cookies(_) => crate::run::text_in(self.run.plan),
            _ => true,
        }
    }
}

/// The package, or the empty text while there is none.
pub open spec fn package_or_empty(package: Option<Seq<char>>) -> Seq<char> {
    match package {
        Some(text) => text,
        None => Seq::empty(),
    }
}

impl<H: Host> RegistriesView<H> {
    /// The activity under an id.
    pub open spec fn activity_at(self, id: ActivityId) -> Option<Arc<H::Object>> {
        if self.activities.contains_key(id) {
            Some(self.activities[id].activity)
        } else {
            None
        }
    }

    /// The webview under an id.
    pub open spec fn webview_at(self, id: Seq<char>) -> Option<Arc<H::Object>> {
        if self.webviews.contains_key(id) {
            Some(self.webviews[id])
        } else {
            None
        }
    }

    /// A message that asks nothing of the Java side.
    pub open spec fn idle(self, completion: Completion<H, Seq<char>>) -> TaskView<H> {
        self.task(None, None, Seq::empty(), completion)
    }

    /// A message that is to be handled with an activity, a webview and some steps.
    pub open spec fn task(
        self,
        activity: Option<Arc<H::Object>>,
        webview: Option<Arc<H::Object>>,
        plan: Seq<StepView>,
        completion: Completion<H, Seq<char>>,
    ) -> TaskView<H> {
        TaskView::<H> {
            run: RunView::start(plan),
            activity,
            webview,
            chrome_client: None,
            package: package_or_empty(self.package),
            completion,
        }
    }

    /// A message for one webview: its steps where the webview is registered, and nothing where it
    /// is not.
    pub open spec fn for_webview(
        self,
        id: Seq<char>,
        plan: Seq<StepView>,
        completion: Completion<H, Seq<char>>,
    ) -> TaskView<H> {
        if self.webviews.contains_key(id) {
            self.task(None, Some(self.webviews[id]), plan, completion)
        } else {
            self.idle(Completion::Nothing)
        }
    }

    /// A message for one webview and its activity: its steps where both are registered, and no
    /// steps where one of them is not.
    pub open spec fn for_child(
        self,
        activity_id: ActivityId,
        id: Seq<char>,
        plan: Seq<StepView>,
        completion: Completion<H, Seq<char>>,
    ) -> TaskView<H> {
        if self.activities.contains_key(activity_id) && self.webviews.contains_key(id) {
            self.task(
                Some(self.activities[activity_id].activity),
                Some(self.webviews[id]),
                plan,
                completion,
            )
        } else {
            self.idle(completion)
        }
    }

    /// What is registered once a message has arrived, before its steps are performed.
    pub open spec fn on_arrival(self, message: WebViewMessage<H>) -> RegistriesView<H> {
        match message {
            WebViewMessage::Eval(id, _, callback) => if self.webviews.contains_key(id@) {
                RegistriesView::<H> {
                    eval_callbacks: self.eval_callbacks.insert(self.eval_ids as i32, callback),
                    eval_ids: crate::counter::following(self.eval_ids),
                    ..self
                }
            } else {
                self
            },
            WebViewMessage::OnDestroy { activity_id, webview_id, is_changing_configurations } => {
                if is_changing_configurations {
                    self
                } else {
                    RegistriesView::<H> {
                        activities: self.activities.remove(activity_id),
                        ..self.torn_down(webview_id@)
                    }
                }
            },
            _ => self,
        }
    }

    /// How a message is handled. `any` is the webview that a message for any webview gets.
    pub open spec fn handling(
        self,
        activity_id: ActivityId,
        message: WebViewMessage<H>,
        any: Option<Arc<H::Object>>,
    ) -> TaskView<H> {
        match message {
            WebViewMessage::CreateWebView(attributes) => if self.activities.contains_key(
                activity_id,
            ) {
                TaskView::<H> {
                    chrome_client: Some(self.activities[activity_id].webchrome_client),
                    ..self.task(
                        Some(self.activities[activity_id].activity),
                        None,
                        crate::plan::create_steps(*attributes, package_or_empty(self.package)),
                        Completion::Created { activity_id, attributes },
                    )
                }
            } else {
                self.idle(Completion::Nothing)
            },
            WebViewMessage::Eval(id, script, _) => self.for_webview(
                id@,
                crate::plan::eval_steps(self.eval_ids as i32, script@),
                Completion::Nothing,
            ),
            WebViewMessage::SetBackgroundColor(id, color) => self.for_webview(
                id@,
                crate::plan::set_background_color_steps(color),
                Completion::Nothing,
            ),
            WebViewMessage::GetWebViewVersion(reply) => if self.activities.contains_key(
                activity_id,
            ) {
                self.task(
                    Some(self.activities[activity_id].activity),
                    None,
                    crate::plan::version_steps(),
                    Completion::Version(reply),
                )
            } else {
                self.idle(Completion::VersionWithoutActivity(reply))
            },
            WebViewMessage::GetUrl(id, reply) => self.for_webview(
                id@,
                crate::plan::url_steps(),
                Completion::Url(reply),
            ),
            WebViewMessage::GetCookies(id, reply, url) => self.for_webview(
                id@,
                crate::plan::cookies_steps(url@),
                Completion::Cookies(reply),
            ),
            WebViewMessage::Jni(id, job) => self.task(
                self.activity_at(activity_id),
                match id {
                    Some(id) => self.webview_at(id@),
                    None => any,
                },
                Seq::empty(),
                Completion::Run(job),
            ),
            WebViewMessage::LoadUrl(id, url, headers) => self.for_webview(
                id@,
                crate::plan::go_to_url_steps(url@, crate::plan::header_pairs(headers)),
                Completion::Nothing,
            ),
            WebViewMessage::LoadHtml(id, html) => self.for_webview(
                id@,
                crate::plan::show_html_steps(html@),
                Completion::Nothing,
            ),
            WebViewMessage::Reload(id) => self.for_webview(
                id@,
                crate::plan::reload_steps(),
                Completion::Nothing,
            ),
            WebViewMessage::ClearAllBrowsingData(id) => self.for_webview(
                id@,
                crate::plan::clear_data_steps(),
                Completion::Nothing,
            ),
            WebViewMessage::SetBounds(id, rect) => self.for_child(
                activity_id,
                id@,
                crate::plan::bounds_steps(rect),
                Completion::Nothing,
            ),
            WebViewMessage::SetVisible(id, visible) => self.for_child(
                activity_id,
                id@,
                crate::plan::visible_steps(visible),
                Completion::Nothing,
            ),
            WebViewMessage::RemoveChildWebView(id) => self.for_child(
                activity_id,
                id@,
                crate::plan::remove_child_steps(),
                Completion::Removed { activity_id, webview_id: id@ },
            ),
            WebViewMessage::OnDestroy { activity_id: _, webview_id: _, is_changing_configurations: _ } => {
                self.idle(Completion::Nothing)
            },
        }
    }

    /// What is registered once the steps of a message have been performed.
    pub open spec fn on_completion(self, task: TaskView<H>) -> RegistriesView<H> {
        match task.completion {
            Completion::Created { activity_id, attributes } => if task.run.ending is Fine {
                RegistriesView::<H> {
                    webviews: self.webviews.insert(attributes.id@, task.run.objects[0]),
                    activities: crate::activity::with_webview(
                        self.activities,
                        activity_id,
                        attributes.id,
                        task.run.objects[0],
                    ),
                    ..self
                }
            } else {
                self
            },
            Completion::Removed { activity_id: _, webview_id } => RegistriesView::<H> {
                activities: crate::activity::without_webview(self.activities, webview_id),
                ..self.torn_down(webview_id)
            },
            _ => self,
        }
    }
}

/// What a message without an answer comes to.
pub open spec fn returned(ending: Ending) -> Result<(), jni::errors::Error> {
    match ending {
        Ending::Failed(e) => Err(e),
        _ => Ok(()),
    }
}

/// Whether `finished` is what is left to the caller of a message that was handled as `task`.
pub open spec fn concludes<H: Host>(task: TaskView<H>, finished: Finished<H>) -> bool {
    match task.completion {
        Completion::Version(reply) => match task.run.ending {
            Ending::Fine => finished matches Finished::Version(r, Ok(text)) && r == reply
                && Some(text@) == task.run.text,
            Ending::Concluded(e) => finished == Finished::<H>::Version(
                reply,
                Err(WebViewError::Jni(e)),
            ),
            Ending::Failed(e) => finished == Finished::<H>::Return(Err(e)),
        },
        Completion::VersionWithoutActivity(reply) => finished == Finished::<H>::Version(
            reply,
            Err(WebViewError::ActivityNotFound),
        ),
        Completion::Url(reply) => match task.run.ending {
            Ending::Failed(e) => finished == Finished::<H>::Return(Err(e)),
            Ending::Concluded(_) => finished matches Finished::Url(r, text) && r == reply
                && text@.len() == 0,
            Ending::Fine => finished matches Finished::Url(r, text) && r == reply && Some(text@)
                == task.run.text,
        },
        Completion::Cookies(reply) => match task.run.ending {
            Ending::Failed(e) => finished == Finished::<H>::Return(Err(e)),
            Ending::Concluded(_) => finished matches Finished::Cookies(r, cookies) && r == reply
                && cookies@ == crate::cookies::cookies_in(Seq::empty()),
            Ending::Fine => finished matches Finished::Cookies(r, cookies) && r == reply
                && cookies@ == crate::cookies::cookies_in(task.run.text->0),
        },
        Completion::Run(job) => finished == (Finished::<H>::Run {
            job,
            activity: task.activity,
            webview: match task.activity {
                Some(_) => task.webview,
                None => None,
            },
        }),
        Completion::Removed { activity_id: _, webview_id: _ } => finished
            == Finished::<H>::Return(Ok(())),
        _ => finished == Finished::<H>::Return(returned(task.run.ending)),
    }
}

/// The thread of the webviews, with all that is registered.
pub struct MainPipe<H: Host> {
    pub registries: Registries<H>,
}

impl<H: Host> MainPipe<H> {
    fn package(&self) -> (r: String)
        ensures
            r@ == package_or_empty(self.registries@.package),
    {
        match &self.registries.package {
            Some(package) => package.clone(),
            None => String::new(),
        }
    }

    fn task(
        &self,
        activity: Option<Arc<H::Object>>,
        webview: Option<Arc<H::Object>>,
        steps: Vec<JniStep>,
        completion: Completion<H, String>,
    ) -> (r: Task<H>)
        requires
            crate::run::skips_soundly(crate::plan::plan(steps@)),
        ensures
            r@ == self.registries@.task(
                activity,
                webview,
                crate::plan::plan(steps@),
                completion@,
            ),
            r@.run.wf(),
    {
        Task {
            run: Run::new(steps),
            activity,
            webview,
            chrome_client: None,
            package: self.package(),
            completion,
        }
    }

    fn idle(&self, completion: Completion<H, String>) -> (r: Task<H>)
        ensures
            r@ == self.registries@.idle(completion@),
            r@.run.wf(),
    {
        let steps: Vec<JniStep> = Vec::new();
        assert(crate::plan::plan(steps@) =~= Seq::<StepView>::empty());
        self.task(None, None, steps, completion)
    }

    /// The activity and the webview that a message for a child is for, if both are registered.
    fn child(&self, activity_id: ActivityId, webview_id: &String) -> (r: Option<
        (Arc<H::Object>, Arc<H::Object>),
    >)
        ensures
            r == (if self.registries@.activities.contains_key(activity_id)
                && self.registries@.webviews.contains_key(webview_id@) {
                Some(
                    (
                        self.registries@.activities[activity_id].activity,
                        self.registries@.webviews[webview_id@],
                    ),
                )
            } else {
                None
            }),
    {
        match activity_proxy(&self.registries.activities, activity_id) {
            Some(proxy) => match webview_by_id(&self.registries, webview_id.as_str()) {
                Some(webview) => Some((proxy.activity.clone(), webview)),
                None => None,
            },
            None => None,
        }
    }

    fn for_webview(
        &self,
        webview_id: &String,
        steps: Vec<JniStep>,
        completion: Completion<H, String>,
    ) -> (r: Task<H>)
        requires
            crate::run::skips_soundly(crate::plan::plan(steps@)),
        ensures
            r@ == self.registries@.for_webview(
                webview_id@,
                crate::plan::plan(steps@),
                completion@,
            ),
            r@.run.wf(),
    {
        match webview_by_id(&self.registries, webview_id.as_str()) {
            Some(webview) => self.task(None, Some(webview), steps, completion),
            None => self.idle(Completion::Nothing),
        }
    }

    fn for_child(
        &self,
        activity_id: ActivityId,
        webview_id: &String,
        steps: Vec<JniStep>,
        completion: Completion<H, String>,
    ) -> (r: Task<H>)
        requires
            crate::run::skips_soundly(crate::plan::plan(steps@)),
        ensures
            r@ == self.registries@.for_child(
                activity_id,
                webview_id@,
                crate::plan::plan(steps@),
                completion@,
            ),
            r@.run.wf(),
    {
        match self.child(activity_id, webview_id) {
            Some((activity, webview)) => {
                self.task(Some(activity), Some(webview), steps, completion)
            },
            None => self.idle(completion),
        }
    }

    /// Takes a message, and tells how it is to be handled: the steps to be performed, with which
    /// activity and webview, and what comes after them.
    pub fn recv(&mut self, activity_id: ActivityId, message: WebViewMessage<H>) -> (r: Task<H>)
        requires
            message is CreateWebView && old(self).registries@.activities.contains_key(activity_id)
                ==> old(self).registries@.package is Some,
        ensures
            r@.wf(),
            r@ == old(self).registries@.handling(activity_id, message, r.webview),
            message matches WebViewMessage::Jni(None, _) ==> crate::registries::is_any(
                old(self).registries@.webviews,
                r.webview,
            ),
            final(self).registries@ == old(self).registries@.on_arrival(message),
    {
        match message {
            WebViewMessage::CreateWebView(attributes) => {
                let (activity, chrome_client) = match activity_proxy(
                    &self.registries.activities,
                    activity_id,
                ) {
                    Some(proxy) => (proxy.activity.clone(), proxy.webchrome_client.clone()),
                    None => {
                        return self.idle(Completion::Nothing);
                    },
                };
                let package = self.package();
                let steps = crate::plan::create(&attributes, package.as_str());
                let mut task = self.task(
                    Some(activity),
                    None,
                    steps,
                    Completion::Created { activity_id, attributes },
                );
                task.chrome_client = Some(chrome_client);
                task
            },
            WebViewMessage::Eval(webview_id, script, callback) => {
                match webview_by_id(&self.registries, webview_id.as_str()) {
                    Some(webview) => {
                        let drawn = self.registries.eval_ids.next();
                        let id = #[verifier::truncate] (drawn as i32);
                        self.registries.eval_callbacks.insert(id, callback);
                        let steps = crate::plan::eval(id, &script);
                        self.task(None, Some(webview), steps, Completion::Nothing)
                    },
                    None => self.idle(Completion::Nothing),
                }
            },
            WebViewMessage::SetBackgroundColor(webview_id, color) => {
                let mut steps: Vec<JniStep> = Vec::new();
                assert(crate::plan::plan(steps@) =~= Seq::<StepView>::empty());
                crate::plan::set_background_color(&mut steps, color);
                self.for_webview(&webview_id, steps, Completion::Nothing)
            },
            WebViewMessage::GetWebViewVersion(reply) => {
                let activity = match activity_proxy(&self.registries.activities, activity_id) {
                    Some(proxy) => proxy.activity.clone(),
                    None => {
                        return self.idle(Completion::VersionWithoutActivity(reply));
                    },
                };
                self.task(Some(activity), None, crate::plan::version(), Completion::Version(reply))
            },
            WebViewMessage::GetUrl(webview_id, reply) => {
                self.for_webview(&webview_id, crate::plan::url(), Completion::Url(reply))
            },
            WebViewMessage::GetCookies(webview_id, reply, url) => {
                let steps = crate::plan::cookies(&url);
                self.for_webview(&webview_id, steps, Completion::Cookies(reply))
            },
            WebViewMessage::Jni(webview_id, job) => {
                let activity = match activity_proxy(&self.registries.activities, activity_id) {
                    Some(proxy) => Some(proxy.activity.clone()),
                    None => None,
                };
                let webview = match &webview_id {
                    Some(id) => webview_by_id(&self.registries, id.as_str()),
                    None => any_webview(&self.registries),
                };
                let steps: Vec<JniStep> = Vec::new();
                assert(crate::plan::plan(steps@) =~= Seq::<StepView>::empty());
                self.task(activity, webview, steps, Completion::Run(job))
            },
            WebViewMessage::LoadUrl(webview_id, url, headers) => {
                let steps = crate::plan::go_to_url(&url, &headers);
                self.for_webview(&webview_id, steps, Completion::Nothing)
            },
            WebViewMessage::LoadHtml(webview_id, html) => {
                let steps = crate::plan::show_html(&html);
                self.for_webview(&webview_id, steps, Completion::Nothing)
            },
            WebViewMessage::Reload(webview_id) => {
                let mut steps: Vec<JniStep> = Vec::new();
                assert(crate::plan::plan(steps@) =~= Seq::<StepView>::empty());
                crate::plan::reload(&mut steps);
                assert(crate::plan::plan(steps@) =~= crate::plan::reload_steps());
                self.for_webview(&webview_id, steps, Completion::Nothing)
            },
            WebViewMessage::ClearAllBrowsingData(webview_id) => {
                self.for_webview(&webview_id, crate::plan::clear_data(), Completion::Nothing)
            },
            WebViewMessage::SetBounds(webview_id, rect) => {
                let steps = crate::plan::child_bounds(rect);
                self.for_child(activity_id, &webview_id, steps, Completion::Nothing)
            },
            WebViewMessage::SetVisible(webview_id, visible) => {
                let steps = crate::plan::child_visible(visible);
                self.for_child(activity_id, &webview_id, steps, Completion::Nothing)
            },
            WebViewMessage::RemoveChildWebView(webview_id) => {
                let id = webview_id.clone();
                self.for_child(
                    activity_id,
                    &webview_id,
                    crate::plan::remove_child(),
                    Completion::Removed { activity_id, webview_id: id },
                )
            },
            WebViewMessage::OnDestroy { activity_id, webview_id, is_changing_configurations } => {
                let task = self.idle(Completion::Nothing);
                if !is_changing_configurations {
                    destroy_webview(&mut self.registries, activity_id, webview_id.as_str());
                    unregister_webview(&mut self.registries, webview_id.as_str());
                    remove_activity_proxy(&mut self.registries.activities, activity_id);
                }
                task
            },
        }
    }

    /// Takes a message whose steps have been performed: registers or forgets what the message is
    /// about, and tells what is left to the caller.
    pub fn finish(&mut self, task: Task<H>) -> (r: Finished<H>)
        requires
            task@.wf(),
            task@.run.done(),
        ensures
            concludes(task@, r),
            final(self).registries@ == old(self).registries@.on_completion(task@),
    {
        let ghost view = task@;
        assert(view.run.plan.take(view.run.at) =~= view.run.plan);
        let gathered = task.run.gathered();
        match task.completion {
            Completion::Created { activity_id, attributes } => match gathered.ending {
                Ending::Fine => {
                    let webview = gathered.objects[0].clone();
                    register_webview(
                        &mut self.registries,
                        attributes.id.clone(),
                        webview.clone(),
                    );
                    replace_webview(
                        &mut self.registries.activities,
                        activity_id,
                        attributes.id.clone(),
                        webview,
                    );
                    Finished::Return(Ok(()))
                },
                Ending::Concluded(_) => Finished::Return(Ok(())),
                Ending::Failed(e) => Finished::Return(Err(e)),
            },
            Completion::Version(reply) => match gathered.ending {
                Ending::Fine => Finished::Version(reply, Ok(gathered.text.unwrap())),
                Ending::Concluded(e) => Finished::Version(reply, Err(WebViewError::Jni(e))),
                Ending::Failed(e) => Finished::Return(Err(e)),
            },
            Completion::VersionWithoutActivity(reply) => {
                Finished::Version(reply, Err(WebViewError::ActivityNotFound))
            },
            Completion::Url(reply) => match gathered.ending {
                Ending::Fine => Finished::Url(reply, gathered.text.unwrap()),
                Ending::Concluded(_) => Finished::Url(reply, String::new()),
                Ending::Failed(e) => Finished::Return(Err(e)),
            },
            Completion::Cookies(reply) => match gathered.ending {
                Ending::Fine => {
                    let text = gathered.text.unwrap();
                    Finished::Cookies(reply, parse_cookies(text.as_str()))
                },
                Ending::Concluded(_) => {
                    let text = String::new();
                    Finished::Cookies(reply, parse_cookies(text.as_str()))
                },
                Ending::Failed(e) => Finished::Return(Err(e)),
            },
            Completion::Removed { activity_id, webview_id } => {
                destroy_webview(&mut self.registries, activity_id, webview_id.as_str());
                unregister_webview(&mut self.registries, webview_id.as_str());
                forget_webview(&mut self.registries.activities, webview_id.as_str());
                Finished::Return(Ok(()))
            },
            Completion::Run(job) => Finished::Run {
                job,
                webview: match &task.activity {
                    Some(_) => task.webview,
                    None => None,
                },
                activity: task.activity,
            },
            Completion::Nothing => match gathered.ending {
                Ending::Failed(e) => Finished::Return(Err(e)),
                _ => Finished::Return(Ok(())),
            },
        }
    }
}

} // verus!
