//! All that is registered: the activities, the webviews, and what belongs to each webview.
use crate::activity::{Activities, ActivityId, ActivityProxy};
use crate::attributes::{CreateWebViewAttributes, InitializationScript};
use crate::counter::Counter;
use crate::host::Host;
use crate::registry::Registry;
use std::collections::{BTreeMap, HashMap};
use std::sync::Arc;
use vstd::prelude::*;

verus! {

/// What is needed to answer the requests for the custom protocols of a webview.
pub struct RequestHandler<H: Host> {
    pub custom_protocols: Registry<H::ProtocolHandler>,
    pub https_scheme: bool,
    pub initialization_scripts: Arc<Vec<InitializationScript>>,
}

/// All that is registered. What belongs to one webview stands under the id of that webview, so
/// the webviews of one activity do not touch each other's entries.
pub struct Registries<H: Host> {
    /// The application package; the first one that is set stays.
    pub package: Option<String>,
    pub activities: Activities<H>,
    /// The Java object of each webview.
    pub webviews: Registry<Arc<H::Object>>,
    /// What each webview was created from, to create it again.
    pub attributes: Registry<Arc<CreateWebViewAttributes<H>>>,
    pub ipc: Registry<H::IpcHandler>,
    pub request_handlers: Registry<RequestHandler<H>>,
    pub title_handlers: Registry<H::TitleHandler>,
    pub url_loading_overrides: Registry<H::NavigationHandler>,
    pub on_load_handlers: Registry<H::PageLoadHandler>,
    pub with_asset_loader: Registry<bool>,
    pub asset_loader_domains: Registry<String>,
    /// Who takes the result of each script that is being evaluated.
    pub eval_callbacks: HashMap<i32, Option<H::EvalCallback>>,
    pub webview_ids: Counter,
    pub eval_ids: Counter,
}

/// The contents of [`Registries`].
#[verifier::ext_equal]
pub struct RegistriesView<H: Host> {
    pub package: Option<Seq<char>>,
    pub activities: Map<ActivityId, ActivityProxy<H>>,
    pub webviews: Map<Seq<char>, Arc<H::Object>>,
    pub attributes: Map<Seq<char>, Arc<CreateWebViewAttributes<H>>>,
    pub ipc: Map<Seq<char>, H::IpcHandler>,
    pub request_handlers: Map<Seq<char>, RequestHandler<H>>,
    pub title_handlers: Map<Seq<char>, H::TitleHandler>,
    pub url_loading_overrides: Map<Seq<char>, H::NavigationHandler>,
    pub on_load_handlers: Map<Seq<char>, H::PageLoadHandler>,
    pub with_asset_loader: Map<Seq<char>, bool>,
    pub asset_loader_domains: Map<Seq<char>, String>,
    pub eval_callbacks: Map<i32, Option<H::EvalCallback>>,
    pub webview_ids: u32,
    pub eval_ids: u32,
}

impl<H: Host> View for Registries<H> {
    type V = RegistriesView<H>;

    open spec fn view(&self) -> RegistriesView<H> {
        RegistriesView::<H> {
            package: match self.package {
                Some(package) => Some(package@),
                None => None,
            },
            activities: self.activities@,
            webviews: self.webviews@,
            attributes: self.attributes@,
            ipc: self.ipc@,
            request_handlers: self.request_handlers@,
            title_handlers: self.title_handlers@,
            url_loading_overrides: self.url_loading_overrides@,
            on_load_handlers: self.on_load_handlers@,
            with_asset_loader: self.with_asset_loader@,
            asset_loader_domains: self.asset_loader_domains@,
            eval_callbacks: self.eval_callbacks@,
            webview_ids: self.webview_ids@,
            eval_ids: self.eval_ids@,
        }
    }
}

impl<H: Host> RegistriesView<H> {
    /// Without what is kept for the webview `id`. Its Java object and the activities stay.
    pub open spec fn destroyed(self, id: Seq<char>) -> RegistriesView<H> {
        RegistriesView::<H> {
            attributes: self.attributes.remove(id),
            ipc: self.ipc.remove(id),
            request_handlers: self.request_handlers.remove(id),
            title_handlers: self.title_handlers.remove(id),
            url_loading_overrides: self.url_loading_overrides.remove(id),
            on_load_handlers: self.on_load_handlers.remove(id),
            with_asset_loader: self.with_asset_loader.remove(id),
            asset_loader_domains: self.asset_loader_domains.remove(id),
            ..self
        }
    }

    /// Without anything that stands under the id of a webview, its Java object included. What the
    /// activities remember stays.
    pub open spec fn torn_down(self, id: Seq<char>) -> RegistriesView<H> {
        RegistriesView::<H> { webviews: self.webviews.remove(id), ..self.destroyed(id) }
    }

    /// Whether anything stands under the id of a webview.
    pub open spec fn knows(self, id: Seq<char>) -> bool {
        ||| self.webviews.contains_key(id)
        ||| self.attributes.contains_key(id)
        ||| self.ipc.contains_key(id)
        ||| self.request_handlers.contains_key(id)
        ||| self.title_handlers.contains_key(id)
        ||| self.url_loading_overrides.contains_key(id)
        ||| self.on_load_handlers.contains_key(id)
        ||| self.with_asset_loader.contains_key(id)
        ||| self.asset_loader_domains.contains_key(id)
    }

    /// Whether the same stands under the id of a webview in both.
    pub open spec fn agrees_on(self, other: RegistriesView<H>, id: Seq<char>) -> bool {
        &&& same_at(self.webviews, other.webviews, id)
        &&& same_at(self.attributes, other.attributes, id)
        &&& same_at(self.ipc, other.ipc, id)
        &&& same_at(self.request_handlers, other.request_handlers, id)
        &&& same_at(self.title_handlers, other.title_handlers, id)
        &&& same_at(self.url_loading_overrides, other.url_loading_overrides, id)
        &&& same_at(self.on_load_handlers, other.on_load_handlers, id)
        &&& same_at(self.with_asset_loader, other.with_asset_loader, id)
        &&& same_at(self.asset_loader_domains, other.asset_loader_domains, id)
    }
}

/// Whether two tables hold the same under `key`, or nothing both.
pub open spec fn same_at<K, V>(a: Map<K, V>, b: Map<K, V>, key: K) -> bool {
    &&& a.contains_key(key) <==> b.contains_key(key)
    &&& a.contains_key(key) ==> a[key] == b[key]
}

/// Taking one webview down leaves nothing under its id, and leaves every other webview and all
/// the activities as they are.
pub proof fn teardown_spares_siblings<H: Host>(
    registries: RegistriesView<H>,
    id: Seq<char>,
    sibling: Seq<char>,
)
    requires
        sibling != id,
    ensures
        !registries.torn_down(id).knows(id),
        registries.torn_down(id).agrees_on(registries, sibling),
        registries.destroyed(id).agrees_on(registries, sibling),
        registries.torn_down(id).activities == registries.activities,
        registries.torn_down(id).package == registries.package,
{
}

/// Taking a webview down empties every table under its id, and touches nothing else: no other id,
/// and neither the package, nor the activities, nor the takers of scripts, nor the numbers.
pub proof fn teardown_empties_every_table<H: Host>(
    registries: RegistriesView<H>,
    id: Seq<char>,
)
    ensures
        ({
            let after = registries.torn_down(id);
            &&& after.webviews == registries.webviews.remove(id)
            &&& after.attributes == registries.attributes.remove(id)
            &&& after.ipc == registries.ipc.remove(id)
            &&& after.request_handlers == registries.request_handlers.remove(id)
            &&& after.title_handlers == registries.title_handlers.remove(id)
            &&& after.url_loading_overrides == registries.url_loading_overrides.remove(id)
            &&& after.on_load_handlers == registries.on_load_handlers.remove(id)
            &&& after.with_asset_loader == registries.with_asset_loader.remove(id)
            &&& after.asset_loader_domains == registries.asset_loader_domains.remove(id)
            &&& after.package == registries.package
            &&& after.activities == registries.activities
            &&& after.eval_callbacks == registries.eval_callbacks
            &&& after.webview_ids == registries.webview_ids
            &&& after.eval_ids == registries.eval_ids
        }),
        ({
            let after = registries.destroyed(id);
            &&& after.webviews == registries.webviews
            &&& after.attributes == registries.attributes.remove(id)
            &&& after.ipc == registries.ipc.remove(id)
            &&& after.request_handlers == registries.request_handlers.remove(id)
            &&& after.title_handlers == registries.title_handlers.remove(id)
            &&& after.url_loading_overrides == registries.url_loading_overrides.remove(id)
            &&& after.on_load_handlers == registries.on_load_handlers.remove(id)
            &&& after.with_asset_loader == registries.with_asset_loader.remove(id)
            &&& after.asset_loader_domains == registries.asset_loader_domains.remove(id)
            &&& after.package == registries.package
            &&& after.activities == registries.activities
            &&& after.eval_callbacks == registries.eval_callbacks
            &&& after.webview_ids == registries.webview_ids
            &&& after.eval_ids == registries.eval_ids
        }),
{
}

/// Where any webview will do, a registered one comes out, and none only where there is none.
pub proof fn any_is_a_registered_one<T>(
    webviews: Map<Seq<char>, T>,
    webview: Option<T>,
    id: Seq<char>,
)
    requires
        is_any(webviews, webview),
    ensures
        webview matches Some(w) ==> exists|key: Seq<char>| #[trigger]
            webviews.dom().contains(key) && webviews[key] == w,
        webviews.contains_key(id) ==> webview is Some,
{
    match webview {
        Some(w) => {
            let key = choose|key: Seq<char>| #[trigger]
                webviews.contains_key(key) && webviews[key] == w;
            assert(webviews.dom().contains(key));
        },
        None => {},
    }
}

/// Taking a webview down twice is taking it down once.
pub proof fn teardown_is_idempotent<H: Host>(registries: RegistriesView<H>, id: Seq<char>)
    ensures
        registries.torn_down(id).torn_down(id) == registries.torn_down(id),
{
    assert(registries.torn_down(id).torn_down(id) =~= registries.torn_down(id));
}

/// In whatever order two webviews are taken down, the same is left.
pub proof fn teardowns_commute<H: Host>(
    registries: RegistriesView<H>,
    a: Seq<char>,
    b: Seq<char>,
)
    ensures
        registries.torn_down(a).torn_down(b) == registries.torn_down(b).torn_down(a),
{
    assert(registries.torn_down(a).torn_down(b) =~= registries.torn_down(b).torn_down(a));
}

impl<H: Host> Registries<H> {
    /// Nothing is registered. The counters start at the given numbers.
    pub fn new(first_webview_id: u32, first_eval_id: u32) -> (r: Registries<H>)
        ensures
            r@ == (RegistriesView::<H> {
                package: None,
                activities: Map::empty(),
                webviews: Map::empty(),
                attributes: Map::empty(),
                ipc: Map::empty(),
                request_handlers: Map::empty(),
                title_handlers: Map::empty(),
                url_loading_overrides: Map::empty(),
                on_load_handlers: Map::empty(),
                with_asset_loader: Map::empty(),
                asset_loader_domains: Map::empty(),
                eval_callbacks: Map::empty(),
                webview_ids: first_webview_id,
                eval_ids: first_eval_id,
            }),
    {
        Registries {
            package: None,
            activities: BTreeMap::new(),
            webviews: Registry::new(),
            attributes: Registry::new(),
            ipc: Registry::new(),
            request_handlers: Registry::new(),
            title_handlers: Registry::new(),
            url_loading_overrides: Registry::new(),
            on_load_handlers: Registry::new(),
            with_asset_loader: Registry::new(),
            asset_loader_domains: Registry::new(),
            eval_callbacks: HashMap::new(),
            webview_ids: Counter::new(first_webview_id),
            eval_ids: Counter::new(first_eval_id),
        }
    }
}

/// Keeps the Java object of a webview under its id.
pub fn register_webview<H: Host>(
    registries: &mut Registries<H>,
    webview_id: String,
    webview: Arc<H::Object>,
)
    ensures
        final(registries)@ == (RegistriesView::<H> {
            webviews: old(registries)@.webviews.insert(webview_id@, webview),
            ..old(registries)@
        }),
{
    registries.webviews.insert(webview_id, webview);
}

/// The Java object of a webview.
pub fn webview_by_id<H: Host>(registries: &Registries<H>, webview_id: &str) -> (r: Option<
    Arc<H::Object>,
>)
    ensures
        r == (if registries@.webviews.contains_key(webview_id@) {
            Some(registries@.webviews[webview_id@])
        } else {
            None
        }),
{
    match registries.webviews.get(webview_id) {
        Some(webview) => Some(webview.clone()),
        None => None,
    }
}

/// Lets go of the Java object of a webview.
pub fn unregister_webview<H: Host>(registries: &mut Registries<H>, webview_id: &str)
    ensures
        final(registries)@ == (RegistriesView::<H> {
            webviews: old(registries)@.webviews.remove(webview_id@),
            ..old(registries)@
        }),
{
    registries.webviews.remove(webview_id);
}

/// Whether `webview` can come out where any registered webview will do.
pub open spec fn is_any<T>(webviews: Map<Seq<char>, T>, webview: Option<T>) -> bool {
    match webview {
        Some(w) => exists|id: Seq<char>| #[trigger] webviews.contains_key(id) && webviews[id] == w,
        None => webviews.dom() == Set::<Seq<char>>::empty(),
    }
}

/// The Java object of some webview; which one is left open.
pub fn any_webview<H: Host>(registries: &Registries<H>) -> (r: Option<Arc<H::Object>>)
    ensures
        is_any(registries@.webviews, r),
{
    match registries.webviews.any() {
        Some(webview) => Some(webview.clone()),
        None => None,
    }
}

/// Forgets what is kept for a webview, and for that webview only. The activity does not matter.
pub fn destroy_webview<H: Host>(
    registries: &mut Registries<H>,
    _activity_id: ActivityId,
    webview_id: &str,
)
    ensures
        final(registries)@ == old(registries)@.destroyed(webview_id@),
{
    registries.attributes.remove(webview_id);
    registries.ipc.remove(webview_id);
    registries.request_handlers.remove(webview_id);
    registries.title_handlers.remove(webview_id);
    registries.url_loading_overrides.remove(webview_id);
    registries.on_load_handlers.remove(webview_id);
    registries.with_asset_loader.remove(webview_id);
    registries.asset_loader_domains.remove(webview_id);
}

} // verus!
