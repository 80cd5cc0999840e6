//! The activities that host webviews.
use crate::host::Host;
use std::collections::BTreeMap;
use std::sync::Arc;
use vstd::prelude::*;

verus! {

/// The id of an activity.
pub type ActivityId = i32;

/// What is kept of an activity.
pub struct ActivityProxy<H: Host> {
    pub activity: Arc<H::Object>,
    pub window_manager: Arc<H::Object>,
    /// The webview that was created last, while it has not been removed.
    pub webview: Option<Arc<H::Object>>,
    /// The id of that webview.
    pub webview_id: Option<String>,
    pub webchrome_client: Arc<H::Object>,
    pub java_vm: H::JavaVm,
}

impl<H: Host> ActivityProxy<H> {
    /// An activity without a webview.
    pub fn new(
        vm: H::JavaVm,
        activity: Arc<H::Object>,
        window_manager: Arc<H::Object>,
        webchrome_client: Arc<H::Object>,
    ) -> (r: ActivityProxy<H>)
        ensures
            r == (ActivityProxy::<H> {
                activity,
                window_manager,
                webview: None,
                webview_id: None,
                webchrome_client,
                java_vm: vm,
            }),
    {
        ActivityProxy {
            activity,
            window_manager,
            webview: None,
            webview_id: None,
            webchrome_client,
            java_vm: vm,
        }
    }
}

/// The activities by their ids.
pub type Activities<H> = BTreeMap<ActivityId, ActivityProxy<H>>;

/// Whether the ids stand in ascending order, each once.
pub open spec fn ascending(ids: Seq<ActivityId>) -> bool {
    forall|i: int, j: int| 0 <= i < j < ids.len() ==> ids[i] < ids[j]
}

/// The ids of the registered activities, in ascending order.
pub fn activity_ids<H: Host>(activities: &Activities<H>) -> (r: Vec<ActivityId>)
    ensures
        ascending(r@),
        forall|id: ActivityId| #[trigger] activities@.contains_key(id) <==> r@.contains(id),
{
    broadcast use vstd::std_specs::btree::group_btree_axioms;
    broadcast use vstd::laws_cmp::group_laws_cmp;

    let mut ids: Vec<ActivityId> = Vec::new();
    let entries = activities.iter();
    let ghost all = vstd::std_specs::iter::IteratorSpec::remaining(&entries);
    for entry in it: entries
        invariant
            it.seq() == all,
            ids@.len() == it.index(),
            forall|i: int| 0 <= i < ids@.len() ==> #[trigger] ids@[i] == *all[i].0,
    {
        ids.push(*entry.0);
    }
    proof {
        let keys = all.map_values(|entry: (&ActivityId, &ActivityProxy<H>)| *entry.0);
        assert(keys =~= ids@);
        assert(vstd::std_specs::btree::increasing_seq(keys));
        assert forall|i: int, j: int| 0 <= i < j < ids@.len() implies ids@[i] < ids@[j] by {
            assert(vstd::std_specs::cmp::OrdSpec::cmp_spec(&keys[i], &keys[j]) is Less);
        }
        assert forall|id: ActivityId| #[trigger] activities@.contains_key(id) implies ids@.contains(
            id,
        ) by {
            assert(all.contains((&id, &activities@[id])));
            let i = choose|i: int| 0 <= i < all.len() && all[i] == (&id, &activities@[id]);
            assert(ids@[i] == id);
        }
        assert forall|id: ActivityId| ids@.contains(id) implies #[trigger] activities@.contains_key(
            id,
        ) by {
            let i = choose|i: int| 0 <= i < ids@.len() && ids@[i] == id;
            assert(activities@.contains_key(*all[i].0));
        }
    }
    ids
}

/// The activity that is registered under `id`.
pub fn activity_proxy<H: Host>(activities: &Activities<H>, id: ActivityId) -> (r: Option<
    &ActivityProxy<H>,
>)
    ensures
        match r {
            Some(proxy) => activities@.contains_key(id) && *proxy == activities@[id],
            None => !activities@.contains_key(id),
        },
{
    activities.get(&id)
}

/// What is registered under an id that is registered once more: all is new but the webview,
/// which stays.
pub open spec fn registered_again<H: Host>(
    activities: Map<ActivityId, ActivityProxy<H>>,
    id: ActivityId,
    proxy: ActivityProxy<H>,
) -> ActivityProxy<H> {
    ActivityProxy::<H> {
        webview: if activities.contains_key(id) {
            activities[id].webview
        } else {
            None
        },
        webview_id: if activities.contains_key(id) {
            activities[id].webview_id
        } else {
            None
        },
        ..proxy
    }
}

/// An activity that is registered once more keeps its webview, and no other activity changes.
pub proof fn registering_again_keeps_webview<H: Host>(
    activities: Map<ActivityId, ActivityProxy<H>>,
    id: ActivityId,
    proxy: ActivityProxy<H>,
    other: ActivityId,
)
    requires
        activities.contains_key(id),
        other != id,
    ensures
        ({
            let after = activities.insert(id, registered_again(activities, id, proxy));
            &&& after[id].webview == activities[id].webview
            &&& after[id].webview_id == activities[id].webview_id
            &&& after[id].activity == proxy.activity
            &&& after[id].window_manager == proxy.window_manager
            &&& after[id].webchrome_client == proxy.webchrome_client
            &&& after[id].java_vm == proxy.java_vm
            &&& crate::registries::same_at(after, activities, other)
            &&& after.dom() == activities.dom()
        }),
{
    assert(activities.insert(id, registered_again(activities, id, proxy)).dom()
        =~= activities.dom());
}

/// An activity that is registered for the first time has no webview, and all that was given.
pub proof fn registering_first_gives_no_webview<H: Host>(
    activities: Map<ActivityId, ActivityProxy<H>>,
    id: ActivityId,
    proxy: ActivityProxy<H>,
)
    requires
        !activities.contains_key(id),
    ensures
        ({
            let registered = registered_again(activities, id, proxy);
            &&& registered.webview is None
            &&& registered.webview_id is None
            &&& registered.activity == proxy.activity
            &&& registered.window_manager == proxy.window_manager
            &&& registered.webchrome_client == proxy.webchrome_client
            &&& registered.java_vm == proxy.java_vm
        }),
{
}

/// A new webview takes the slot of its activity, together with its id. Nothing else of that
/// activity changes, and no other activity does.
pub proof fn new_webview_takes_one_slot<H: Host>(
    activities: Map<ActivityId, ActivityProxy<H>>,
    id: ActivityId,
    webview_id: String,
    webview: Arc<H::Object>,
    other: ActivityId,
)
    requires
        other != id,
    ensures
        ({
            let after = with_webview(activities, id, webview_id, webview);
            &&& after.contains_key(id) == activities.contains_key(id)
            &&& activities.contains_key(id) ==> {
                &&& after[id].webview == Some(webview)
                &&& after[id].webview_id == Some(webview_id)
                &&& after[id].activity == activities[id].activity
                &&& after[id].window_manager == activities[id].window_manager
                &&& after[id].webchrome_client == activities[id].webchrome_client
                &&& after[id].java_vm == activities[id].java_vm
            }
            &&& after.contains_key(other) == activities.contains_key(other)
            &&& activities.contains_key(other) ==> after[other] == activities[other]
        }),
{
}

/// An activity remembers a webview under the id of it, and under no other.
pub proof fn remembering_is_by_id<H: Host>(proxy: ActivityProxy<H>, id: Seq<char>)
    ensures
        remembers(proxy, id) <==> proxy.webview_id is Some && proxy.webview_id->0@ == id,
{
}

/// The first activity is a registered one, and none that is registered has a smaller id; so there
/// is only one first.
pub proof fn first_is_smallest<H: Host>(
    activities: Map<ActivityId, ActivityProxy<H>>,
    id: ActivityId,
    other: ActivityId,
)
    requires
        is_first(activities, id),
    ensures
        activities.contains_key(id),
        activities.contains_key(other) ==> id <= other,
        is_first(activities, other) ==> other == id,
{
}

/// A comparison comes out as yes only where the answer was yes, and as no only where it was no or
/// where there was none.
pub proof fn only_yes_is_yes<H: Host, F: Fn(&ActivityProxy<H>) -> Option<bool>>(
    equals: F,
    proxy: ActivityProxy<H>,
)
    ensures
        compared(equals, proxy, true) <==> call_ensures(equals, (&proxy,), Some(true)),
        compared(equals, proxy, false) <==> call_ensures(equals, (&proxy,), Some(false))
            || call_ensures(equals, (&proxy,), None),
{
    if compared(equals, proxy, false) {
        let said = choose|said: Option<bool>| #[trigger]
            call_ensures(equals, (&proxy,), said) && false == (said == Some(true));
        assert(said is None || said == Some(false));
    }
}

/// Registers an activity. One that is registered already keeps its webview.
pub fn register_activity_proxy<H: Host>(
    activities: &mut Activities<H>,
    vm: H::JavaVm,
    id: ActivityId,
    activity: Arc<H::Object>,
    window_manager: Arc<H::Object>,
    webchrome_client: Arc<H::Object>,
)
    ensures
        final(activities)@ == old(activities)@.insert(
            id,
            registered_again(
                old(activities)@,
                id,
                ActivityProxy::<H> {
                    activity,
                    window_manager,
                    webview: None,
                    webview_id: None,
                    webchrome_client,
                    java_vm: vm,
                },
            ),
        ),
{
    let mut proxy = ActivityProxy::new(vm, activity, window_manager, webchrome_client);
    let ghost before = activities@;
    match activities.remove(&id) {
        Some(known) => {
            proxy.webview = known.webview;
            proxy.webview_id = known.webview_id;
        },
        None => {},
    }
    activities.insert(id, proxy);
    assert(activities@ =~= before.insert(id, registered_again(before, id, proxy)));
}

/// Forgets the activity that is registered under `id`.
pub fn remove_activity_proxy<H: Host>(activities: &mut Activities<H>, id: ActivityId)
    ensures
        final(activities)@ == old(activities)@.remove(id),
{
    activities.remove(&id);
}

/// The activities after the one under `id` got a new webview; an unknown id changes nothing.
pub open spec fn with_webview<H: Host>(
    activities: Map<ActivityId, ActivityProxy<H>>,
    id: ActivityId,
    webview_id: String,
    webview: Arc<H::Object>,
) -> Map<ActivityId, ActivityProxy<H>> {
    if activities.contains_key(id) {
        activities.insert(
            id,
            ActivityProxy::<H> {
                webview: Some(webview),
                webview_id: Some(webview_id),
                ..activities[id]
            },
        )
    } else {
        activities
    }
}

/// Remembers the webview that was created last for an activity. The activity can be gone by
/// then: nothing is kept in that case.
pub fn replace_webview<H: Host>(
    activities: &mut Activities<H>,
    id: ActivityId,
    webview_id: String,
    webview: Arc<H::Object>,
)
    ensures
        final(activities)@ == with_webview(old(activities)@, id, webview_id, webview),
{
    let ghost before = activities@;
    match activities.remove(&id) {
        Some(mut proxy) => {
            proxy.webview = Some(webview);
            proxy.webview_id = Some(webview_id);
            activities.insert(id, proxy);
            assert(activities@ =~= with_webview(before, id, webview_id, webview));
        },
        None => {
            assert(activities@ =~= before);
        },
    }
}

/// Whether an activity remembers the webview `id`.
pub open spec fn remembers<H: Host>(proxy: ActivityProxy<H>, id: Seq<char>) -> bool {
    match proxy.webview_id {
        Some(remembered) => remembered@ == id,
        None => false,
    }
}

/// An activity once the webview `id` is gone: one that remembered it remembers none.
pub open spec fn forgetting<H: Host>(proxy: ActivityProxy<H>, id: Seq<char>) -> ActivityProxy<H> {
    if remembers(proxy, id) {
        ActivityProxy::<H> { webview: None, webview_id: None, ..proxy }
    } else {
        proxy
    }
}

/// The activities once the webview `id` is gone: none remembers it.
pub open spec fn without_webview<H: Host>(
    activities: Map<ActivityId, ActivityProxy<H>>,
    id: Seq<char>,
) -> Map<ActivityId, ActivityProxy<H>> {
    activities.map_values(|proxy: ActivityProxy<H>| forgetting(proxy, id))
}

/// Once a webview is gone, no activity remembers it. No activity goes away with it, and one that
/// remembers another webview stays as it is.
pub proof fn forgetting_spares_others<H: Host>(
    activities: Map<ActivityId, ActivityProxy<H>>,
    id: Seq<char>,
    activity_id: ActivityId,
)
    requires
        activities.contains_key(activity_id),
    ensures
        ({
            let after = without_webview(activities, id);
            &&& after.dom() == activities.dom()
            &&& !remembers(after[activity_id], id)
            &&& remembers(activities[activity_id], id) ==> after[activity_id].webview is None
            &&& !remembers(activities[activity_id], id) ==> after[activity_id]
                == activities[activity_id]
            &&& after[activity_id].activity == activities[activity_id].activity
            &&& after[activity_id].window_manager == activities[activity_id].window_manager
            &&& after[activity_id].webchrome_client == activities[activity_id].webchrome_client
            &&& after[activity_id].java_vm == activities[activity_id].java_vm
        }),
{
    assert(without_webview(activities, id).dom() =~= activities.dom());
}

/// Makes every activity forget the webview `id`, so that none keeps its Java object alive.
pub fn forget_webview<H: Host>(activities: &mut Activities<H>, id: &str)
    ensures
        final(activities)@ == without_webview(old(activities)@, id@),
{
    let name = id.to_owned();
    let ids = activity_ids(activities);
    let ghost before = activities@;
    let mut i: usize = 0;
    while i < ids.len()
        invariant
            i <= ids@.len(),
            name@ == id@,
            ascending(ids@),
            forall|a: ActivityId| #[trigger] before.contains_key(a) <==> ids@.contains(a),
            activities@.dom() == before.dom(),
            forall|j: int|
                0 <= j < i ==> activities@[#[trigger] ids@[j]] == forgetting(
                    before[ids@[j]],
                    id@,
                ),
            forall|j: int|
                i <= j < ids@.len() ==> activities@[#[trigger] ids@[j]] == before[ids@[j]],
        decreases ids@.len() - i,
    {
        let activity_id = ids[i];
        let ghost current = activities@;
        assert(ids@.contains(ids@[i as int]));
        assert(before.contains_key(activity_id));
        match activities.remove(&activity_id) {
            Some(mut proxy) => {
                let forgets = match &proxy.webview_id {
                    Some(remembered) => *remembered == name,
                    None => false,
                };
                if forgets {
                    proxy.webview = None;
                    proxy.webview_id = None;
                }
                activities.insert(activity_id, proxy);
                assert(activities@ =~= current.insert(
                    activity_id,
                    forgetting(before[activity_id], id@),
                ));
                assert(activities@.dom() =~= before.dom());
            },
            None => {},
        }
        i = i + 1;
    }
    assert(activities@ =~= without_webview(before, id@)) by {
        assert forall|a: ActivityId| #[trigger] before.contains_key(a) implies activities@[a]
            == forgetting(before[a], id@) by {
            let j = choose|j: int| 0 <= j < ids@.len() && ids@[j] == a;
            assert(ids@[j] == a);
        }
    }
}

/// Whether `id` is the smallest id of a registered activity.
pub open spec fn is_first<H: Host>(
    activities: Map<ActivityId, ActivityProxy<H>>,
    id: ActivityId,
) -> bool {
    &&& activities.contains_key(id)
    &&& forall|other: ActivityId| #[trigger] activities.contains_key(other) ==> id <= other
}

/// The smallest id of a registered activity.
pub fn first_activity_id<H: Host>(activities: &Activities<H>) -> (r: Option<ActivityId>)
    ensures
        match r {
            Some(id) => is_first(activities@, id),
            None => activities@.dom() == Set::<ActivityId>::empty(),
        },
{
    let ids = activity_ids(activities);
    if ids.len() > 0 {
        assert(ids@.contains(ids@[0]));
        Some(ids[0])
    } else {
        assert(activities@.dom() =~= Set::<ActivityId>::empty()) by {
            assert forall|id: ActivityId| !activities@.dom().contains(id) by {
                assert(activities@.contains_key(id) ==> ids@.contains(id));
            }
        }
        None
    }
}

/// The webview that was created last for an activity; `None` where it has been removed, and where
/// the activity is not registered.
pub fn get_webview<H: Host>(activities: &Activities<H>, activity_id: ActivityId) -> (r: Option<
    Arc<H::Object>,
>)
    ensures
        r == (if activities@.contains_key(activity_id) {
            activities@[activity_id].webview
        } else {
            None
        }),
{
    match activity_proxy(activities, activity_id) {
        Some(proxy) => match &proxy.webview {
            Some(webview) => Some(webview.clone()),
            None => None,
        },
        None => None,
    }
}

/// Whether a comparison of the window manager of `proxy` can come out as `answer`, where no
/// answer counts as no.
pub open spec fn compared<H: Host, F: Fn(&ActivityProxy<H>) -> Option<bool>>(
    equals: F,
    proxy: ActivityProxy<H>,
    answer: bool,
) -> bool {
    exists|said: Option<bool>| #[trigger]
        call_ensures(equals, (&proxy,), said) && answer == (said == Some(true))
}

/// The smallest id of an activity whose window manager is the one that `equals` asks for. A
/// comparison that gives no answer counts as no.
pub fn activity_id_for_window_manager<H: Host, F: Fn(&ActivityProxy<H>) -> Option<bool>>(
    activities: &Activities<H>,
    equals: F,
) -> (r: Option<ActivityId>)
    requires
        forall|proxy: &ActivityProxy<H>| #[trigger] call_requires(equals, (proxy,)),
    ensures
        match r {
            Some(id) => {
                &&& activities@.contains_key(id)
                &&& compared(equals, activities@[id], true)
                &&& forall|other: ActivityId| #[trigger]
                    activities@.contains_key(other) && other < id ==> compared(
                        equals,
                        activities@[other],
                        false,
                    )
            },
            None => forall|id: ActivityId| #[trigger]
                activities@.contains_key(id) ==> compared(equals, activities@[id], false),
        },
{
    let ids = activity_ids(activities);
    let mut i: usize = 0;
    while i < ids.len()
        invariant
            i <= ids@.len(),
            ascending(ids@),
            forall|id: ActivityId| #[trigger] activities@.contains_key(id) <==> ids@.contains(id),
            forall|proxy: &ActivityProxy<H>| #[trigger] call_requires(equals, (proxy,)),
            forall|j: int|
                0 <= j < i ==> compared(equals, activities@[#[trigger] ids@[j]], false),
        decreases ids@.len() - i,
    {
        let id = ids[i];
        assert(ids@.contains(ids@[i as int]));
        match activities.get(&id) {
            Some(proxy) => {
                let said = equals(proxy);
                let equal = match said {
                    Some(answer) => answer,
                    None => false,
                };
                assert(compared(equals, activities@[id], equal));
                if equal {
                    assert forall|other: ActivityId| #[trigger]
                        activities@.contains_key(other) && other < id implies compared(
                        equals,
                        activities@[other],
                        false,
                    ) by {
                        let j = choose|j: int| 0 <= j < ids@.len() && ids@[j] == other;
                        assert(j < i);
                    }
                    return Some(id);
                }
            },
            None => {},
        }
        i = i + 1;
    }
    assert forall|id: ActivityId| #[trigger] activities@.contains_key(id) implies compared(
        equals,
        activities@[id],
        false,
    ) by {
        let j = choose|j: int| 0 <= j < ids@.len() && ids@[j] == id;
        assert(ids@[j] == id);
    }
    None
}

} // verus!
