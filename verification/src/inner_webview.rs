//! The webview from the caller's side.
use crate::activity::{first_activity_id, ActivityId};
use crate::attributes::{
    CreateWebViewAttributes, PlatformSpecificWebViewAttributes, Rect, WebViewAttributes, RGBA,
};
use crate::error::WebViewError;
use crate::host::Host;
use crate::message::{Outgoing, WebViewMessage};
use crate::outside::is_android_ndk;
use crate::registries::{Registries, RegistriesView, RequestHandler};
use crate::text::{decimal_text, text_before};
use crate::work_around::scheme;
use std::sync::Arc;
use vstd::prelude::*;

verus! {

/// A webview: its id, and the activity that hosts it.
pub struct InnerWebView {
    pub id: String,
    pub activity_id: ActivityId,
}

/// A table with `value` under `key`, if there is a value.
pub open spec fn put<V>(table: Map<Seq<char>, V>, key: Seq<char>, value: Option<V>) -> Map<
    Seq<char>,
    V,
> {
    match value {
        Some(v) => table.insert(key, v),
        None => table,
    }
}

/// The id of a new webview: the one that was asked for, or else the next number.
pub open spec fn chosen_id(asked: Option<String>, upcoming: u32) -> Seq<char> {
    match asked {
        Some(id) => id@,
        None => crate::text::decimal(upcoming as nat),
    }
}

/// Whether `result` is the URL that a webview starts with: a URL of a custom protocol in its
/// disguise, and any other URL as it is.
pub open spec fn first_url<F: Fn(&str, &str, &str) -> String, V>(
    url: Option<String>,
    custom_protocols: Map<Seq<char>, V>,
    https_scheme: bool,
    apply_uri_work_around: F,
    result: Option<String>,
) -> bool {
    match url {
        Some(asked) => {
            let protocol = crate::text::before(asked@, "://"@);
            &&& result is Some
            &&& if protocol is Some && custom_protocols.contains_key(protocol->0) {
                crate::work_around::turns(
                    apply_uri_work_around,
                    asked@,
                    crate::work_around::scheme_text(https_scheme),
                    protocol->0,
                    result->0@,
                )
            } else {
                result == url
            }
        },
        None => result is None,
    }
}

/// Whether `created` is what the Java webview is created from, for what the caller asked.
pub open spec fn describes<H: Host, F: Fn(&str, &str, &str) -> String>(
    created: CreateWebViewAttributes<H>,
    id: Seq<char>,
    attributes: WebViewAttributes<H>,
    pl_attrs: PlatformSpecificWebViewAttributes<H>,
    is_child: bool,
    apply_uri_work_around: F,
) -> bool {
    &&& created.id@ == id
    &&& first_url(
        attributes.url,
        attributes.custom_protocols@,
        pl_attrs.https_scheme,
        apply_uri_work_around,
        created.url,
    )
    &&& created.html == attributes.html
    &&& created.devtools == attributes.devtools
    &&& created.transparent == attributes.transparent
    &&& created.background_color == attributes.background_color
    &&& created.headers == attributes.headers
    &&& created.autoplay == attributes.autoplay
    &&& created.on_webview_created == pl_attrs.on_webview_created
    &&& created.user_agent == attributes.user_agent
    &&& created.initialization_scripts == attributes.initialization_scripts
    &&& created.javascript_disabled == attributes.javascript_disabled
    &&& created.is_child == is_child
    &&& created.bounds == attributes.bounds
}

impl<H: Host> RegistriesView<H> {
    /// With all that a new webview brings. What it does not bring stays as it was.
    pub open spec fn with_new(
        self,
        id: Seq<char>,
        attributes: WebViewAttributes<H>,
        pl_attrs: PlatformSpecificWebViewAttributes<H>,
        created: Arc<CreateWebViewAttributes<H>>,
    ) -> RegistriesView<H> {
        RegistriesView::<H> {
            with_asset_loader: self.with_asset_loader.insert(id, pl_attrs.with_asset_loader),
            asset_loader_domains: put(
                self.asset_loader_domains,
                id,
                pl_attrs.asset_loader_domain,
            ),
            request_handlers: self.request_handlers.insert(
                id,
                RequestHandler::<H> {
                    custom_protocols: attributes.custom_protocols,
                    https_scheme: pl_attrs.https_scheme,
                    initialization_scripts: attributes.initialization_scripts,
                },
            ),
            ipc: put(self.ipc, id, attributes.ipc_handler),
            title_handlers: put(
                self.title_handlers,
                id,
                attributes.document_title_changed_handler,
            ),
            url_loading_overrides: put(
                self.url_loading_overrides,
                id,
                attributes.navigation_handler,
            ),
            on_load_handlers: put(self.on_load_handlers, id, attributes.on_page_load_handler),
            attributes: self.attributes.insert(id, created),
            webview_ids: match attributes.id {
                Some(_) => self.webview_ids,
                None => crate::counter::following(self.webview_ids),
            },
            ..self
        }
    }
}

/// A new webview leaves every other webview and all the activities as they are.
pub proof fn creation_spares_siblings<H: Host>(
    registries: RegistriesView<H>,
    id: Seq<char>,
    attributes: WebViewAttributes<H>,
    pl_attrs: PlatformSpecificWebViewAttributes<H>,
    created: Arc<CreateWebViewAttributes<H>>,
    sibling: Seq<char>,
)
    requires
        sibling != id,
    ensures
        registries.with_new(id, attributes, pl_attrs, created).agrees_on(registries, sibling),
        registries.with_new(id, attributes, pl_attrs, created).activities == registries.activities,
{
}

/// Taking a new webview down gives back what was registered before it came, but for the numbers
/// that have been handed out.
pub proof fn teardown_undoes_creation<H: Host>(
    registries: RegistriesView<H>,
    id: Seq<char>,
    attributes: WebViewAttributes<H>,
    pl_attrs: PlatformSpecificWebViewAttributes<H>,
    created: Arc<CreateWebViewAttributes<H>>,
)
    requires
        !registries.knows(id),
    ensures
        ({
            let after = registries.with_new(id, attributes, pl_attrs, created);
            after.torn_down(id) == (RegistriesView::<H> {
                webview_ids: after.webview_ids,
                ..registries
            })
        }),
{
    let after = registries.with_new(id, attributes, pl_attrs, created);
    assert(after.torn_down(id) =~= (RegistriesView::<H> {
        webview_ids: after.webview_ids,
        ..registries
    }));
}

/// What speaks against a window as the place of a webview: that it gives no handle, or that the
/// handle is not that of an Android window.
pub open spec fn window_error(
    handle: Result<raw_window_handle::RawWindowHandle, raw_window_handle::HandleError>,
) -> Option<WebViewError> {
    match handle {
        Err(e) => Some(WebViewError::WindowHandle(e)),
        Ok(h) => if crate::outside::is_android_ndk_handle(h) {
            None
        } else {
            Some(WebViewError::UnsupportedWindowHandle)
        },
    }
}

/// Tells whether a window can hold a webview.
pub fn check_window(
    handle: Result<raw_window_handle::RawWindowHandle, raw_window_handle::HandleError>,
) -> (r: Result<(), WebViewError>)
    ensures
        match r {
            Ok(_) => window_error(handle) is None,
            Err(e) => window_error(handle) == Some(e),
        },
{
    match handle {
        Err(e) => Err(WebViewError::WindowHandle(e)),
        Ok(h) => if is_android_ndk(&h) {
            Ok(())
        } else {
            Err(WebViewError::UnsupportedWindowHandle)
        },
    }
}

/// The URL that a webview starts with.
fn start_url<F: Fn(&str, &str, &str) -> String, V>(
    url: Option<String>,
    custom_protocols: &crate::registry::Registry<V>,
    https_scheme: bool,
    apply_uri_work_around: &F,
) -> (r: Option<String>)
    requires
        forall|u: &str, s: &str, p: &str| #[trigger]
            call_requires(*apply_uri_work_around, (u, s, p)),
    ensures
        first_url(url, custom_protocols@, https_scheme, *apply_uri_work_around, r),
{
    match url {
        Some(asked) => match text_before(asked.as_str(), "://") {
            Some(protocol) => if custom_protocols.contains_key(protocol.as_str()) {
                let disguised = apply_uri_work_around(
                    asked.as_str(),
                    scheme(https_scheme),
                    protocol.as_str(),
                );
                assert(crate::work_around::turns(
                    *apply_uri_work_around,
                    asked@,
                    crate::work_around::scheme_text(https_scheme),
                    protocol@,
                    disguised@,
                ));
                Some(disguised)
            } else {
                Some(asked)
            },
            None => Some(asked),
        },
        None => None,
    }
}

/// Whether a new webview was made as asked, and announced to its activity.
pub open spec fn made<H: Host, F: Fn(&str, &str, &str) -> String>(
    before: RegistriesView<H>,
    after: RegistriesView<H>,
    attributes: WebViewAttributes<H>,
    pl_attrs: PlatformSpecificWebViewAttributes<H>,
    is_child: bool,
    apply_uri_work_around: F,
    webview: InnerWebView,
    outgoing: Outgoing<H>,
) -> bool {
    &&& webview.id@ == chosen_id(attributes.id, before.webview_ids)
    &&& crate::activity::is_first(before.activities, webview.activity_id)
    &&& outgoing.activity_id == webview.activity_id
    &&& outgoing.message matches WebViewMessage::CreateWebView(created)
    &&& describes(*created, webview.id@, attributes, pl_attrs, is_child, apply_uri_work_around)
    &&& after == before.with_new(webview.id@, attributes, pl_attrs, created)
}

impl InnerWebView {
    /// Makes a webview in a window of its own above its host.
    pub fn new_as_child<H: Host, F: Fn(&str, &str, &str) -> String>(
        registries: &mut Registries<H>,
        handle: Result<raw_window_handle::RawWindowHandle, raw_window_handle::HandleError>,
        attributes: WebViewAttributes<H>,
        pl_attrs: PlatformSpecificWebViewAttributes<H>,
        apply_uri_work_around: F,
    ) -> (r: Result<(InnerWebView, Outgoing<H>), WebViewError>)
        requires
            window_error(handle) is None ==> old(registries)@.activities.dom()
                != Set::<ActivityId>::empty(),
            forall|u: &str, s: &str, p: &str| #[trigger]
                call_requires(apply_uri_work_around, (u, s, p)),
        ensures
            match r {
                Ok((webview, outgoing)) => window_error(handle) is None && made(
                    old(registries)@,
                    final(registries)@,
                    attributes,
                    pl_attrs,
                    true,
                    apply_uri_work_around,
                    webview,
                    outgoing,
                ),
                Err(e) => window_error(handle) == Some(e) && final(registries)@ == old(
                    registries,
                )@,
            },
    {
        Self::new_inner(registries, handle, attributes, pl_attrs, true, apply_uri_work_around)
    }

    /// Makes a webview that is the content of its activity.
    pub fn new<H: Host, F: Fn(&str, &str, &str) -> String>(
        registries: &mut Registries<H>,
        handle: Result<raw_window_handle::RawWindowHandle, raw_window_handle::HandleError>,
        attributes: WebViewAttributes<H>,
        pl_attrs: PlatformSpecificWebViewAttributes<H>,
        apply_uri_work_around: F,
    ) -> (r: Result<(InnerWebView, Outgoing<H>), WebViewError>)
        requires
            window_error(handle) is None ==> old(registries)@.activities.dom()
                != Set::<ActivityId>::empty(),
            forall|u: &str, s: &str, p: &str| #[trigger]
                call_requires(apply_uri_work_around, (u, s, p)),
        ensures
            match r {
                Ok((webview, outgoing)) => window_error(handle) is None && made(
                    old(registries)@,
                    final(registries)@,
                    attributes,
                    pl_attrs,
                    false,
                    apply_uri_work_around,
                    webview,
                    outgoing,
                ),
                Err(e) => window_error(handle) == Some(e) && final(registries)@ == old(
                    registries,
                )@,
            },
    {
        Self::new_inner(registries, handle, attributes, pl_attrs, false, apply_uri_work_around)
    }

    /// Makes a webview: registers all that belongs to it under its id, and gives the message that
    /// creates it on the Java side. It is hosted by the first activity.
    pub fn new_inner<H: Host, F: Fn(&str, &str, &str) -> String>(
        registries: &mut Registries<H>,
        handle: Result<raw_window_handle::RawWindowHandle, raw_window_handle::HandleError>,
        attributes: WebViewAttributes<H>,
        pl_attrs: PlatformSpecificWebViewAttributes<H>,
        is_child: bool,
        apply_uri_work_around: F,
    ) -> (r: Result<(InnerWebView, Outgoing<H>), WebViewError>)
        requires
            window_error(handle) is None ==> old(registries)@.activities.dom()
                != Set::<ActivityId>::empty(),
            forall|u: &str, s: &str, p: &str| #[trigger]
                call_requires(apply_uri_work_around, (u, s, p)),
        ensures
            match r {
                Ok((webview, outgoing)) => window_error(handle) is None && made(
                    old(registries)@,
                    final(registries)@,
                    attributes,
                    pl_attrs,
                    is_child,
                    apply_uri_work_around,
                    webview,
                    outgoing,
                ),
                Err(e) => window_error(handle) == Some(e) && final(registries)@ == old(
                    registries,
                )@,
            },
    {
        match check_window(handle) {
            Ok(_) => {},
            Err(e) => {
                return Err(e);
            },
        }
        let activity_id = first_activity_id(&registries.activities).unwrap();
        let ghost asked = attributes;
        let ghost asked_here = pl_attrs;
        let ghost before = registries@;
        let https_scheme = pl_attrs.https_scheme;
        let url = start_url(
            attributes.url,
            &attributes.custom_protocols,
            https_scheme,
            &apply_uri_work_around,
        );
        let id = match attributes.id {
            Some(id) => id,
            None => decimal_text(registries.webview_ids.next()),
        };
        registries.with_asset_loader.insert(id.clone(), pl_attrs.with_asset_loader);
        match pl_attrs.asset_loader_domain {
            Some(domain) => {
                registries.asset_loader_domains.insert(id.clone(), domain);
            },
            None => {},
        }
        registries.request_handlers.insert(
            id.clone(),
            RequestHandler {
                custom_protocols: attributes.custom_protocols,
                https_scheme,
                initialization_scripts: attributes.initialization_scripts.clone(),
            },
        );
        match attributes.ipc_handler {
            Some(handler) => {
                registries.ipc.insert(id.clone(), handler);
            },
            None => {},
        }
        match attributes.document_title_changed_handler {
            Some(handler) => {
                registries.title_handlers.insert(id.clone(), handler);
            },
            None => {},
        }
        match attributes.navigation_handler {
            Some(handler) => {
                registries.url_loading_overrides.insert(id.clone(), handler);
            },
            None => {},
        }
        match attributes.on_page_load_handler {
            Some(handler) => {
                registries.on_load_handlers.insert(id.clone(), handler);
            },
            None => {},
        }
        let created = Arc::new(
            CreateWebViewAttributes {
                id: id.clone(),
                url,
                html: attributes.html,
                devtools: attributes.devtools,
                transparent: attributes.transparent,
                background_color: attributes.background_color,
                headers: attributes.headers,
                autoplay: attributes.autoplay,
                on_webview_created: pl_attrs.on_webview_created,
                user_agent: attributes.user_agent,
                initialization_scripts: attributes.initialization_scripts,
                javascript_disabled: attributes.javascript_disabled,
                is_child,
                bounds: attributes.bounds,
            },
        );
        registries.attributes.insert(id.clone(), created.clone());
        assert(registries@ == before.with_new(id@, asked, asked_here, created));
        Ok(
            (
                InnerWebView { id, activity_id },
                Outgoing { activity_id, message: WebViewMessage::CreateWebView(created) },
            ),
        )
    }

    /// Printing is not done here.
    pub fn print(&self) -> (r: Result<(), WebViewError>)
        ensures
            r == Ok::<(), WebViewError>(()),
    {
        Ok(())
    }

    /// The id of the webview.
    pub fn id(&self) -> (r: &str)
        ensures
            r@ == self.id@,
    {
        self.id.as_str()
    }

    /// The message that asks for the current URL.
    pub fn url<H: Host>(&self, reply: H::UrlReply) -> (r: Outgoing<H>)
        ensures
            r.activity_id == self.activity_id,
            r.message == WebViewMessage::<H>::GetUrl(self.id, reply),
            crate::effect_laws::webview_is_asked(
                r,
                self.id@,
                "getUrl"@,
                "()Ljava/lang/String;"@,
                seq![],
                crate::main_pipe::Completion::Url(reply),
            ),
    {
        let r = Outgoing {
            activity_id: self.activity_id,
            message: WebViewMessage::GetUrl(self.id.clone(), reply),
        };
        proof {
            crate::effect_laws::url_message(r, self.id, reply);
        }
        r
    }

    /// The message that evaluates a script.
    pub fn eval<H: Host>(&self, js: &str, callback: Option<H::EvalCallback>) -> (r: Outgoing<H>)
        ensures
            r.activity_id == self.activity_id,
            r.message matches WebViewMessage::Eval(id, script, taker) && id == self.id && script@
                == js@ && taker == callback,
            crate::effect_laws::webview_evaluates(r, self.id@, js@, callback),
    {
        let r = Outgoing {
            activity_id: self.activity_id,
            message: WebViewMessage::Eval(self.id.clone(), js.to_owned(), callback),
        };
        proof {
            crate::effect_laws::eval_message(r, self.id, r.message->Eval_1, callback);
        }
        r
    }

    /// Does nothing: the developer tools are not opened from here.
    pub fn open_devtools(&self) {
    }

    /// Does nothing: the developer tools are not closed from here.
    pub fn close_devtools(&self) {
    }

    /// Whether the developer tools are open is not known here; the answer is always no.
    pub fn is_devtools_open(&self) -> (r: bool)
        ensures
            !r,
    {
        false
    }

    /// Zooming is not done here.
    pub fn zoom<S>(&self, _scale_factor: S) -> (r: Result<(), WebViewError>)
        ensures
            r == Ok::<(), WebViewError>(()),
    {
        Ok(())
    }

    /// The message that changes the background colour.
    pub fn set_background_color<H: Host>(&self, background_color: RGBA) -> (r: Outgoing<H>)
        ensures
            r.activity_id == self.activity_id,
            r.message == WebViewMessage::<H>::SetBackgroundColor(self.id, background_color),
            exists|n: i32|
                crate::effect_laws::is_argb(n, background_color) && #[trigger] crate::effect_laws::webview_gets(
                    r,
                    self.id@,
                    "setBackgroundColor"@,
                    "(I)V"@,
                    seq![crate::effects::Thing::Int(n)],
                ),
    {
        let r = Outgoing {
            activity_id: self.activity_id,
            message: WebViewMessage::SetBackgroundColor(self.id.clone(), background_color),
        };
        proof {
            crate::effect_laws::background_message(r, self.id, background_color);
        }
        r
    }

    /// The message that loads a URL.
    pub fn load_url<H: Host>(&self, url: &str) -> (r: Outgoing<H>)
        ensures
            r.activity_id == self.activity_id,
            r.message matches WebViewMessage::LoadUrl(id, text, headers) && id == self.id && text@
                == url@ && headers is None,
            crate::effect_laws::webview_loads(r, self.id@, url@, None),
    {
        let r = Outgoing {
            activity_id: self.activity_id,
            message: WebViewMessage::LoadUrl(self.id.clone(), url.to_owned(), None),
        };
        proof {
            crate::effect_laws::load_message(r, self.id, r.message->LoadUrl_1, None);
        }
        r
    }

    /// The message that loads a URL with headers.
    pub fn load_url_with_headers<H: Host>(&self, url: &str, headers: http::HeaderMap) -> (r:
        Outgoing<H>)
        ensures
            r.activity_id == self.activity_id,
            r.message matches WebViewMessage::LoadUrl(id, text, sent) && id == self.id && text@
                == url@ && sent == Some(headers),
            crate::effect_laws::webview_loads(r, self.id@, url@, Some(headers)),
    {
        let r = Outgoing {
            activity_id: self.activity_id,
            message: WebViewMessage::LoadUrl(self.id.clone(), url.to_owned(), Some(headers)),
        };
        proof {
            crate::effect_laws::load_message(r, self.id, r.message->LoadUrl_1, Some(headers));
        }
        r
    }

    /// The message that loads a page from its text.
    pub fn load_html<H: Host>(&self, html: &str) -> (r: Outgoing<H>)
        ensures
            r.activity_id == self.activity_id,
            r.message matches WebViewMessage::LoadHtml(id, text) && id == self.id && text@
                == html@,
            crate::effect_laws::webview_gets(
                r,
                self.id@,
                "loadHTMLMainThread"@,
                "(Ljava/lang/String;)V"@,
                seq![crate::effects::Thing::Text(html@)],
            ),
    {
        let r = Outgoing {
            activity_id: self.activity_id,
            message: WebViewMessage::LoadHtml(self.id.clone(), html.to_owned()),
        };
        proof {
            crate::effect_laws::html_message(r, self.id, r.message->LoadHtml_1);
        }
        r
    }

    /// The message that loads the page again.
    pub fn reload<H: Host>(&self) -> (r: Outgoing<H>)
        ensures
            r.activity_id == self.activity_id,
            r.message == WebViewMessage::<H>::Reload(self.id),
            crate::effect_laws::webview_gets(r, self.id@, "reload"@, "()V"@, seq![]),
    {
        let r = Outgoing {
            activity_id: self.activity_id,
            message: WebViewMessage::Reload(self.id.clone()),
        };
        proof {
            crate::effect_laws::reload_message(r, self.id);
        }
        r
    }

    /// The message that forgets all browsing data.
    pub fn clear_all_browsing_data<H: Host>(&self) -> (r: Outgoing<H>)
        ensures
            r.activity_id == self.activity_id,
            r.message == WebViewMessage::<H>::ClearAllBrowsingData(self.id),
            crate::effect_laws::webview_gets(r, self.id@, "clearAllBrowsingData"@, "()V"@, seq![]),
    {
        let r = Outgoing {
            activity_id: self.activity_id,
            message: WebViewMessage::ClearAllBrowsingData(self.id.clone()),
        };
        proof {
            crate::effect_laws::clear_message(r, self.id);
        }
        r
    }

    /// The message that asks for the cookies for a URL.
    pub fn cookies_for_url<H: Host>(&self, url: &str, reply: H::CookiesReply) -> (r: Outgoing<H>)
        ensures
            r.activity_id == self.activity_id,
            r.message matches WebViewMessage::GetCookies(id, taker, text) && id == self.id && taker
                == reply && text@ == url@,
            crate::effect_laws::webview_is_asked(
                r,
                self.id@,
                "getCookies"@,
                "(Ljava/lang/String;)Ljava/lang/String;"@,
                seq![crate::effects::Thing::Text(url@)],
                crate::main_pipe::Completion::Cookies(reply),
            ),
    {
        let r = Outgoing {
            activity_id: self.activity_id,
            message: WebViewMessage::GetCookies(self.id.clone(), reply, url.to_owned()),
        };
        proof {
            crate::effect_laws::cookies_message(r, self.id, reply, r.message->GetCookies_2);
        }
        r
    }

    /// Cookies cannot be set here.
    pub fn set_cookie(&self, _cookie: &cookie::Cookie<'_>) -> (r: Result<(), WebViewError>)
        ensures
            r == Ok::<(), WebViewError>(()),
    {
        Ok(())
    }

    /// Cookies cannot be deleted here.
    pub fn delete_cookie(&self, _cookie: &cookie::Cookie<'_>) -> (r: Result<(), WebViewError>)
        ensures
            r == Ok::<(), WebViewError>(()),
    {
        Ok(())
    }

    /// Cookies can only be asked for with a URL; without one there are none.
    pub fn cookies(&self) -> (r: Result<Vec<cookie::Cookie<'static>>, WebViewError>)
        ensures
            r matches Ok(cookies) && cookies@.len() == 0,
    {
        Ok(Vec::new())
    }

    /// The bounds are not read back from the platform; the answer is always the default.
    pub fn bounds(&self) -> (r: Result<Rect, WebViewError>)
        ensures
            r == Ok::<Rect, WebViewError>(
                (Rect {
                    position: crate::attributes::Position::Logical { x_bits: 0, y_bits: 0 },
                    size: crate::attributes::Size::Logical { width_bits: 0, height_bits: 0 },
                }),
            ),
    {
        Ok(Rect::default())
    }

    /// The message that moves and resizes the webview.
    pub fn set_bounds<H: Host>(&self, bounds: Rect) -> (r: Outgoing<H>)
        ensures
            r.activity_id == self.activity_id,
            r.message == WebViewMessage::<H>::SetBounds(self.id, bounds),
            crate::effect_laws::child_goes_to(r, self.activity_id, self.id@, bounds),
    {
        let r = Outgoing {
            activity_id: self.activity_id,
            message: WebViewMessage::SetBounds(self.id.clone(), bounds),
        };
        proof {
            crate::effect_laws::bounds_message(r, self.id, bounds);
        }
        r
    }

    /// The message that shows or hides the webview.
    pub fn set_visible<H: Host>(&self, visible: bool) -> (r: Outgoing<H>)
        ensures
            r.activity_id == self.activity_id,
            r.message == WebViewMessage::<H>::SetVisible(self.id, visible),
            crate::effect_laws::activity_gets(
                r,
                self.activity_id,
                self.id@,
                "setChildVisible"@,
                "(Landroid/view/View;Z)V"@,
                seq![crate::effects::Thing::Bool(visible)],
            ),
    {
        let r = Outgoing {
            activity_id: self.activity_id,
            message: WebViewMessage::SetVisible(self.id.clone(), visible),
        };
        proof {
            crate::effect_laws::visible_message(r, self.id, visible);
        }
        r
    }

    /// Focusing is not done here.
    pub fn focus(&self) -> (r: Result<(), WebViewError>)
        ensures
            r == Ok::<(), WebViewError>(()),
    {
        Ok(())
    }

    /// Focusing is not done here.
    pub fn focus_parent(&self) -> (r: Result<(), WebViewError>)
        ensures
            r == Ok::<(), WebViewError>(()),
    {
        Ok(())
    }

    /// The message that takes the webview down. It is to be sent when the webview is dropped,
    /// whether it is a child or not.
    pub fn removal<H: Host>(&self) -> (r: Outgoing<H>)
        ensures
            r.activity_id == self.activity_id,
            r.message == WebViewMessage::<H>::RemoveChildWebView(self.id),
            crate::effect_laws::activity_gets(
                r,
                self.activity_id,
                self.id@,
                "removeChildWebView"@,
                "(Landroid/view/View;)V"@,
                seq![],
            ),
    {
        let r = Outgoing {
            activity_id: self.activity_id,
            message: WebViewMessage::RemoveChildWebView(self.id.clone()),
        };
        proof {
            crate::effect_laws::removal_message(r, self.id);
        }
        r
    }
}

} // verus!
