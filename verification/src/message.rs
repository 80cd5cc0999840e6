//! The messages that are sent to the thread of the webviews.
use crate::activity::ActivityId;
use crate::attributes::{CreateWebViewAttributes, Rect, RGBA};
use crate::host::Host;
use std::sync::Arc;
use vstd::prelude::*;

verus! {

/// The id of a webview.
pub type WebviewId = String;

/// What is asked of the thread of the webviews. A message for one webview carries its id.
pub enum WebViewMessage<H: Host> {
    /// Create the webview that the attributes describe; the id is one of them.
    CreateWebView(Arc<CreateWebViewAttributes<H>>),
    /// Evaluate a script.
    Eval(WebviewId, String, Option<H::EvalCallback>),
    /// Change the background colour.
    SetBackgroundColor(WebviewId, RGBA),
    /// Tell the version of the webview.
    GetWebViewVersion(H::VersionReply),
    /// Tell the current URL.
    GetUrl(WebviewId, H::UrlReply),
    /// Tell the cookies for a URL.
    GetCookies(WebviewId, H::CookiesReply, String),
    /// Run code; without an id, with any webview that is registered.
    Jni(Option<WebviewId>, H::Job),
    /// Load a URL, with headers of its own where there are any.
    LoadUrl(WebviewId, String, Option<http::HeaderMap>),
    /// Load a page from its text.
    LoadHtml(WebviewId, String),
    /// Load the page again.
    Reload(WebviewId),
    /// Forget all browsing data.
    ClearAllBrowsingData(WebviewId),
    /// Move and resize the window of a child webview.
    SetBounds(WebviewId, Rect),
    /// Show or hide a child webview.
    SetVisible(WebviewId, bool),
    /// Take a webview down, with its window and all that is registered for it.
    RemoveChildWebView(WebviewId),
    /// The activity is going away; where its configuration changes, it comes back.
    OnDestroy { activity_id: ActivityId, webview_id: WebviewId, is_changing_configurations: bool },
}

/// A message on its way to an activity.
pub struct Outgoing<H: Host> {
    pub activity_id: ActivityId,
    pub message: WebViewMessage<H>,
}

} // verus!
