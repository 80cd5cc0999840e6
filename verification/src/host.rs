//! The values that the backend keeps and hands on without looking into them.
use vstd::prelude::*;

verus! {

/// The kinds of value that the platform side brings along: references to Java objects, callbacks
/// and reply channels. The backend stores them, finds them again and hands them on.
pub trait Host {
    /// A Java object that is kept alive from this side.
    type Object;

    /// The Java virtual machine that an activity runs in.
    type JavaVm;

    /// Takes the result of an evaluated script.
    type EvalCallback;

    /// Code to be run on the thread of the webview.
    type Job;

    /// Code to be run once a webview has been created.
    type CreatedHook;

    /// Takes the answer to a question for the webview version.
    type VersionReply;

    /// Takes the answer to a question for the current URL.
    type UrlReply;

    /// Takes the answer to a question for cookies.
    type CookiesReply;

    /// Takes the messages that a page posts.
    type IpcHandler;

    /// Takes the changes of a document title.
    type TitleHandler;

    /// Decides whether a navigation is allowed.
    type NavigationHandler;

    /// Takes the page load events.
    type PageLoadHandler;

    /// Answers the requests of one custom protocol.
    type ProtocolHandler;
}

} // verus!
