//! The errors of the backend.
use vstd::prelude::*;

verus! {

/// What can go wrong.
pub enum WebViewError {
    /// The window gives a handle, but not that of an Android window.
    UnsupportedWindowHandle,
    /// The window gives no handle.
    WindowHandle(raw_window_handle::HandleError),
    /// No activity is registered under the id that a message was sent to.
    ActivityNotFound,
    /// A call into Java failed.
    Jni(jni::errors::Error),
    /// No answer came in time, or nobody is left to send one.
    Receive(crossbeam_channel::RecvTimeoutError),
}

/// The answer to a question that was sent to the webview, once the wait for it is over.
pub fn received<T>(answer: Result<T, crossbeam_channel::RecvTimeoutError>) -> (r: Result<T, WebViewError>)
    ensures
        r == match answer {
            Ok(value) => Ok(value),
            Err(e) => Err(WebViewError::Receive(e)),
        },
{
    match answer {
        Ok(value) => Ok(value),
        Err(e) => Err(WebViewError::Receive(e)),
    }
}

/// The answer to a question whose answer can be an error of its own.
pub fn received_result<T>(
    answer: Result<Result<T, WebViewError>, crossbeam_channel::RecvTimeoutError>,
) -> (r: Result<T, WebViewError>)
    ensures
        r == match answer {
            Ok(result) => result,
            Err(e) => Err(WebViewError::Receive(e)),
        },
{
    match answer {
        Ok(result) => result,
        Err(e) => Err(WebViewError::Receive(e)),
    }
}

} // verus!
