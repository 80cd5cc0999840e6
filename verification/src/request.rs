//! Answering the requests of a webview for its custom protocols.
use crate::attributes::InitializationScript;
use crate::host::Host;
use crate::outside::{parse_uri, uri_to_text};
use crate::registries::RequestHandler;
use crate::work_around::scheme;
use std::sync::Arc;
use vstd::prelude::*;

verus! {

/// For how many seconds the answer to a message is waited for.
pub const MAIN_PIPE_TIMEOUT_SECS: u64 = 10;

/// For how many seconds the answer of a custom protocol is waited for.
pub const CUSTOM_PROTOCOL_TIMEOUT_SECS: u64 = 3 * MAIN_PIPE_TIMEOUT_SECS;

/// A request for a custom protocol: who answers it, for which URI, and with which scripts the
/// response is prepared.
pub struct RoutedRequest<'a, H: Host> {
    pub handler: &'a H::ProtocolHandler,
    pub uri: http::Uri,
    pub initialization_scripts: Arc<Vec<InitializationScript>>,
}

/// The URI that the handler of a protocol sees: the reverted one where it is a URI, and otherwise
/// the one that was requested.
pub fn effective_uri(requested: http::Uri, reverted: Option<http::Uri>) -> (r: http::Uri)
    ensures
        r == match reverted {
            Some(uri) => uri,
            None => requested,
        },
{
    match reverted {
        Some(uri) => uri,
        None => requested,
    }
}

/// The URI that the handler of a protocol sees for a request whose reverted text is `reverted`.
pub open spec fn handled_uri(requested: http::Uri, reverted: Seq<char>) -> http::Uri {
    match crate::outside::parsed_uri(reverted) {
        Some(uri) => uri,
        None => requested,
    }
}

/// The handler of a protocol sees the reverted URI where that is one, and the requested URI where
/// it is not.
pub proof fn reverted_uri_is_seen(requested: http::Uri, reverted: Seq<char>)
    ensures
        crate::outside::parsed_uri(reverted) matches Some(uri) ==> handled_uri(requested, reverted)
            == uri,
        crate::outside::parsed_uri(reverted) is None ==> handled_uri(requested, reverted)
            == requested,
{
}

impl<H: Host> RequestHandler<H> {
    /// Finds the custom protocol that a request is for, and the URI that its handler is to see.
    /// Where more than one protocol claims the request, it is left open which of them gets it.
    pub fn route<
        'a,
        F: Fn(&str, &str, &str) -> bool,
        G: Fn(&str, &str, &str) -> String,
    >(&'a self, uri: http::Uri, is_work_around_uri: F, revert_uri_work_around: G) -> (r: Option<
        RoutedRequest<'a, H>,
    >)
        requires
            forall|u: &str, s: &str, p: &str| #[trigger]
                call_requires(is_work_around_uri, (u, s, p)),
            forall|u: &str, s: &str, p: &str| #[trigger]
                call_requires(revert_uri_work_around, (u, s, p)),
        ensures
            ({
                let text = crate::outside::uri_text(uri);
                let scheme = crate::work_around::scheme_text(self.https_scheme);
                let protocols = self.custom_protocols@;
                match r {
                    Some(routed) => exists|protocol: Seq<char>, reverted: Seq<char>|
                        {
                            &&& #[trigger] protocols.contains_key(protocol)
                            &&& crate::work_around::answers(
                                is_work_around_uri,
                                text,
                                scheme,
                                protocol,
                                true,
                            )
                            &&& *routed.handler == protocols[protocol]
                            &&& #[trigger] crate::work_around::turns(
                                revert_uri_work_around,
                                text,
                                scheme,
                                protocol,
                                reverted,
                            )
                            &&& routed.uri == handled_uri(uri, reverted)
                            &&& routed.initialization_scripts == self.initialization_scripts
                        },
                    None => forall|protocol: Seq<char>| #[trigger]
                        protocols.contains_key(protocol) ==> crate::work_around::answers(
                            is_work_around_uri,
                            text,
                            scheme,
                            protocol,
                            false,
                        ),
                }
            }),
            r matches Some(routed) ==> exists|u: &str, s: &str, p: &str|
                {
                    &&& #[trigger] call_ensures(is_work_around_uri, (u, s, p), true)
                    &&& u@ == crate::outside::uri_text(uri)
                    &&& s@ == if self.https_scheme {
                        "https"@
                    } else {
                        "http"@
                    }
                    &&& self.custom_protocols@.contains_key(p@)
                    &&& *routed.handler == self.custom_protocols@[p@]
                },
            r matches Some(routed) ==> exists|u: &str, s: &str, p: &str, text: String|
                {
                    &&& #[trigger] call_ensures(revert_uri_work_around, (u, s, p), text)
                    &&& u@ == crate::outside::uri_text(uri)
                    &&& s@ == if self.https_scheme {
                        "https"@
                    } else {
                        "http"@
                    }
                    &&& self.custom_protocols@.contains_key(p@)
                    &&& *routed.handler == self.custom_protocols@[p@]
                    &&& crate::outside::parsed_uri(text@) matches Some(parsed) ==> routed.uri
                        == parsed
                    &&& crate::outside::parsed_uri(text@) is None ==> routed.uri == uri
                },
    {
        let text = uri_to_text(&uri);
        let scheme = scheme(self.https_scheme);
        let names = self.custom_protocols.keys();
        let ghost protocols = self.custom_protocols@;
        let ghost all = crate::text::texts(names@);
        let mut i: usize = 0;
        while i < names.len()
            invariant
                i <= names@.len(),
                all == crate::text::texts(names@),
                all.to_set() == protocols.dom(),
                protocols == self.custom_protocols@,
                text@ == crate::outside::uri_text(uri),
                scheme@ == crate::work_around::scheme_text(self.https_scheme),
                forall|u: &str, s: &str, p: &str| #[trigger]
                    call_requires(is_work_around_uri, (u, s, p)),
                forall|u: &str, s: &str, p: &str| #[trigger]
                    call_requires(revert_uri_work_around, (u, s, p)),
                forall|j: int|
                    0 <= j < i ==> crate::work_around::answers(
                        is_work_around_uri,
                        text@,
                        scheme@,
                        #[trigger] all[j],
                        false,
                    ),
            decreases names@.len() - i,
        {
            let name = names[i].as_str();
            assert(all[i as int] == name@);
            assert(all.to_set().contains(name@));
            let claimed = is_work_around_uri(text.as_str(), scheme, name);
            assert(crate::work_around::answers(
                is_work_around_uri,
                text@,
                scheme@,
                name@,
                claimed,
            ));
            if claimed {
                match self.custom_protocols.get(name) {
                    Some(handler) => {
                        let reverted = revert_uri_work_around(text.as_str(), scheme, name);
                        assert(crate::work_around::turns(
                            revert_uri_work_around,
                            text@,
                            scheme@,
                            name@,
                            reverted@,
                        ));
                        let parsed = parse_uri(reverted.as_str());
                        let uri = effective_uri(uri, parsed);
                        let initialization_scripts = self.initialization_scripts.clone();
                        return Some(RoutedRequest { handler, uri, initialization_scripts });
                    },
                    None => {
                        assert(false);
                    },
                }
            }
            i = i + 1;
        }
        assert forall|protocol: Seq<char>| #[trigger] protocols.contains_key(
            protocol,
        ) implies crate::work_around::answers(
            is_work_around_uri,
            text@,
            scheme@,
            protocol,
            false,
        ) by {
            assert(all.to_set().contains(protocol));
            let j = choose|j: int| 0 <= j < all.len() && all[j] == protocol;
            assert(all[j] == protocol);
        }
        None
    }
}

/// The response as it goes back to the webview. Where scripts cannot be added at the start of a
/// document, the initialization scripts of the webview are put into the response.
pub fn prepare_response<R, F: FnOnce(R, &Vec<InitializationScript>) -> R>(
    response: R,
    initialization_scripts: &Vec<InitializationScript>,
    is_document_start_script_enabled: bool,
    inject_scripts: F,
) -> (r: R)
    requires
        !is_document_start_script_enabled ==> call_requires(
            inject_scripts,
            (response, initialization_scripts),
        ),
    ensures
        is_document_start_script_enabled ==> r == response,
        !is_document_start_script_enabled ==> call_ensures(
            inject_scripts,
            (response, initialization_scripts),
            r,
        ),
{
    if is_document_start_script_enabled {
        response
    } else {
        inject_scripts(response, initialization_scripts)
    }
}

} // verus!
