//! Custom protocols, whose URLs the platform only takes in a disguise. How a URL is disguised is
//! up to the caller, who passes the functions that do it.
use vstd::prelude::*;

verus! {

/// The scheme in which the custom protocols are disguised.
pub open spec fn scheme_text(https_scheme: bool) -> Seq<char> {
    if https_scheme {
        "https"@
    } else {
        "http"@
    }
}

/// Whether `f` can give `result` for a URL, a scheme and a protocol.
pub open spec fn turns<F: Fn(&str, &str, &str) -> String>(
    f: F,
    url: Seq<char>,
    scheme: Seq<char>,
    protocol: Seq<char>,
    result: Seq<char>,
) -> bool {
    exists|u: &str, s: &str, p: &str, r: String|
        u@ == url && s@ == scheme && p@ == protocol && r@ == result && #[trigger] call_ensures(
            f,
            (u, s, p),
            r,
        )
}

/// Whether `f` can answer `answer` for a URL, a scheme and a protocol.
pub open spec fn answers<F: Fn(&str, &str, &str) -> bool>(
    f: F,
    url: Seq<char>,
    scheme: Seq<char>,
    protocol: Seq<char>,
    answer: bool,
) -> bool {
    exists|u: &str, s: &str, p: &str|
        u@ == url && s@ == scheme && p@ == protocol && #[trigger] call_ensures(
            f,
            (u, s, p),
            answer,
        )
}

/// The scheme is that of secure pages exactly where it was asked for.
pub proof fn scheme_is_as_asked()
    ensures
        scheme_text(true) == "https"@,
        scheme_text(false) == "http"@,
{
}

/// A disguise is what the function gave for the very URL, scheme and protocol.
pub proof fn turning_is_calling<F: Fn(&str, &str, &str) -> String>(
    f: F,
    url: Seq<char>,
    scheme: Seq<char>,
    protocol: Seq<char>,
    result: Seq<char>,
)
    requires
        turns(f, url, scheme, protocol, result),
    ensures
        exists|u: &str, s: &str, p: &str, r: String|
            {
                &&& #[trigger] call_ensures(f, (u, s, p), r)
                &&& u@ == url
                &&& s@ == scheme
                &&& p@ == protocol
                &&& r@ == result
            },
{
}

/// An answer is what the function gave for the very URL, scheme and protocol.
pub proof fn answering_is_calling<F: Fn(&str, &str, &str) -> bool>(
    f: F,
    url: Seq<char>,
    scheme: Seq<char>,
    protocol: Seq<char>,
    answer: bool,
)
    requires
        answers(f, url, scheme, protocol, answer),
    ensures
        exists|u: &str, s: &str, p: &str|
            {
                &&& #[trigger] call_ensures(f, (u, s, p), answer)
                &&& u@ == url
                &&& s@ == scheme
                &&& p@ == protocol
            },
{
}

/// The scheme in which the custom protocols are disguised.
pub fn scheme(https_scheme: bool) -> (r: &'static str)
    ensures
        r@ == scheme_text(https_scheme),
{
    if https_scheme {
        "https"
    } else {
        "http"
    }
}

} // verus!
