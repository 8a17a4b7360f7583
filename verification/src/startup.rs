//! What the bridge says of itself when it comes up.

use vstd::prelude::*;
use vstd::string::StringExecFns;
use crate::text::decimal;
use crate::text::joined;
use crate::text::push_decimal;
use crate::text::url;
use crate::text::url_of;

verus! {

/// The base URL of the local listener.
pub fn local_base(bind_ip: &str, port: u16) -> (base: String)
    ensures
        base@ == url_of("http"@, bind_ip@, port),
{
    url("http", bind_ip, port)
}

/// The base URL shown to a client where the overlay address of this node is
/// not known: a pattern to fill in by hand.
pub open spec fn placeholder_hint_of(port: u16) -> Seq<char> {
    "http://100.x.y.z:"@ + decimal(port as nat)
}

/// The lines of [`banner`].
pub open spec fn banner_of(local_base: Seq<char>, hint: Option<Seq<char>>, port: u16) -> Seq<
    Seq<char>,
> {
    seq![
        "CliMate is up."@,
        "- local http: "@ + local_base,
        "- iOS base URL: "@ + match hint {
            Some(base) => base,
            None => placeholder_hint_of(port),
        },
        "Press Ctrl+C to stop."@,
    ]
}

/// The lines printed once the listener is published: where the bridge
/// listens locally, where a client on the overlay reaches it (or a pattern,
/// where that is not known), and how to stop it.
pub fn banner(local_base: &str, hint: Option<String>, port: u16) -> (lines: Vec<String>)
    ensures
        lines.deep_view() == banner_of(local_base@, hint.deep_view(), port),
{
    let remote = match hint {
        Some(base) => base,
        None => {
            let mut pattern = String::from_str("http://100.x.y.z:");
            push_decimal(&mut pattern, port);
            pattern
        },
    };
    let mut lines: Vec<String> = Vec::new();
    lines.push(String::from_str("CliMate is up."));
    lines.push(joined("- local http: ", local_base));
    lines.push(joined("- iOS base URL: ", remote.as_str()));
    lines.push(String::from_str("Press Ctrl+C to stop."));
    assert(lines.deep_view() =~= banner_of(local_base@, hint.deep_view(), port));
    lines
}

/// What is reported when the local listener could not be bound.
pub fn bind_failure(local_base: &str) -> (message: String)
    ensures
        message@ == "failed to bind "@ + local_base@,
{
    joined("failed to bind ", local_base)
}

} // verus!
