//! What is said to the `tailscale` tool, and what is read out of its answers.
//!
//! The tool publishes the bridge's local listener on the overlay network.
//! Running it is the program's business; which arguments it gets, when its
//! answer counts as a failure and which address a client is pointed to are
//! decided here.

use vstd::prelude::*;
use vstd::string::StringExecFns;
use crate::text::decimal;
use crate::text::decimal_string;
use crate::text::has_prefix;
use crate::text::joined;
use crate::text::strip_trailing;
use crate::text::url;
use crate::text::url_of;
use crate::text::without_trailing;

verus! {

/// What `tailscale status --json` says of this node, as far as it is read:
/// the members `DNSName` and `TailscaleIPs` of its member `Self`.
#[derive(Clone, Debug)]
pub struct NodeStatus {
    pub dns_name: Option<String>,
    pub tailscale_ips: Option<Vec<String>>,
}

/// The target that the overlay forwards to: `tcp://ip:port`.
pub open spec fn local_target_of(local_ip: Seq<char>, local_port: u16) -> Seq<char> {
    url_of("tcp"@, local_ip, local_port)
}

/// The arguments of [`serve_tcp_args`].
pub open spec fn serve_tcp_args_of(remote_port: u16, local_ip: Seq<char>, local_port: u16) -> Seq<
    Seq<char>,
> {
    seq![
        "serve"@,
        "--bg"@,
        "--yes"@,
        "--tcp"@,
        decimal(remote_port as nat),
        local_target_of(local_ip, local_port),
    ]
}

/// The arguments of [`serve_tcp_off_args`].
pub open spec fn serve_tcp_off_args_of(remote_port: u16) -> Seq<Seq<char>> {
    seq!["serve"@, "--yes"@, "--tcp"@, decimal(remote_port as nat), "off"@]
}

/// The arguments that make the tool forward `remote_port` of the overlay to
/// the local listener, in the background and without prompting.
pub fn serve_tcp_args(remote_port: u16, local_ip: &str, local_port: u16) -> (args: Vec<String>)
    ensures
        args.deep_view() == serve_tcp_args_of(remote_port, local_ip@, local_port),
{
    let mut args: Vec<String> = Vec::new();
    args.push(String::from_str("serve"));
    args.push(String::from_str("--bg"));
    args.push(String::from_str("--yes"));
    args.push(String::from_str("--tcp"));
    args.push(decimal_string(remote_port));
    args.push(url("tcp", local_ip, local_port));
    assert(args.deep_view() =~= serve_tcp_args_of(remote_port, local_ip@, local_port));
    args
}

/// The arguments that make the tool stop forwarding `remote_port`.
pub fn serve_tcp_off_args(remote_port: u16) -> (args: Vec<String>)
    ensures
        args.deep_view() == serve_tcp_off_args_of(remote_port),
{
    let mut args: Vec<String> = Vec::new();
    args.push(String::from_str("serve"));
    args.push(String::from_str("--yes"));
    args.push(String::from_str("--tcp"));
    args.push(decimal_string(remote_port));
    args.push(String::from_str("off"));
    assert(args.deep_view() =~= serve_tcp_off_args_of(remote_port));
    args
}

/// The arguments that make the tool describe this node as JSON.
pub fn status_args() -> (args: Vec<String>)
    ensures
        args.deep_view() == seq!["status"@, "--json"@],
{
    let mut args: Vec<String> = Vec::new();
    args.push(String::from_str("status"));
    args.push(String::from_str("--json"));
    assert(args.deep_view() =~= seq!["status"@, "--json"@]);
    args
}

/// What is reported when the tool could not be run at all.
pub fn run_failure(program: &str) -> (message: String)
    ensures
        message@ == "failed to run `"@ + program@ + "`"@,
{
    let mut message = String::from_str("failed to run `");
    message.append(program);
    message.append("`");
    message
}

/// Whether turning forwarding on succeeded: it did if the tool exited with
/// success; if not, the failure quotes what the tool wrote to its error
/// stream.
pub fn serve_tcp_outcome(success: bool, stderr: &str) -> (outcome: Result<(), String>)
    ensures
        success ==> outcome is Ok,
        !success ==> outcome is Err && outcome->Err_0@ == "tailscale serve failed: "@ + stderr@,
{
    if success {
        Ok(())
    } else {
        Err(joined("tailscale serve failed: ", stderr))
    }
}

/// Whether turning forwarding off succeeded. It always counts as done,
/// whatever the tool's exit status: shutdown is not held up by it.
pub fn serve_tcp_off_outcome(success: bool) -> (outcome: Result<(), String>)
    ensures
        outcome is Ok,
{
    if success {
        Ok(())
    } else {
        // Some versions of the tool know no `off`; cleanup goes on without it.
        Ok(())
    }
}

/// Whether an address lies in the overlay's range, which begins with `100.`.
pub open spec fn is_overlay_ip(ip: Seq<char>) -> bool {
    "100."@.is_prefix_of(ip)
}

/// The first address of `ips` that lies in the overlay's range.
pub open spec fn first_overlay_ip(ips: Seq<Seq<char>>) -> Option<Seq<char>>
    decreases ips.len(),
{
    if ips.len() == 0 {
        None
    } else if is_overlay_ip(ips[0]) {
        Some(ips[0])
    } else {
        first_overlay_ip(ips.drop_first())
    }
}

/// The host that a client is pointed to: the node's first overlay address,
/// or else its DNS name without the trailing dot, or else nothing.
pub open spec fn hint_host_of(dns_name: Option<Seq<char>>, ips: Option<Seq<Seq<char>>>) -> Option<
    Seq<char>,
> {
    let by_ip = match ips {
        Some(list) => first_overlay_ip(list),
        None => None,
    };
    match by_ip {
        Some(ip) => Some(ip),
        None => match dns_name {
            Some(name) => Some(without_trailing(name, '.')),
            None => None,
        },
    }
}

/// The base URL that a client is pointed to, if the status names a host.
pub open spec fn connect_hint_of(
    dns_name: Option<Seq<char>>,
    ips: Option<Seq<Seq<char>>>,
    port: u16,
) -> Option<Seq<char>> {
    match hint_host_of(dns_name, ips) {
        Some(host) => Some(url_of("http"@, host, port)),
        None => None,
    }
}

fn find_overlay_ip(ips: &Vec<String>) -> (found: Option<usize>)
    ensures
        match found {
            Some(i) => i < ips.len() && first_overlay_ip(ips.deep_view()) == Some(ips[i as int]@),
            None => first_overlay_ip(ips.deep_view()) is None,
        },
{
    let ghost all = ips.deep_view();
    assert(all.skip(0) =~= all);
    let mut i: usize = 0;
    while i < ips.len()
        invariant
            i <= ips.len(),
            all == ips.deep_view(),
            all.len() == ips.len(),
            first_overlay_ip(all) == first_overlay_ip(all.skip(i as int)),
        decreases ips.len() - i,
    {
        let ghost rest = all.skip(i as int);
        assert(rest[0] == ips[i as int]@);
        assert(rest.drop_first() =~= all.skip(i as int + 1));
        if has_prefix(ips[i].as_str(), "100.") {
            return Some(i);
        }
        i += 1;
    }
    assert(all.skip(i as int).len() == 0);
    None
}

/// The base URL that a client on the overlay can reach the bridge under:
/// `http://` and the node's first overlay address, or else its DNS name
/// without the trailing dot, then the port. `None` where the status names
/// neither.
pub fn connect_hint(status: NodeStatus, port: u16) -> (hint: Option<String>)
    ensures
        hint.deep_view() == connect_hint_of(
            status.dns_name.deep_view(),
            status.tailscale_ips.deep_view(),
            port,
        ),
{
    if let Some(ips) = &status.tailscale_ips {
        if let Some(i) = find_overlay_ip(ips) {
            return Some(url("http", ips[i].as_str(), port));
        }
    }
    match status.dns_name {
        Some(name) => {
            let host = strip_trailing(name, '.');
            Some(url("http", host.as_str(), port))
        },
        None => None,
    }
}

} // verus!
