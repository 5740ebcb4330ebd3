//! Transports to peers: what a ping answers, and the URLs and error texts of HTTP calls.
use vstd::prelude::*;

use crate::device::DeviceEndpoint;
use crate::text::{decimal, decimal_string, has_prefix, is_blank, is_blank_str, starts_with_str};

verus! {

broadcast use vstd::string::group_string_axioms;

/// What a peer's agent answers to a ping.
#[derive(Clone, Debug)]
pub struct TransportPing {
    pub device_id: String,
    pub device_name: String,
    pub version: String,
    pub platform: String,
    pub protocol_version: u16,
    pub features: Vec<String>,
}

/// A way of reaching peers.
pub trait Transport: Send + Sync {
    /// A short name for the transport.
    fn name(&self) -> &'static str;
}

/// The QUIC transport, reserved for later phases.
#[derive(Clone, Debug, Default)]
pub struct QuicTransport;

impl Transport for QuicTransport {
    fn name(&self) -> (n: &'static str)
        ensures
            n@ == "quic"@,
    {
        "quic"
    }
}

/// `path` with a leading `/`, added where it lacks one.
pub open spec fn rooted_path(path: Seq<char>) -> Seq<char> {
    if has_prefix(path, "/"@) {
        path
    } else {
        "/"@ + path
    }
}

/// The HTTP URL of `path` on a peer's agent.
pub fn endpoint_url(endpoint: &DeviceEndpoint, path: &str) -> (u: String)
    ensures
        u@ == "http://"@ + endpoint.host@ + ":"@ + decimal(endpoint.port as nat) + rooted_path(
            path@,
        ),
{
    let path = if starts_with_str(path, "/") {
        path.to_owned()
    } else {
        "/".to_owned().concat(path)
    };
    let port = decimal_string(endpoint.port as u64);
    "http://".to_owned().concat(endpoint.host.as_str()).concat(":").concat(port.as_str()).concat(
        path.as_str(),
    )
}

/// The URL a peer's agent is pinged at.
pub fn ping_url(endpoint: &DeviceEndpoint) -> (u: String)
    ensures
        u@ == "http://"@ + endpoint.host@ + ":"@ + decimal(endpoint.port as nat) + "/api/ping"@,
{
    let port = decimal_string(endpoint.port as u64);
    "http://".to_owned().concat(endpoint.host.as_str()).concat(":").concat(port.as_str()).concat(
        "/api/ping",
    )
}

/// The error for an HTTP answer with a failure status: the URL, the status, and the
/// body where it is not blank.
pub fn http_status_error(url: &str, status: &str, body: &str) -> (e: String)
    ensures
        e@ == url@ + " returned HTTP "@ + status@ + if is_blank(body@) {
            Seq::<char>::empty()
        } else {
            ": "@ + body@
        },
{
    let head = url.to_owned().concat(" returned HTTP ").concat(status);
    if is_blank_str(body) {
        proof {
            assert(head@ + Seq::<char>::empty() =~= head@);
        }
        head
    } else {
        head.concat(": ").concat(body)
    }
}

} // verus!
