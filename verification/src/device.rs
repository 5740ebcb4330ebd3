//! Peer devices: their records, their endpoints, and how an address typed by the user
//! becomes an endpoint.
use vstd::prelude::*;

use crate::text::{contains_str, has_substring, is_blank, str_eq, trim, trimmed};

verus! {

/// A peer device as the local store keeps it.
#[derive(Clone, Debug)]
pub struct Device {
    pub id: String,
    pub name: String,
    pub ip: String,
    pub port: u16,
    pub public_key: Option<String>,
    pub trusted: bool,
    pub platform: Option<String>,
    pub version: Option<String>,
    pub protocol_version: Option<i64>,
    pub features: Vec<String>,
    pub online: bool,
    pub created_at: i64,
    pub last_seen_at: Option<i64>,
    pub last_checked_at: Option<i64>,
    pub last_error: Option<String>,
}

/// The mathematical value of a [`Device`].
pub ghost struct DeviceView {
    pub id: Seq<char>,
    pub name: Seq<char>,
    pub ip: Seq<char>,
    pub port: u16,
    pub public_key: Option<Seq<char>>,
    pub trusted: bool,
    pub platform: Option<Seq<char>>,
    pub version: Option<Seq<char>>,
    pub protocol_version: Option<i64>,
    pub features: Seq<Seq<char>>,
    pub online: bool,
    pub created_at: i64,
    pub last_seen_at: Option<i64>,
    pub last_checked_at: Option<i64>,
    pub last_error: Option<Seq<char>>,
}

impl View for Device {
    type V = DeviceView;

    open spec fn view(&self) -> DeviceView {
        DeviceView {
            id: self.id@,
            name: self.name@,
            ip: self.ip@,
            port: self.port,
            public_key: self.public_key.deep_view(),
            trusted: self.trusted,
            platform: self.platform.deep_view(),
            version: self.version.deep_view(),
            protocol_version: self.protocol_version,
            features: self.features.deep_view(),
            online: self.online,
            created_at: self.created_at,
            last_seen_at: self.last_seen_at,
            last_checked_at: self.last_checked_at,
            last_error: self.last_error.deep_view(),
        }
    }
}

/// Where a peer's agent listens.
#[derive(Clone, Debug)]
pub struct DeviceEndpoint {
    pub host: String,
    pub port: u16,
}

/// The mathematical value of a [`DeviceEndpoint`].
pub ghost struct DeviceEndpointView {
    pub host: Seq<char>,
    pub port: u16,
}

impl View for DeviceEndpoint {
    type V = DeviceEndpointView;

    open spec fn view(&self) -> DeviceEndpointView {
        DeviceEndpointView { host: self.host@, port: self.port }
    }
}

/// The endpoint at which a saved device is reached.
pub fn device_endpoint(device: &Device) -> (e: DeviceEndpoint)
    ensures
        e@ == (DeviceEndpointView { host: device.ip@, port: device.port }),
{
    DeviceEndpoint { host: device.ip.clone(), port: device.port }
}

/// The port a peer's agent listens on unless told otherwise.
pub const DEFAULT_AGENT_PORT: u16 = 8765;

/// What the logic reads of a parsed URL: its scheme, its host as text, and its port.
#[derive(Clone, Debug)]
pub struct UrlParts {
    pub scheme: String,
    pub host: Option<String>,
    pub port: Option<u16>,
}

/// What `url::Url::parse` makes of `input`, as (scheme, host as text, explicit port), or
/// `None` where it refuses the input.
pub uninterp spec fn url_parts_of(input: Seq<char>) -> Option<(Seq<char>, Option<Seq<char>>, Option<u16>)>;

/// `url::Url::parse(input)`, read back through `scheme`, `host_str` and `port`. The
/// result is named by `url_parts_of`; nothing more is claimed of it.
#[verifier::external_body]
fn parse_url_parts(input: &str) -> (r: Option<UrlParts>)
    ensures
        r is Some <==> url_parts_of(input@) is Some,
        r matches Some(p) ==> url_parts_of(input@) == Some((p.scheme@, p.host.deep_view(), p.port)),
{
    match url::Url::parse(input) {
        Ok(u) => Some(
            UrlParts {
                scheme: u.scheme().to_owned(),
                host: u.host_str().map(|h| h.to_owned()),
                port: u.port(),
            },
        ),
        Err(_) => None,
    }
}

/// The text handed to the URL parser for an address typed by the user: trimmed, with
/// `http://` in front unless it already names a scheme.
pub open spec fn endpoint_url_input(address: Seq<char>) -> Seq<char> {
    let t = trimmed(address);
    if has_substring(t, "://"@) {
        t
    } else {
        "http://"@ + t
    }
}

/// The endpoint a parsed address stands for, or why it is refused.
pub open spec fn endpoint_from_parts(parts: Option<(Seq<char>, Option<Seq<char>>, Option<u16>)>) -> Result<
    DeviceEndpointView,
    Seq<char>,
> {
    match parts {
        None => Err("设备地址格式不正确，请使用 ip:port"@),
        Some((scheme, host, port)) => if scheme != "http"@ {
            Err("Phase 2 仅支持 HTTP 地址"@)
        } else {
            match host {
                None => Err("设备地址缺少 IP 或主机名"@),
                Some(h) => Ok(
                    DeviceEndpointView {
                        host: h,
                        port: match port {
                            Some(p) => p,
                            None => DEFAULT_AGENT_PORT,
                        },
                    },
                ),
            }
        },
    }
}

/// What `parse_endpoint` gives for `address`.
pub open spec fn endpoint_result(address: Seq<char>) -> Result<DeviceEndpointView, Seq<char>> {
    if is_blank(address) {
        Err("请输入设备地址，例如 PEER_ZEROTIER_IP:8765"@)
    } else {
        endpoint_from_parts(url_parts_of(endpoint_url_input(address)))
    }
}

/// The endpoint described by a parsed URL: an `http` URL with a host; the port defaults
/// to 8765.
pub fn endpoint_from_url(parts: Option<UrlParts>) -> (r: Result<DeviceEndpoint, String>)
    ensures
        match r {
            Ok(e) => endpoint_from_parts(
                match parts {
                    Some(p) => Some((p.scheme@, p.host.deep_view(), p.port)),
                    None => None,
                },
            ) == Ok::<DeviceEndpointView, Seq<char>>(e@),
            Err(m) => endpoint_from_parts(
                match parts {
                    Some(p) => Some((p.scheme@, p.host.deep_view(), p.port)),
                    None => None,
                },
            ) == Err::<DeviceEndpointView, Seq<char>>(m@),
        },
{
    match parts {
        None => Err("设备地址格式不正确，请使用 ip:port".to_owned()),
        Some(p) => {
            if !str_eq(p.scheme.as_str(), "http") {
                return Err("Phase 2 仅支持 HTTP 地址".to_owned());
            }
            match p.host {
                None => Err("设备地址缺少 IP 或主机名".to_owned()),
                Some(h) => {
                    let port = match p.port {
                        Some(n) => n,
                        None => DEFAULT_AGENT_PORT,
                    };
                    Ok(DeviceEndpoint { host: h, port })
                },
            }
        },
    }
}

/// The endpoint of a peer from an address typed by the user, such as `10.0.0.2:8765`.
pub fn parse_endpoint(address: &str) -> (r: Result<DeviceEndpoint, String>)
    ensures
        match r {
            Ok(e) => endpoint_result(address@) == Ok::<DeviceEndpointView, Seq<char>>(e@),
            Err(m) => endpoint_result(address@) == Err::<DeviceEndpointView, Seq<char>>(m@),
        },
{
    let t = trim(address);
    if t.as_str().unicode_len() == 0 {
        return Err("请输入设备地址，例如 PEER_ZEROTIER_IP:8765".to_owned());
    }
    let raw = if contains_str(t.as_str(), "://") {
        t
    } else {
        "http://".to_owned().concat(t.as_str())
    };
    endpoint_from_url(parse_url_parts(raw.as_str()))
}

/// The values of a list of devices.
pub open spec fn device_views(devices: Seq<Device>) -> Seq<DeviceView> {
    devices.map_values(|d: Device| d@)
}

/// Index of the first device in `devices` with id `device_id` that is trusted, if any.
pub open spec fn first_trusted_index(devices: Seq<DeviceView>, device_id: Seq<char>, from: int) -> Option<int>
    decreases devices.len() - from,
{
    if from < 0 || from >= devices.len() {
        None
    } else if devices[from].id == device_id && devices[from].trusted {
        Some(from)
    } else {
        first_trusted_index(devices, device_id, from + 1)
    }
}

/// The first saved device with id `device_id` that is trusted: the only peers allowed to
/// open a control connection.
pub fn find_trusted_device(list: Vec<Device>, device_id: &str) -> (r: Option<Device>)
    ensures
        match first_trusted_index(device_views(list@), device_id@, 0) {
            Some(i) => r is Some && r->0@ == list@[i]@,
            None => r is None,
        },
{
    let ghost views = device_views(list@);
    let mut devices = list;
    let ghost all = devices@;
    let mut i: usize = 0;
    while i < devices.len()
        invariant
            devices@ == all,
            all == list@,
            views == device_views(all),
            i <= all.len(),
            first_trusted_index(views, device_id@, 0) == first_trusted_index(views, device_id@, i as int),
        decreases devices.len() - i,
    {
        if devices[i].trusted && str_eq(devices[i].id.as_str(), device_id) {
            proof {
                assert(views[i as int] == all[i as int]@);
                assert(first_trusted_index(views, device_id@, i as int) == Some(i as int));
            }
            let d = devices.remove(i);
            return Some(d);
        }
        proof {
            assert(views[i as int] == all[i as int]@);
        }
        i = i + 1;
    }
    None
}

} // verus!
