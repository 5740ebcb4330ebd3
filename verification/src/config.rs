//! The local device's configuration: its defaults, and how a configuration read from
//! disk is completed.
use vstd::prelude::*;

use crate::ids::{is_prefixed_random_uuid, is_prefixed_uuid, new_device_id};
use crate::store::SqliteStore;
use crate::text::{chars_of, is_blank, is_blank_str, string_from_chars, trim, trimmed};

verus! {

broadcast use vstd::string::group_string_axioms;

/// The port the local agent listens on unless configured otherwise.
pub const DEFAULT_LISTEN_PORT: u16 = 8765;

/// The protocol version spoken unless configured otherwise.
pub const DEFAULT_PROTOCOL_VERSION: u16 = 1;

/// The configuration of the local device.
#[derive(Clone, Debug)]
pub struct AppConfig {
    pub device_id: String,
    pub device_name: String,
    pub listen_host: String,
    pub listen_port: u16,
    pub download_dir: String,
    pub protocol_version: u16,
    pub version: String,
}

/// The mathematical value of an [`AppConfig`].
pub ghost struct AppConfigView {
    pub device_id: Seq<char>,
    pub device_name: Seq<char>,
    pub listen_host: Seq<char>,
    pub listen_port: u16,
    pub download_dir: Seq<char>,
    pub protocol_version: u16,
    pub version: Seq<char>,
}

impl View for AppConfig {
    type V = AppConfigView;

    open spec fn view(&self) -> AppConfigView {
        AppConfigView {
            device_id: self.device_id@,
            device_name: self.device_name@,
            listen_host: self.listen_host@,
            listen_port: self.listen_port,
            download_dir: self.download_dir@,
            protocol_version: self.protocol_version,
            version: self.version@,
        }
    }
}

/// A configuration with the path it was read from and the store next to it.
#[derive(Clone, Debug)]
pub struct LoadedConfig {
    pub config: AppConfig,
    pub config_path: String,
    pub store: SqliteStore,
}

/// The host the local agent listens on unless configured otherwise.
pub open spec fn default_listen_host() -> Seq<char> {
    "0.0.0.0"@
}

/// The device name found in the environment: the first of the two variables that is set
/// (the computer name, then the host name), trimmed, unless that is empty.
pub open spec fn env_device_name(
    computer_name: Option<Seq<char>>,
    host_name: Option<Seq<char>>,
) -> Option<Seq<char>> {
    let first = match computer_name {
        Some(n) => Some(n),
        None => host_name,
    };
    match first {
        Some(n) => if trimmed(n).len() == 0 {
            None
        } else {
            Some(trimmed(n))
        },
        None => None,
    }
}

/// The device name found in the environment variables `COMPUTERNAME` and `HOSTNAME`.
pub fn default_device_name(computer_name: Option<String>, host_name: Option<String>) -> (r: Option<
    String,
>)
    ensures
        r.deep_view() == env_device_name(computer_name.deep_view(), host_name.deep_view()),
{
    let first = match computer_name {
        Some(n) => Some(n),
        None => host_name,
    };
    match first {
        Some(n) => {
            let t = trim(n.as_str());
            if t.as_str().unicode_len() == 0 {
                None
            } else {
                Some(t)
            }
        },
        None => None,
    }
}

/// The part of a device id after `zd_`, or the whole id where it lacks that prefix.
pub open spec fn id_suffix(device_id: Seq<char>) -> Seq<char> {
    if crate::text::has_prefix(device_id, "zd_"@) {
        device_id.subrange(3, device_id.len() as int)
    } else {
        device_id
    }
}

/// `ZeroDrop-` followed by the first six characters of the id's suffix.
pub open spec fn generated_device_name(device_id: Seq<char>) -> Seq<char> {
    let s = id_suffix(device_id);
    "ZeroDrop-"@ + if s.len() <= 6 {
        s
    } else {
        s.subrange(0, 6)
    }
}

/// The name given to a new device that found none in its environment.
pub fn fallback_device_name(device_id: &str) -> (n: String)
    ensures
        n@ == generated_device_name(device_id@),
{
    let v = chars_of(device_id);
    proof {
        reveal_strlit("zd_");
    }
    let start: usize = if crate::text::starts_with_str(device_id, "zd_") {
        3
    } else {
        0
    };
    let end: usize = if v.len() - start <= 6 {
        v.len()
    } else {
        start + 6
    };
    let mut part: Vec<char> = Vec::new();
    let mut i = start;
    while i < end
        invariant
            start <= i <= end <= v@.len(),
            v@ == device_id@,
            part@ == v@.subrange(start as int, i as int),
        decreases end - i,
    {
        part.push(v[i]);
        i = i + 1;
        proof {
            assert(part@ =~= v@.subrange(start as int, i as int));
        }
    }
    let suffix = string_from_chars(&part);
    proof {
        let s = id_suffix(device_id@);
        assert(s =~= v@.subrange(start as int, v@.len() as int));
        if s.len() <= 6 {
            assert(part@ =~= s);
        } else {
            assert(part@ =~= s.subrange(0, 6));
        }
    }
    "ZeroDrop-".to_owned().concat(suffix.as_str())
}

/// The configuration of a device started for the first time: a fresh `zd_` id, the name
/// from the environment or one made from the id, listening on 0.0.0.0:8765, protocol 1.
pub fn default_config(env_name: Option<String>, download_dir: String, version: String) -> (c:
    AppConfig)
    ensures
        is_prefixed_uuid(c.device_id@, "zd_"@),
        is_prefixed_random_uuid(c.device_id@, "zd_"@),
        c.device_name@ == match env_name {
            Some(n) => n@,
            None => generated_device_name(c.device_id@),
        },
        c.listen_host@ == default_listen_host(),
        c.listen_port == DEFAULT_LISTEN_PORT,
        c.download_dir@ == download_dir@,
        c.protocol_version == DEFAULT_PROTOCOL_VERSION,
        c.version@ == version@,
{
    let device_id = new_device_id();
    let device_name = match env_name {
        Some(n) => n,
        None => fallback_device_name(device_id.as_str()),
    };
    AppConfig {
        device_id,
        device_name,
        listen_host: "0.0.0.0".to_owned(),
        listen_port: DEFAULT_LISTEN_PORT,
        download_dir,
        protocol_version: DEFAULT_PROTOCOL_VERSION,
        version,
    }
}

/// `new` is `old` completed: a blank id replaced by a fresh `zd_` id, a blank name by
/// the one from the environment (or `ZeroDrop`), a blank host by 0.0.0.0, port 0 by
/// 8765, a blank download directory by `download_dir`, protocol 0 by 1; the version set
/// to `version`; every other field kept.
pub open spec fn normalized(
    old: AppConfigView,
    new: AppConfigView,
    env_name: Option<Seq<char>>,
    download_dir: Seq<char>,
    version: Seq<char>,
) -> bool {
    &&& if is_blank(old.device_id) {
        is_prefixed_uuid(new.device_id, "zd_"@)
    } else {
        new.device_id == old.device_id
    }
    &&& new.device_name == if is_blank(old.device_name) {
        match env_name {
            Some(n) => n,
            None => "ZeroDrop"@,
        }
    } else {
        old.device_name
    }
    &&& new.listen_host == if is_blank(old.listen_host) {
        default_listen_host()
    } else {
        old.listen_host
    }
    &&& new.listen_port == if old.listen_port == 0 {
        DEFAULT_LISTEN_PORT
    } else {
        old.listen_port
    }
    &&& new.download_dir == if is_blank(old.download_dir) {
        download_dir
    } else {
        old.download_dir
    }
    &&& new.protocol_version == if old.protocol_version == 0 {
        DEFAULT_PROTOCOL_VERSION
    } else {
        old.protocol_version
    }
    &&& new.version == version
}

/// No field of the configuration is blank or zero.
pub open spec fn is_complete(c: AppConfigView) -> bool {
    &&& !is_blank(c.device_id)
    &&& !is_blank(c.device_name)
    &&& !is_blank(c.listen_host)
    &&& c.listen_port != 0
    &&& !is_blank(c.download_dir)
    &&& c.protocol_version != 0
}

/// Completes a configuration read from disk, as `normalized` says.
pub fn normalize_config(
    config: &mut AppConfig,
    env_name: Option<String>,
    download_dir: String,
    version: String,
)
    ensures
        normalized(old(config)@, final(config)@, env_name.deep_view(), download_dir@, version@),
        is_blank(old(config).device_id@) ==> is_prefixed_random_uuid(final(config).device_id@, "zd_"@),
{
    if is_blank_str(config.device_id.as_str()) {
        config.device_id = new_device_id();
    }
    if is_blank_str(config.device_name.as_str()) {
        config.device_name = match env_name {
            Some(n) => n,
            None => "ZeroDrop".to_owned(),
        };
    }
    if is_blank_str(config.listen_host.as_str()) {
        config.listen_host = "0.0.0.0".to_owned();
    }
    if config.listen_port == 0 {
        config.listen_port = DEFAULT_LISTEN_PORT;
    }
    if is_blank_str(config.download_dir.as_str()) {
        config.download_dir = download_dir;
    }
    if config.protocol_version == 0 {
        config.protocol_version = DEFAULT_PROTOCOL_VERSION;
    }
    config.version = version;
}

/// A completed configuration has no blank or zero field, provided the name from the
/// environment, if any, and the download directory are not blank.
pub proof fn lemma_normalized_is_complete(
    old: AppConfigView,
    new: AppConfigView,
    env_name: Option<Seq<char>>,
    download_dir: Seq<char>,
    version: Seq<char>,
)
    requires
        normalized(old, new, env_name, download_dir, version),
        env_name matches Some(n) ==> !is_blank(n),
        !is_blank(download_dir),
    ensures
        is_complete(new),
{
    reveal_strlit("zd_");
    reveal_strlit("ZeroDrop");
    reveal_strlit("0.0.0.0");
    if is_blank(old.device_id) {
        crate::ids::lemma_prefixed_id_not_blank(new.device_id, "zd_"@);
    }
    crate::text::lemma_not_blank_when_first_is_not_ws("ZeroDrop"@);
    crate::text::lemma_not_blank_when_first_is_not_ws("0.0.0.0"@);
}

/// Completing a configuration that is already complete changes only its version.
pub proof fn lemma_normalize_keeps_complete(
    old: AppConfigView,
    new: AppConfigView,
    env_name: Option<Seq<char>>,
    download_dir: Seq<char>,
    version: Seq<char>,
)
    requires
        normalized(old, new, env_name, download_dir, version),
        is_complete(old),
    ensures
        new == (AppConfigView { version, ..old }),
{
}

} // verus!
