//! The local database of devices, messages and transfers: where it lives, and how its
//! rows become records.
use vstd::prelude::*;

use crate::device::{Device, DeviceView, DEFAULT_AGENT_PORT};
use crate::transport::TransportPing;

verus! {

broadcast use vstd::string::group_string_axioms;

/// The local store, kept in an SQLite database file.
#[derive(Debug)]
pub struct SqliteStore {
    db_path: String,
}

impl Clone for SqliteStore {
    /// A second handle on the same database file.
    fn clone(&self) -> (s: Self)
        ensures
            s.path_view() == self.path_view(),
    {
        SqliteStore { db_path: self.db_path.clone() }
    }
}

impl SqliteStore {
    /// The text of the database file's path.
    pub closed spec fn path_view(&self) -> Seq<char> {
        self.db_path@
    }

    /// A store kept in the database file at `db_path`.
    pub fn at_path(db_path: String) -> (s: Self)
        ensures
            s.path_view() == db_path@,
    {
        SqliteStore { db_path }
    }

    /// The path of the database file.
    pub fn db_path(&self) -> (p: &str)
        ensures
            p@ == self.path_view(),
    {
        self.db_path.as_str()
    }
}

/// A row of the `devices` table, column by column, as SQLite holds it.
#[derive(Clone, Debug)]
pub struct DeviceRow {
    pub id: String,
    pub name: String,
    pub ip: Option<String>,
    pub port: i64,
    pub public_key: Option<String>,
    pub trusted: i64,
    pub platform: Option<String>,
    pub version: Option<String>,
    pub protocol_version: Option<i64>,
    pub features: Option<String>,
    pub online: i64,
    pub created_at: i64,
    pub last_seen_at: Option<i64>,
    pub last_checked_at: Option<i64>,
    pub last_error: Option<String>,
}

/// What `serde_json::from_str::<Vec<String>>` makes of `raw`, or `None` where it refuses it.
pub uninterp spec fn json_string_list(raw: Seq<char>) -> Option<Seq<Seq<char>>>;

/// `serde_json::from_str::<Vec<String>>(raw)`, with its error dropped. The result is
/// named by `json_string_list`; nothing more is claimed of it.
#[verifier::external_body]
fn parse_json_string_list(raw: &str) -> (r: Option<Vec<String>>)
    ensures
        r.deep_view() == json_string_list(raw@),
{
    serde_json::from_str::<Vec<String>>(raw).ok()
}

/// The lowercase hexadecimal digit of `d`, for `d < 16`.
pub open spec fn hex_digit(d: int) -> char {
    seq!['0', '1', '2', '3', '4', '5', '6', '7', '8', '9', 'a', 'b', 'c', 'd', 'e', 'f'][d]
}

/// A character as it stands inside a JSON string: `"` and `\` behind a backslash, the
/// control characters with a short escape as `\b`, `\t`, `\n`, `\f`, `\r`, the other
/// control characters as `\u00` and two lowercase hex digits, everything else as itself.
pub open spec fn json_escaped_char(c: char) -> Seq<char> {
    let n = c as u32 as int;
    if c == '"' {
        seq!['\\', '"']
    } else if c == '\\' {
        seq!['\\', '\\']
    } else if n == 8 {
        seq!['\\', 'b']
    } else if n == 9 {
        seq!['\\', 't']
    } else if n == 10 {
        seq!['\\', 'n']
    } else if n == 12 {
        seq!['\\', 'f']
    } else if n == 13 {
        seq!['\\', 'r']
    } else if n < 32 {
        seq!['\\', 'u', '0', '0', hex_digit(n / 16), hex_digit(n % 16)]
    } else {
        seq![c]
    }
}

/// The characters of `s`, each as it stands inside a JSON string.
pub open spec fn json_escaped(s: Seq<char>) -> Seq<char>
    decreases s.len(),
{
    if s.len() == 0 {
        Seq::empty()
    } else {
        json_escaped(s.drop_last()) + json_escaped_char(s.last())
    }
}

/// The elements of a JSON list of strings, each quoted and escaped, split by `,`.
pub open spec fn json_string_items(items: Seq<Seq<char>>) -> Seq<char>
    decreases items.len(),
{
    if items.len() == 0 {
        Seq::empty()
    } else if items.len() == 1 {
        seq!['"'] + json_escaped(items[0]) + seq!['"']
    } else {
        json_string_items(items.drop_last()) + seq![','] + seq!['"'] + json_escaped(items.last())
            + seq!['"']
    }
}

/// The compact JSON text of a list of strings: `[`, the items, `]`, with no spaces.
pub open spec fn string_list_json(items: Seq<Seq<char>>) -> Seq<char> {
    seq!['['] + json_string_items(items) + seq![']']
}

/// `serde_json::to_string(items)`, with the error rendered as text. It fails only where
/// a `Serialize` impl fails or a map has keys that are not strings, neither of which a
/// list of strings has, so it succeeds. The text is the compact form that
/// `string_list_json` spells out: each string quoted, with `"`, `\` and the control
/// characters escaped as serde_json escapes them, split by `,` and bracketed.
#[verifier::external_body]
fn write_json_string_list(items: &Vec<String>) -> (r: Result<String, String>)
    ensures
        r is Ok,
        r matches Ok(s) ==> s@ == string_list_json(items.deep_view()),
{
    match serde_json::to_string(items) {
        Ok(s) => Ok(s),
        Err(e) => Err(e.to_string()),
    }
}

/// The features stored in the `features` column: the JSON list it holds, or none where
/// the column is empty or does not hold a list of strings.
pub fn features_from_column(raw: Option<String>) -> (v: Vec<String>)
    ensures
        v.deep_view() == match raw {
            Some(r) => match json_string_list(r@) {
                Some(list) => list,
                None => Seq::<Seq<char>>::empty(),
            },
            None => Seq::<Seq<char>>::empty(),
        },
{
    match raw {
        Some(r) => match parse_json_string_list(r.as_str()) {
            Some(list) => list,
            None => {
                let v: Vec<String> = Vec::new();
                proof {
                    assert(v.deep_view() =~= Seq::<Seq<char>>::empty());
                }
                v
            },
        },
        None => {
            let v: Vec<String> = Vec::new();
            proof {
                assert(v.deep_view() =~= Seq::<Seq<char>>::empty());
            }
            v
        },
    }
}

/// The text stored in the `features` column for a ping's features: the JSON list of
/// them. (A serialisation error would be reported with the prefix
/// `serialize device features failed: `; a list of strings gives none.)
pub fn features_column(ping: &TransportPing) -> (r: Result<String, String>)
    ensures
        r matches Ok(s) && s@ == string_list_json(ping.features.deep_view()),
{
    match write_json_string_list(&ping.features) {
        Ok(s) => Ok(s),
        Err(e) => Err("serialize device features failed: ".to_owned().concat(e.as_str())),
    }
}

/// A stored port: the column's value where it is a valid port, else 8765.
pub open spec fn port_of_column(port: i64) -> u16 {
    if 0 <= port <= u16::MAX {
        port as u16
    } else {
        DEFAULT_AGENT_PORT
    }
}

/// `u16::try_from(port).unwrap_or(8765)`.
pub fn port_from_column(port: i64) -> (p: u16)
    ensures
        p == port_of_column(port),
{
    if 0 <= port && port <= u16::MAX as i64 {
        port as u16
    } else {
        DEFAULT_AGENT_PORT
    }
}

/// The device a row of the `devices` table describes: a missing address reads as empty,
/// flags are set where non-zero, and the port and features as above.
pub fn device_from_row(row: DeviceRow) -> (d: Device)
    ensures
        d@ == (DeviceView {
            id: row.id@,
            name: row.name@,
            ip: match row.ip {
                Some(ip) => ip@,
                None => Seq::<char>::empty(),
            },
            port: port_of_column(row.port),
            public_key: row.public_key.deep_view(),
            trusted: row.trusted != 0,
            platform: row.platform.deep_view(),
            version: row.version.deep_view(),
            protocol_version: row.protocol_version,
            features: match row.features {
                Some(r) => match json_string_list(r@) {
                    Some(list) => list,
                    None => Seq::<Seq<char>>::empty(),
                },
                None => Seq::<Seq<char>>::empty(),
            },
            online: row.online != 0,
            created_at: row.created_at,
            last_seen_at: row.last_seen_at,
            last_checked_at: row.last_checked_at,
            last_error: row.last_error.deep_view(),
        }),
{
    let ip = match row.ip {
        Some(ip) => ip,
        None => String::new(),
    };
    Device {
        id: row.id,
        name: row.name,
        ip,
        port: port_from_column(row.port),
        public_key: row.public_key,
        trusted: row.trusted != 0,
        platform: row.platform,
        version: row.version,
        protocol_version: row.protocol_version,
        features: features_from_column(row.features),
        online: row.online != 0,
        created_at: row.created_at,
        last_seen_at: row.last_seen_at,
        last_checked_at: row.last_checked_at,
        last_error: row.last_error,
    }
}


} // verus!
