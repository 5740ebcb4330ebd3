//! Identifiers for messages, transfers, sessions, events and devices: a short prefix
//! followed by a random UUID in its simple form.
use vstd::prelude::*;

use uuid::Uuid;

verus! {

/// A lowercase hexadecimal digit.
pub open spec fn is_lower_hex(c: char) -> bool {
    let u = c as u32;
    (48 <= u && u <= 57) || (97 <= u && u <= 102)
}

/// A UUID written as 32 lowercase hexadecimal digits.
pub open spec fn is_simple_uuid(s: Seq<char>) -> bool {
    s.len() == 32 && forall|i: int| 0 <= i < 32 ==> is_lower_hex(#[trigger] s[i])
}

/// A random (version-4, RFC 4122 variant) UUID in its simple form: 32 lowercase
/// hexadecimal digits, of which the thirteenth is the version digit `4` and the
/// seventeenth holds the variant bits `10`, so it is one of `8`, `9`, `a`, `b`.
pub open spec fn is_random_uuid(s: Seq<char>) -> bool {
    &&& is_simple_uuid(s)
    &&& s[12] == '4'
    &&& (s[16] == '8' || s[16] == '9' || s[16] == 'a' || s[16] == 'b')
}

/// `prefix` followed by some random simple-form UUID.
pub open spec fn is_prefixed_random_uuid(id: Seq<char>, prefix: Seq<char>) -> bool {
    exists|u: Seq<char>| is_random_uuid(u) && id == prefix + u
}

/// No random UUID is the nil UUID, whose digits are all `0`.
pub proof fn lemma_random_uuid_is_not_nil(u: Seq<char>)
    requires
        is_random_uuid(u),
    ensures
        exists|i: int| 0 <= i < u.len() && u[i] != '0',
{
    assert(u[12] != '0');
}

/// An id made of a prefix and a random UUID is never the prefix followed by the nil
/// UUID, as a fixed all-zero id would be.
pub proof fn lemma_prefixed_random_id_is_not_nil(id: Seq<char>, prefix: Seq<char>)
    requires
        is_prefixed_random_uuid(id, prefix),
    ensures
        id != prefix + Seq::new(32, |i: int| '0'),
{
    let u = choose|u: Seq<char>| is_random_uuid(u) && id == prefix + u;
    if id == prefix + Seq::new(32, |i: int| '0') {
        assert(id[prefix.len() as int + 12] == u[12]);
        assert(id[prefix.len() as int + 12] == '0');
    }
}

/// `prefix` followed by some simple-form UUID.
pub open spec fn is_prefixed_uuid(id: Seq<char>, prefix: Seq<char>) -> bool {
    exists|u: Seq<char>| is_simple_uuid(u) && id == prefix + u
}

/// An id made of a prefix that starts with a non-whitespace character and a UUID is
/// not blank.
pub proof fn lemma_prefixed_id_not_blank(id: Seq<char>, prefix: Seq<char>)
    requires
        is_prefixed_uuid(id, prefix),
        prefix.len() > 0,
        !crate::text::is_whitespace_char(prefix[0]),
    ensures
        !crate::text::is_blank(id),
{
    let u = choose|u: Seq<char>| is_simple_uuid(u) && id == prefix + u;
    assert(id[0] == prefix[0]);
    crate::text::lemma_not_blank_when_first_is_not_ws(id);
}

/// `Uuid::new_v4().simple().to_string()`: a random version-4 UUID, which the crate writes
/// as 32 lowercase hexadecimal digits. `new_v4` masks the random bits so that the version
/// digit is `4` and the variant digit is one of `8`, `9`, `a`, `b`; nothing is claimed of
/// which other digits come out.
#[verifier::external_body]
fn random_simple_uuid() -> (s: String)
    ensures
        is_simple_uuid(s@),
        is_random_uuid(s@),
{
    Uuid::new_v4().simple().to_string()
}

/// `prefix` followed by a fresh random UUID.
pub fn new_prefixed_id(prefix: &str) -> (id: String)
    ensures
        is_prefixed_uuid(id@, prefix@),
        is_prefixed_random_uuid(id@, prefix@),
{
    let u = random_simple_uuid();
    let id = prefix.to_owned().concat(u.as_str());
    proof {
        assert(is_simple_uuid(u@) && id@ == prefix@ + u@);
        assert(is_random_uuid(u@) && id@ == prefix@ + u@);
    }
    id
}

/// A fresh random UUID in its simple form.
pub fn new_uuid_simple() -> (u: String)
    ensures
        is_simple_uuid(u@),
        is_random_uuid(u@),
{
    random_simple_uuid()
}

/// A fresh message id: `msg_` and a UUID.
pub fn new_message_id() -> (id: String)
    ensures
        is_prefixed_uuid(id@, "msg_"@),
        is_prefixed_random_uuid(id@, "msg_"@),
{
    new_prefixed_id("msg_")
}

/// A fresh transfer id: `tr_` and a UUID.
pub fn new_transfer_id() -> (id: String)
    ensures
        is_prefixed_uuid(id@, "tr_"@),
        is_prefixed_random_uuid(id@, "tr_"@),
{
    new_prefixed_id("tr_")
}

/// A fresh WebSocket session id: `wss_` and a UUID.
pub fn new_session_id() -> (id: String)
    ensures
        is_prefixed_uuid(id@, "wss_"@),
        is_prefixed_random_uuid(id@, "wss_"@),
{
    new_prefixed_id("wss_")
}

/// A fresh control-event id: `evt_` and a UUID.
pub fn new_event_id() -> (id: String)
    ensures
        is_prefixed_uuid(id@, "evt_"@),
        is_prefixed_random_uuid(id@, "evt_"@),
{
    new_prefixed_id("evt_")
}

/// A fresh device id: `zd_` and a UUID.
pub fn new_device_id() -> (id: String)
    ensures
        is_prefixed_uuid(id@, "zd_"@),
        is_prefixed_random_uuid(id@, "zd_"@),
{
    new_prefixed_id("zd_")
}

} // verus!
