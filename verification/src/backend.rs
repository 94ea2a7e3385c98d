//! The backend: where it is, and the messages it is sent.

use vstd::prelude::*;

use crate::json::{object_text, with_member, JsonObject, Scalar};
use crate::text::{chars_of, has_prefix, padded_decimal, push_chars, push_padded, strip_prefix, text_of};

verus! {

/// The backend that the agent talks to where no other is configured.
pub const DEFAULT_API_URL: &'static str = "https://gbos-backend-production.up.railway.app";

/// `text` without the slashes at its end.
pub open spec fn without_slashes(text: Seq<char>) -> Seq<char>
    decreases text.len(),
{
    if text.len() > 0 && text.last() == '/' {
        without_slashes(text.drop_last())
    } else {
        text
    }
}

/// The backend's URL: the configured one or the default, without trailing slashes.
pub open spec fn api_url(configured: Option<Seq<char>>) -> Seq<char> {
    without_slashes(
        match configured {
            Some(url) => url,
            None => DEFAULT_API_URL@,
        },
    )
}

/// Backend the agent talks to, overridable per install.
///
/// Also baked into the macOS launchd plist and read from the service
/// environment on Windows, because a service starts with a near-empty
/// environment and cannot inherit this from an interactive shell.
pub fn gbos_api_url(configured: Option<String>) -> (url: String)
    ensures
        url@ == api_url(crate::text::text_view(configured)),
{
    let text = match configured {
        Some(url) => url,
        None => DEFAULT_API_URL.to_owned(),
    };
    let chars = chars_of(text.as_str());
    let mut end: usize = chars.len();
    assert(chars@.take(end as int) =~= text@);
    while end > 0 && chars[end - 1] == '/'
        invariant
            end <= chars@.len(),
            without_slashes(chars@.take(end as int)) == without_slashes(text@),
        decreases end,
    {
        assert(chars@.take(end as int).drop_last() =~= chars@.take(end - 1));
        end = end - 1;
    }
    assert(chars@.subrange(0, end as int) =~= chars@.take(end as int));
    text_of(vstd::slice::slice_subrange(chars.as_slice(), 0, end))
}

/// The WebSocket URL that goes with an API URL.
pub open spec fn ws_url(api_url: Seq<char>) -> Seq<char> {
    if has_prefix(api_url, "https://"@) {
        "wss://"@ + api_url.skip("https://"@.len() as int)
    } else if has_prefix(api_url, "http://"@) {
        "ws://"@ + api_url.skip("http://"@.len() as int)
    } else {
        "ws://"@ + api_url
    }
}

/// The WebSocket side of the backend at `api_url`.
pub fn gbos_ws_url(api_url: &str) -> (url: String)
    ensures
        url@ == ws_url(api_url@),
{
    let chars = chars_of(api_url);
    if let Some(rest) = strip_prefix(chars.as_slice(), "https://") {
        let mut url = "wss://".to_owned();
        push_chars(&mut url, rest);
        url
    } else if let Some(rest) = strip_prefix(chars.as_slice(), "http://") {
        let mut url = "ws://".to_owned();
        push_chars(&mut url, rest);
        url
    } else {
        let mut url = "ws://".to_owned();
        url.append(api_url);
        url
    }
}

/// Where a device talks to the backend.
pub open spec fn device_socket(api_url: Seq<char>, device_id: int) -> Seq<char> {
    ws_url(api_url) + "/ws/devices/"@ + padded_decimal(device_id, 1)
}

/// Where the device with this id connects.
pub fn device_url(api_url: &str, device_id: i32) -> (url: String)
    ensures
        url@ == device_socket(api_url@, device_id as int),
        url@ == ws_url(api_url@) + "/ws/devices/"@ + padded_decimal(device_id as int, 1),
{
    let mut url = gbos_ws_url(api_url);
    url.append("/ws/devices/");
    push_padded(&mut url, device_id as i64, 1);
    url
}

/// Where the agent registers.
pub fn register_url(api_url: &str) -> (url: String)
    ensures
        url@ == api_url@ + "/agents/register"@,
{
    let mut url = api_url.to_owned();
    url.append("/agents/register");
    url
}

// ---------------------------------------------------------------------------
// Registration
// ---------------------------------------------------------------------------

/// What the agent tells the backend of this machine.
pub struct Registration {
    pub hostname: String,
    pub operating_system: String,
}

/// The host's name where the machine has one.
pub open spec fn hostname_or_unknown(hostname: Option<Seq<char>>) -> Seq<char> {
    match hostname {
        Some(name) => name,
        None => "GBOS-UNKNOWN"@,
    }
}

/// The members of the registration message.
pub open spec fn registration_members(hostname: Seq<char>, operating_system: Seq<char>) -> Seq<
    (Seq<char>, Scalar),
> {
    seq![
        ("device_name"@, Scalar::Text(hostname)),
        ("hostname"@, Scalar::Text(hostname)),
        ("ip_address"@, Scalar::Null),
        ("operating_system"@, Scalar::Text(operating_system)),
    ]
}

impl Registration {
    /// What is known of the machine, with stand-ins for what is not.
    pub fn new(
        hostname: Option<String>,
        os_version: Option<String>,
        os_name: &str,
    ) -> (registration: Registration)
        ensures
            registration.hostname@ == hostname_or_unknown(crate::text::text_view(hostname)),
            registration.operating_system@ == match os_version {
                Some(version) => version@,
                None => os_name@,
            },
    {
        Registration {
            hostname: match hostname {
                Some(name) => name,
                None => "GBOS-UNKNOWN".to_owned(),
            },
            operating_system: match os_version {
                Some(version) => version,
                None => os_name.to_owned(),
            },
        }
    }

    /// The registration message.
    pub fn to_json(&self) -> (text: String)
        ensures
            text@ == object_text(registration_members(self.hostname@, self.operating_system@)),
    {
        let object = JsonObject::new();
        let object = object.put_text("device_name", self.hostname.as_str());
        let object = object.put_text("hostname", self.hostname.as_str());
        let object = object.put_text("operating_system", self.operating_system.as_str());
        let object = object.put_null("ip_address");
        proof {
            reveal_strlit("device_name");
            reveal_strlit("hostname");
            reveal_strlit("ip_address");
            reveal_strlit("operating_system");
            reveal_with_fuel(with_member, 4);
            assert(object.members() =~= registration_members(
                self.hostname@,
                self.operating_system@,
            ));
        }
        object.print()
    }
}

/// Why a registration that the backend answered was refused.
pub fn registration_refused(status: &str, body: &str) -> (text: String)
    ensures
        text@ == "Agent registration failed: "@ + status@ + " - "@ + body@,
{
    let mut text = "Agent registration failed: ".to_owned();
    text.append(status);
    text.append(" - ");
    text.append(body);
    text
}

// ---------------------------------------------------------------------------
// Messages
// ---------------------------------------------------------------------------

/// The members of the heartbeat message.
pub open spec fn heartbeat_members() -> Seq<(Seq<char>, Scalar)> {
    seq![("type"@, Scalar::Text("heartbeat"@))]
}

/// The heartbeat message.
pub fn heartbeat_json() -> (text: String)
    ensures
        text@ == object_text(heartbeat_members()),
{
    let object = JsonObject::new();
    let object = object.put_text("type", "heartbeat");
    assert(object.members() =~= heartbeat_members());
    object.print()
}

/// The members of a session message: `username` logged in or out.
pub open spec fn session_members(login: bool, username: Seq<char>) -> Seq<(Seq<char>, Scalar)> {
    seq![
        ("event"@, Scalar::Text(if login { "login"@ } else { "logout"@ })),
        ("type"@, Scalar::Text("session"@)),
        ("username"@, Scalar::Text(username)),
    ]
}

/// The message that `username` logged in or out.
pub fn session_json(login: bool, username: &str) -> (text: String)
    ensures
        text@ == object_text(session_members(login, username@)),
{
    let object = JsonObject::new();
    let object = object.put_text("type", "session");
    let object = object.put_text("event", if login { "login" } else { "logout" });
    let object = object.put_text("username", username);
    proof {
        reveal_strlit("event");
        reveal_strlit("type");
        reveal_strlit("username");
        reveal_with_fuel(with_member, 3);
        assert(object.members() =~= session_members(login, username@));
    }
    object.print()
}

/// Only the slashes at the end go, and all of them do.
pub proof fn trailing_slashes_go(url: Seq<char>, slashes: Seq<char>)
    requires
        url.len() > 0 ==> url.last() != '/',
        forall|i: int| 0 <= i < slashes.len() ==> #[trigger] slashes[i] == '/',
    ensures
        without_slashes(url + slashes) == url,
        api_url(Some(url + slashes)) == url,
    decreases slashes.len(),
{
    let text = url + slashes;
    if slashes.len() == 0 {
        assert(text =~= url);
    } else {
        assert(text.last() == slashes[slashes.len() - 1]);
        assert(text.drop_last() =~= url + slashes.drop_last());
        trailing_slashes_go(url, slashes.drop_last());
    }
}

/// The agent talks to the default backend where none is configured.
pub proof fn the_default_backend_stands_in()
    ensures
        api_url(None) == api_url(Some("https://gbos-backend-production.up.railway.app"@)),
{
}

/// The socket is at the same place as the API: secure where the API is, and otherwise not.
pub proof fn the_socket_is_where_the_api_is(rest: Seq<char>, other: Seq<char>)
    ensures
        ws_url("https://"@ + rest) == "wss://"@ + rest,
        ws_url("http://"@ + rest) == "ws://"@ + rest,
        !has_prefix(other, "https://"@) && !has_prefix(other, "http://"@) ==> ws_url(other)
            == "ws://"@ + other,
{
    reveal_strlit("https://");
    reveal_strlit("http://");
    crate::text::prefixes_stand_ahead("https://"@, rest, rest);
    crate::text::prefixes_stand_ahead("http://"@, rest, rest);
    let plain = "http://"@ + rest;
    assert(plain[4] == ':');
    if has_prefix(plain, "https://"@) {
        assert(plain.take(8)[4] == "https://"@[4]);
    }
}

/// A registration states the host twice, the operating system and no address.
pub proof fn registrations_name_the_device(hostname: Seq<char>, operating_system: Seq<char>)
    ensures
        ({
            let members = registration_members(hostname, operating_system);
            &&& members.len() == 4
            &&& members.contains(("device_name"@, Scalar::Text(hostname)))
            &&& members.contains(("hostname"@, Scalar::Text(hostname)))
            &&& members.contains(("ip_address"@, Scalar::Null))
            &&& members.contains(("operating_system"@, Scalar::Text(operating_system)))
        }),
{
    let members = registration_members(hostname, operating_system);
    assert(members[0] == ("device_name"@, Scalar::Text(hostname)));
    assert(members[1] == ("hostname"@, Scalar::Text(hostname)));
    assert(members[2] == ("ip_address"@, Scalar::Null));
    assert(members[3] == ("operating_system"@, Scalar::Text(operating_system)));
}

/// A host that has a name goes by it.
pub proof fn named_hosts_keep_their_name(name: Seq<char>)
    ensures
        hostname_or_unknown(Some(name)) == name,
        hostname_or_unknown(None) == "GBOS-UNKNOWN"@,
{
}

/// A session message states whether its user came or went, and a heartbeat states nothing
/// but its type.
pub proof fn messages_state_their_type(login: bool, username: Seq<char>)
    ensures
        ({
            let members = session_members(login, username);
            &&& members.len() == 3
            &&& members.contains(("type"@, Scalar::Text("session"@)))
            &&& members.contains(("username"@, Scalar::Text(username)))
            &&& login ==> members.contains(("event"@, Scalar::Text("login"@)))
            &&& !login ==> members.contains(("event"@, Scalar::Text("logout"@)))
        }),
        heartbeat_members().len() == 1,
        heartbeat_members().contains(("type"@, Scalar::Text("heartbeat"@))),
{
    let members = session_members(login, username);
    assert(members[0].0 == "event"@);
    assert(members[1] == ("type"@, Scalar::Text("session"@)));
    assert(members[2] == ("username"@, Scalar::Text(username)));
    assert(heartbeat_members()[0] == ("type"@, Scalar::Text("heartbeat"@)));
}

/// A device has its own socket: its number stands at the end, behind the socket of the
/// backend and the path of the devices.
pub proof fn devices_have_their_own_sockets(api_url: Seq<char>, device_id: nat)
    ensures
        ({
            let socket = device_socket(api_url, device_id as int);
            let ahead = ws_url(api_url) + "/ws/devices/"@;
            &&& socket.len() > ahead.len()
            &&& socket.take(ahead.len() as int) == ahead
            &&& crate::text::decimal_value(socket.skip(ahead.len() as int)) == device_id
        }),
{
    let socket = device_socket(api_url, device_id as int);
    let ahead = ws_url(api_url) + "/ws/devices/"@;
    crate::text::padded_decimals_read_back(device_id as int, 1);
    assert(socket.take(ahead.len() as int) =~= ahead);
    assert(socket.skip(ahead.len() as int) =~= padded_decimal(device_id as int, 1));
}

} // verus!
