use vstd::prelude::*;

use crate::decimal::{count_to_string, decimal};
use crate::descriptor::{ConnectionDescriptor, DescriptorView, SecurityMode, opt_view};
use crate::error::EasyKafkaError;
use crate::response::{CommonResponse, CODE_ERROR, CODE_SUCCESS, SUCCESS_MESSAGE};

verus! {

#[verifier::external_type_specification]
#[verifier::external_body]
pub struct ExClientConfig(rdkafka::ClientConfig);

/// The properties a client configuration holds, by name.
pub uninterp spec fn config_entries(c: rdkafka::ClientConfig) -> Map<Seq<char>, Seq<char>>;

/// Relies on rdkafka's ClientConfig::new: a configuration with no properties.
#[verifier::external_body]
fn empty_client_config() -> (r: rdkafka::ClientConfig)
    ensures
        config_entries(r) == entries_of(Seq::empty()),
{
    rdkafka::ClientConfig::new()
}

/// Relies on rdkafka's ClientConfig::set: it inserts the property into the
/// configuration's map, replacing an earlier value of the same name.
#[verifier::external_body]
fn set_client_property(c: &mut rdkafka::ClientConfig, name: &str, value: &str)
    ensures
        config_entries(*final(c)) == config_entries(*old(c)).insert(name@, value@),
{
    c.set(name, value);
}

pub const BOOTSTRAP_SERVERS: &'static str = "bootstrap.servers";
pub const SECURITY_PROTOCOL: &'static str = "security.protocol";
pub const SASL_MECHANISM: &'static str = "sasl.mechanism";
pub const SASL_USERNAME: &'static str = "sasl.username";
pub const SASL_PASSWORD: &'static str = "sasl.password";
pub const SOCKET_TIMEOUT_MS: &'static str = "socket.timeout.ms";
pub const SERVER_SEPARATOR: &'static str = ",";

pub const PROTOCOL_PLAINTEXT: &'static str = "PLAINTEXT";
pub const PROTOCOL_SSL: &'static str = "SSL";
pub const PROTOCOL_SASL_PLAINTEXT: &'static str = "SASL_PLAINTEXT";
pub const PROTOCOL_SASL_SSL: &'static str = "SASL_SSL";

/// The message of a connectivity check that reached the cluster, before the
/// broker count.
pub const CONNECTED_MESSAGE: &'static str = "连接成功，broker数量: ";

/// The message of a connectivity check that could not reach the cluster.
pub const CONNECT_FAILED_MESSAGE: &'static str = "Kafka连接失败";

/// The message of a request without a connection identifier.
pub const MISSING_ID_MESSAGE: &'static str = "token不能为空";

/// The client library's name for a security mode.
pub open spec fn protocol_name(m: SecurityMode) -> Seq<char> {
    match m {
        SecurityMode::Plaintext => PROTOCOL_PLAINTEXT@,
        SecurityMode::Ssl => PROTOCOL_SSL@,
        SecurityMode::SaslPlaintext => PROTOCOL_SASL_PLAINTEXT@,
        SecurityMode::SaslSsl => PROTOCOL_SASL_SSL@,
    }
}

/// Broker addresses joined by commas.
pub open spec fn join_servers(s: Seq<Seq<char>>) -> Seq<char>
    decreases s.len(),
{
    if s.len() == 0 {
        Seq::empty()
    } else if s.len() == 1 {
        s[0]
    } else {
        join_servers(s.drop_last()) + SERVER_SEPARATOR@ + s.last()
    }
}

pub open spec fn optional_setting(name: Seq<char>, value: Option<Seq<char>>) -> Seq<
    (Seq<char>, Seq<char>),
> {
    match value {
        Some(v) => seq![(name, v)],
        None => Seq::empty(),
    }
}

/// The client properties a descriptor stands for, in order: brokers,
/// security protocol, the SASL settings it has, and the socket timeout.
pub open spec fn settings_spec(d: DescriptorView) -> Seq<(Seq<char>, Seq<char>)> {
    seq![(BOOTSTRAP_SERVERS@, join_servers(d.servers)), (SECURITY_PROTOCOL@, protocol_name(d.mode))]
        + optional_setting(SASL_MECHANISM@, d.mechanism) + optional_setting(SASL_USERNAME@, d.username)
        + optional_setting(SASL_PASSWORD@, d.password) + seq![
        (SOCKET_TIMEOUT_MS@, decimal(d.timeout_ms as nat)),
    ]
}

pub open spec fn settings_view(v: Seq<(String, String)>) -> Seq<(Seq<char>, Seq<char>)> {
    v.map_values(|p: (String, String)| (p.0@, p.1@))
}

fn protocol_str(m: SecurityMode) -> (r: &'static str)
    ensures
        r@ == protocol_name(m),
{
    match m {
        SecurityMode::Plaintext => PROTOCOL_PLAINTEXT,
        SecurityMode::Ssl => PROTOCOL_SSL,
        SecurityMode::SaslPlaintext => PROTOCOL_SASL_PLAINTEXT,
        SecurityMode::SaslSsl => PROTOCOL_SASL_SSL,
    }
}

fn joined_servers(servers: &Vec<String>) -> (r: String)
    ensures
        r@ == join_servers(servers@.map_values(|s: String| s@)),
{
    let ghost sv = servers@.map_values(|s: String| s@);
    if servers.len() == 0 {
        return String::new();
    }
    let mut r = servers[0].clone();
    assert(sv.take(1) =~= seq![sv[0]]);
    let mut i: usize = 1;
    while i < servers.len()
        invariant
            1 <= i <= servers.len(),
            sv == servers@.map_values(|s: String| s@),
            r@ == join_servers(sv.take(i as int)),
        decreases servers.len() - i,
    {
        r.append(SERVER_SEPARATOR);
        r.append(servers[i].as_str());
        assert(sv.take(i as int + 1).drop_last() =~= sv.take(i as int));
        i += 1;
    }
    assert(sv.take(servers.len() as int) =~= sv);
    r
}

fn push_optional(v: &mut Vec<(String, String)>, name: &str, value: &Option<String>)
    ensures
        settings_view(final(v)@) == settings_view(old(v)@) + optional_setting(name@, opt_view(*value)),
{
    let ghost before = settings_view(v@);
    match value {
        Some(s) => {
            v.push((String::from_str(name), s.clone()));
            assert(settings_view(v@) =~= before + optional_setting(name@, opt_view(*value)));
        },
        None => {
            assert(settings_view(v@) =~= before + optional_setting(name@, opt_view(*value)));
        },
    }
}

/// The client properties for an administrative session to the cluster a
/// descriptor names, as name/value pairs.
pub fn client_settings(d: &ConnectionDescriptor) -> (r: Vec<(String, String)>)
    ensures
        settings_view(r@) == settings_spec(d@),
{
    let mut v: Vec<(String, String)> = Vec::new();
    v.push((String::from_str(BOOTSTRAP_SERVERS), joined_servers(&d.bootstrap_servers)));
    v.push((String::from_str(SECURITY_PROTOCOL), String::from_str(protocol_str(d.security_mode))));
    let ghost head = settings_view(v@);
    assert(head =~= seq![
        (BOOTSTRAP_SERVERS@, join_servers(d@.servers)),
        (SECURITY_PROTOCOL@, protocol_name(d@.mode)),
    ]);
    push_optional(&mut v, SASL_MECHANISM, &d.sasl_mechanism);
    push_optional(&mut v, SASL_USERNAME, &d.username);
    push_optional(&mut v, SASL_PASSWORD, &d.password);
    let ghost mid = settings_view(v@);
    v.push((String::from_str(SOCKET_TIMEOUT_MS), count_to_string(d.timeout_ms)));
    assert(settings_view(v@) =~= mid + seq![(SOCKET_TIMEOUT_MS@, decimal(d.timeout_ms as nat))]);
    assert(settings_view(v@) =~= settings_spec(d@));
    v
}

/// The map that name/value pairs make when set in order.
pub open spec fn entries_of(s: Seq<(Seq<char>, Seq<char>)>) -> Map<Seq<char>, Seq<char>>
    decreases s.len(),
{
    if s.len() == 0 {
        Map::empty()
    } else {
        entries_of(s.drop_last()).insert(s.last().0, s.last().1)
    }
}

/// The client configuration for an administrative session to the cluster a
/// descriptor names.
pub fn admin_client_config(d: &ConnectionDescriptor) -> (r: rdkafka::ClientConfig)
    ensures
        config_entries(r) == entries_of(settings_spec(d@)),
{
    let settings = client_settings(d);
    let ghost sv = settings_view(settings@);
    let mut c = empty_client_config();
    let mut i: usize = 0;
    while i < settings.len()
        invariant
            i <= settings.len(),
            sv == settings_view(settings@),
            sv == settings_spec(d@),
            config_entries(c) == entries_of(sv.take(i as int)),
        decreases settings.len() - i,
    {
        let (name, value) = (&settings[i].0, &settings[i].1);
        set_client_property(&mut c, name.as_str(), value.as_str());
        assert(sv.take(i as int + 1).drop_last() =~= sv.take(i as int));
        i += 1;
    }
    assert(sv.take(settings.len() as int) =~= sv);
    c
}

/// The response to a connectivity check: success with the broker count when
/// the metadata read returned `Some(broker_count)`, failure when it failed.
pub fn connectivity_response(broker_count: Option<usize>) -> (r: CommonResponse<String>)
    ensures
        match broker_count {
            Some(n) => r.code == CODE_SUCCESS && r.msg@ == SUCCESS_MESSAGE@ && r.data is Some
                && r.data->Some_0@ == CONNECTED_MESSAGE@ + decimal(n as nat),
            None => r.code == CODE_ERROR && r.msg@ == CONNECT_FAILED_MESSAGE@ && r.data is None,
        },
{
    match broker_count {
        Some(n) => {
            let mut m = String::from_str(CONNECTED_MESSAGE);
            let digits = count_to_string(n as u64);
            m.append(digits.as_str());
            CommonResponse::success(m)
        },
        None => CommonResponse::error(String::from_str(CONNECT_FAILED_MESSAGE)),
    }
}

/// The failure response to a request whose connection identifier is empty;
/// `None` when the identifier is present.
pub fn missing_id_response(id: &str) -> (r: Option<CommonResponse<String>>)
    ensures
        match r {
            Some(resp) => id@.len() == 0 && resp.code == CODE_ERROR && resp.msg@
                == MISSING_ID_MESSAGE@ && resp.data is None,
            None => id@.len() > 0,
        },
{
    if id.unicode_len() == 0 {
        Some(CommonResponse::error(String::from_str(MISSING_ID_MESSAGE)))
    } else {
        None
    }
}

/// Resolves a stored profile: `found` is what the profile store returned for
/// `id`. A miss is `ConnectionNotFound(id)`; a stored descriptor that is not
/// well formed is `InvalidDescriptor`.
pub fn resolve_profile(id: &str, found: Option<ConnectionDescriptor>) -> (r: Result<
    ConnectionDescriptor,
    EasyKafkaError,
>)
    ensures
        match found {
            None => r is Err && r->Err_0 is ConnectionNotFound && r->Err_0->ConnectionNotFound_0@
                == id@,
            Some(d) => if d@.well_formed() {
                r is Ok && r->Ok_0@ == d@
            } else {
                r == Err::<ConnectionDescriptor, EasyKafkaError>(EasyKafkaError::InvalidDescriptor)
            },
        },
{
    match found {
        None => Err(EasyKafkaError::ConnectionNotFound(String::from_str(id))),
        Some(d) => if d.is_well_formed() {
            Ok(d)
        } else {
            Err(EasyKafkaError::InvalidDescriptor)
        },
    }
}

} // verus!
