use vstd::prelude::*;

use crate::decimal::{count_to_string, decimal};
use crate::descriptor::{ConnectionDescriptor, DescriptorView, SecurityMode, opt_view};
use crate::error::EasyKafkaError;
use crate::json::{
    json_opt_string, json_string, json_string_array, push_json_opt_string, push_json_string,
    push_json_string_array,
};

verus! {

/// The issuer every capability token carries and every decode demands.
pub const TOKEN_ISSUER: &'static str = "EasyKafka";

/// The fixed subject of capability tokens.
pub const TOKEN_SUBJECT: &'static str = "EasyKafka Subject";

/// The symmetric secret that capability tokens are signed with.
pub const TOKEN_SECRET: &'static str = "EASY_KAFKA_SECRET";

/// Seconds from issuance until a capability token expires.
pub const TOKEN_LIFETIME_SECS: u64 = 3600;

/// The per-call timeout given to connections described by a bare address
/// and credentials.
pub const DEFAULT_TIMEOUT_MS: u64 = 5000;

/// The SASL mechanism of connections described by a bare address and
/// credentials.
pub const DEFAULT_SASL_MECHANISM: &'static str = "PLAIN";

/// The claims a capability token carries: a connection descriptor stamped
/// with issuer, subject, issue time and expiry (seconds since the epoch).
#[derive(Debug)]
pub struct Claims {
    pub issuer: String,
    pub subject: String,
    pub expiration: u64,
    pub issued_at: u64,
    pub connection: ConnectionDescriptor,
}

pub ghost struct ClaimsView {
    pub issuer: Seq<char>,
    pub subject: Seq<char>,
    pub expiration: u64,
    pub issued_at: u64,
    pub connection: DescriptorView,
}

impl View for Claims {
    type V = ClaimsView;

    open spec fn view(&self) -> ClaimsView {
        ClaimsView {
            issuer: self.issuer@,
            subject: self.subject@,
            expiration: self.expiration,
            issued_at: self.issued_at,
            connection: self.connection@,
        }
    }
}

/// The claims issued for descriptor `d` at time `now`.
pub open spec fn claims_for(d: DescriptorView, now: u64) -> ClaimsView {
    ClaimsView {
        issuer: TOKEN_ISSUER@,
        subject: TOKEN_SUBJECT@,
        expiration: (now + TOKEN_LIFETIME_SECS) as u64,
        issued_at: now,
        connection: d,
    }
}

/// The descriptor that claims yield at time `now`: present exactly when the
/// issuer is the expected one, the claims have not expired, and the
/// descriptor is well formed.
pub open spec fn accepted(c: ClaimsView, now: u64) -> Option<DescriptorView> {
    if c.issuer == TOKEN_ISSUER@ && now < c.expiration && c.connection.well_formed() {
        Some(c.connection)
    } else {
        None
    }
}

/// The name a security mode goes by in claims.
pub open spec fn mode_name(m: SecurityMode) -> Seq<char> {
    match m {
        SecurityMode::Plaintext => "Plaintext"@,
        SecurityMode::Ssl => "Ssl"@,
        SecurityMode::SaslPlaintext => "SaslPlaintext"@,
        SecurityMode::SaslSsl => "SaslSsl"@,
    }
}

/// The JSON object of a connection descriptor inside claims.
pub open spec fn descriptor_text(d: DescriptorView) -> Seq<char> {
    "{\"bootstrap_servers\":"@ + json_string_array(d.servers) + ",\"security_mode\":"@
        + json_string(mode_name(d.mode)) + ",\"sasl_mechanism\":"@ + json_opt_string(d.mechanism)
        + ",\"username\":"@ + json_opt_string(d.username) + ",\"password\":"@ + json_opt_string(
        d.password,
    ) + ",\"timeout_ms\":"@ + decimal(d.timeout_ms as nat) + "}"@
}

/// The JSON object of claims: the registered `iss`, `sub`, `exp` and `iat`
/// claims, then the connection descriptor.
pub open spec fn claims_text(c: ClaimsView) -> Seq<char> {
    "{\"iss\":"@ + json_string(c.issuer) + ",\"sub\":"@ + json_string(c.subject) + ",\"exp\":"@
        + decimal(c.expiration as nat) + ",\"iat\":"@ + decimal(c.issued_at as nat)
        + ",\"connection\":"@ + descriptor_text(c.connection) + "}"@
}

/// The token that HS256 signing under the library's secret makes of a claims
/// JSON text.
pub uninterp spec fn signed_token(claims_json: Seq<char>) -> Seq<char>;

/// The claims JSON text of a token whose HS256 signature verifies under the
/// library's secret; `None` for any other text.
pub uninterp spec fn verified_claims(token: Seq<char>) -> Option<Seq<char>>;

/// Relies on jsonwebtoken::encode with an HS256 header and the library's
/// secret, which signs the claims text as given (handed over as serde_json's
/// RawValue, which accepts any JSON text). Rendered claims are a JSON object,
/// and HS256 signing with a secret key cannot fail, so a token comes back.
#[verifier::external_body]
fn sign_claims(claims_json: &str) -> (r: Option<String>)
    requires
        exists|c: ClaimsView| claims_json@ == claims_text(c),
    ensures
        r is Some,
        r->Some_0@ == signed_token(claims_json@),
{
    let raw = serde_json::value::RawValue::from_string(claims_json.to_string()).ok()?;
    let header = jsonwebtoken::Header::new(jsonwebtoken::Algorithm::HS256);
    let key = jsonwebtoken::EncodingKey::from_secret(TOKEN_SECRET.as_bytes());
    jsonwebtoken::encode(&header, &raw, &key).ok()
}

/// Relies on jsonwebtoken::decode with HS256 and the library's secret,
/// checking the signature only (no registered claim is required, expiry is
/// not read): the token's claims text when the signature verifies. A token
/// that jsonwebtoken::encode signed over rendered claims verifies, and its
/// payload, read back as serde_json's RawValue, is that text unchanged.
#[verifier::external_body]
fn verify_token(token: &str) -> (r: Option<String>)
    ensures
        opt_view(r) == verified_claims(token@),
        forall|c: ClaimsView|
            token@ == #[trigger] signed_token(claims_text(c)) ==> opt_view(r) == Some(claims_text(c)),
{
    let mut validation = jsonwebtoken::Validation::new(jsonwebtoken::Algorithm::HS256);
    validation.validate_exp = false;
    validation.required_spec_claims.clear();
    let key = jsonwebtoken::DecodingKey::from_secret(TOKEN_SECRET.as_bytes());
    let data = jsonwebtoken::decode::<Box<serde_json::value::RawValue>>(token, &key, &validation);
    data.ok().map(|d| d.claims.get().to_string())
}

fn mode_str(m: SecurityMode) -> (r: &'static str)
    ensures
        r@ == mode_name(m),
{
    match m {
        SecurityMode::Plaintext => "Plaintext",
        SecurityMode::Ssl => "Ssl",
        SecurityMode::SaslPlaintext => "SaslPlaintext",
        SecurityMode::SaslSsl => "SaslSsl",
    }
}

/// The claims text of a capability token that verifies; `InvalidToken` for
/// a bad signature or a malformed token. A token signed over rendered claims
/// gives back exactly their text.
pub fn decode_claims_text(token: &str) -> (r: Result<String, EasyKafkaError>)
    ensures
        match verified_claims(token@) {
            Some(t) => r is Ok && r->Ok_0@ == t,
            None => r == Err::<String, EasyKafkaError>(EasyKafkaError::InvalidToken),
        },
        forall|c: ClaimsView|
            token@ == #[trigger] signed_token(claims_text(c)) ==> r is Ok && r->Ok_0@ == claims_text(c),
{
    match verify_token(token) {
        Some(t) => Ok(t),
        None => Err(EasyKafkaError::InvalidToken),
    }
}

/// A signed capability token for a connection to `url` with the given
/// credentials, issued now and valid for one lifetime.
pub fn create_token(url: &str, username: &str, password: &str) -> (r: Result<String, EasyKafkaError>)
    ensures
        r is Ok,
        match r {
            Ok(t) => exists|c: ClaimsView|
                {
                    &&& t@ == signed_token(claims_text(c))
                    &&& c.issuer == TOKEN_ISSUER@
                    &&& c.subject == TOKEN_SUBJECT@
                    &&& c.expiration == c.issued_at + TOKEN_LIFETIME_SECS
                    &&& c.connection.servers == seq![url@]
                    &&& c.connection.mode == SecurityMode::SaslPlaintext
                    &&& c.connection.mechanism == Some(DEFAULT_SASL_MECHANISM@)
                    &&& c.connection.username == Some(username@)
                    &&& c.connection.password == Some(password@)
                    &&& c.connection.timeout_ms == DEFAULT_TIMEOUT_MS
                },
            Err(e) => e == EasyKafkaError::TokenEncodingFailed,
        },
{
    let claims = Claims::new(url, username, password);
    claims.encode()
}

/// Appends the JSON object of a connection descriptor to `out`.
fn push_descriptor_json(out: &mut String, d: &ConnectionDescriptor)
    ensures
        final(out)@ == old(out)@ + descriptor_text(d@),
{
    let ghost head = out@;
    out.append("{\"bootstrap_servers\":");
    push_json_string_array(out, &d.bootstrap_servers);
    out.append(",\"security_mode\":");
    push_json_string(out, mode_str(d.security_mode));
    out.append(",\"sasl_mechanism\":");
    push_json_opt_string(out, &d.sasl_mechanism);
    out.append(",\"username\":");
    push_json_opt_string(out, &d.username);
    out.append(",\"password\":");
    push_json_opt_string(out, &d.password);
    out.append(",\"timeout_ms\":");
    out.append(count_to_string(d.timeout_ms).as_str());
    out.append("}");
    assert(out@ =~= head + descriptor_text(d@));
}

/// Relies on std::time::SystemTime::now for the current time in whole
/// seconds since the Unix epoch (zero for a clock set before it).
#[verifier::external_body]
fn unix_time_secs() -> (r: u64) {
    std::time::SystemTime::now().duration_since(std::time::UNIX_EPOCH).map(|d| d.as_secs()).unwrap_or(0)
}

impl Claims {
    /// Claims for `connection` issued at `now`, expiring one lifetime later.
    pub fn issue(connection: ConnectionDescriptor, now: u64) -> (r: Claims)
        requires
            now <= u64::MAX - TOKEN_LIFETIME_SECS,
        ensures
            r@ == claims_for(connection@, now),
    {
        Claims {
            issuer: String::from_str(TOKEN_ISSUER),
            subject: String::from_str(TOKEN_SUBJECT),
            expiration: now + TOKEN_LIFETIME_SECS,
            issued_at: now,
            connection,
        }
    }

    /// Claims issued now for a SASL/PLAIN connection to `url` with the given
    /// credentials and the default timeout. A clock so far ahead that the
    /// expiry would not fit is held at the last time whose expiry does.
    pub fn new(url: &str, username: &str, password: &str) -> (r: Claims)
        ensures
            r.issuer@ == TOKEN_ISSUER@,
            r.subject@ == TOKEN_SUBJECT@,
            r.expiration == r.issued_at + TOKEN_LIFETIME_SECS,
            r.connection@.servers == seq![url@],
            r.connection@.mode == SecurityMode::SaslPlaintext,
            r.connection@.mechanism == Some(DEFAULT_SASL_MECHANISM@),
            r.connection@.username == Some(username@),
            r.connection@.password == Some(password@),
            r.connection@.timeout_ms == DEFAULT_TIMEOUT_MS,
            r.connection@.well_formed(),
    {
        let t = unix_time_secs();
        let now = if t > u64::MAX - TOKEN_LIFETIME_SECS {
            u64::MAX - TOKEN_LIFETIME_SECS
        } else {
            t
        };
        let mut servers: Vec<String> = Vec::new();
        servers.push(String::from_str(url));
        let connection = ConnectionDescriptor {
            bootstrap_servers: servers,
            security_mode: SecurityMode::SaslPlaintext,
            sasl_mechanism: Some(String::from_str(DEFAULT_SASL_MECHANISM)),
            username: Some(String::from_str(username)),
            password: Some(String::from_str(password)),
            timeout_ms: DEFAULT_TIMEOUT_MS,
        };
        assert(connection@.servers =~= seq![url@]);
        Claims::issue(connection, now)
    }

    /// The JSON text of these claims.
    pub fn to_json(&self) -> (r: String)
        ensures
            r@ == claims_text(self@),
    {
        let mut out = String::from_str("{\"iss\":");
        push_json_string(&mut out, self.issuer.as_str());
        out.append(",\"sub\":");
        push_json_string(&mut out, self.subject.as_str());
        out.append(",\"exp\":");
        out.append(count_to_string(self.expiration).as_str());
        out.append(",\"iat\":");
        out.append(count_to_string(self.issued_at).as_str());
        out.append(",\"connection\":");
        push_descriptor_json(&mut out, &self.connection);
        out.append("}");
        assert(out@ =~= claims_text(self@));
        out
    }

    /// These claims signed into a capability token.
    pub fn encode(&self) -> (r: Result<String, EasyKafkaError>)
        ensures
            r is Ok,
            r->Ok_0@ == signed_token(claims_text(self@)),
    {
        let text = self.to_json();
        match sign_claims(text.as_str()) {
            Some(t) => Ok(t),
            None => Err(EasyKafkaError::TokenEncodingFailed),
        }
    }

    /// The descriptor these claims carry, if they are acceptable at `now`;
    /// `InvalidToken` otherwise, whatever the reason.
    pub fn validate(self, now: u64) -> (r: Result<ConnectionDescriptor, EasyKafkaError>)
        ensures
            match accepted(self@, now) {
                Some(d) => r is Ok && r->Ok_0@ == d,
                None => r == Err::<ConnectionDescriptor, EasyKafkaError>(EasyKafkaError::InvalidToken),
            },
    {
        let issuer_ok = self.issuer.eq(&String::from_str(TOKEN_ISSUER));
        if issuer_ok && now < self.expiration && self.connection.is_well_formed() {
            Ok(self.connection)
        } else {
            Err(EasyKafkaError::InvalidToken)
        }
    }
}

/// Resolves a capability token whose signature check has already run:
/// `claims` is `None` when the signature or the encoding was bad. Every
/// failure is `InvalidToken`.
pub fn resolve_token(claims: Option<Claims>, now: u64) -> (r: Result<
    ConnectionDescriptor,
    EasyKafkaError,
>)
    ensures
        match claims {
            None => r == Err::<ConnectionDescriptor, EasyKafkaError>(EasyKafkaError::InvalidToken),
            Some(c) => match accepted(c@, now) {
                Some(d) => r is Ok && r->Ok_0@ == d,
                None => r == Err::<ConnectionDescriptor, EasyKafkaError>(EasyKafkaError::InvalidToken),
            },
        },
{
    match claims {
        None => Err(EasyKafkaError::InvalidToken),
        Some(c) => c.validate(now),
    }
}

/// Claims issued for a well-formed descriptor give that descriptor back at any
/// time before they expire.
pub proof fn lemma_claims_round_trip(d: DescriptorView, issued: u64, now: u64)
    requires
        d.well_formed(),
        issued <= u64::MAX - TOKEN_LIFETIME_SECS,
        now < issued + TOKEN_LIFETIME_SECS,
    ensures
        accepted(claims_for(d, issued), now) == Some(d),
{
}

/// Claims are rejected from their expiry on, whatever else they hold.
pub proof fn lemma_expired_rejected(c: ClaimsView, now: u64)
    requires
        now >= c.expiration,
    ensures
        accepted(c, now) is None,
{
}

} // verus!
