use vstd::prelude::*;

use crate::error::EasyKafkaError;

verus! {

/// How the client authenticates and encrypts its broker connections.
#[derive(Debug, Clone, Copy, PartialEq, Eq, Structural)]
pub enum SecurityMode {
    Plaintext,
    Ssl,
    SaslPlaintext,
    SaslSsl,
}

impl SecurityMode {
    pub open spec fn uses_sasl_spec(self) -> bool {
        self is SaslPlaintext || self is SaslSsl
    }

    /// Whether this mode authenticates with SASL credentials.
    pub fn uses_sasl(&self) -> (r: bool)
        ensures
            r == self.uses_sasl_spec(),
    {
        match self {
            SecurityMode::SaslPlaintext | SecurityMode::SaslSsl => true,
            _ => false,
        }
    }
}

pub open spec fn opt_view(o: Option<String>) -> Option<Seq<char>> {
    match o {
        Some(s) => Some(s@),
        None => None,
    }
}

/// The mathematical content of a connection descriptor.
pub ghost struct DescriptorView {
    pub servers: Seq<Seq<char>>,
    pub mode: SecurityMode,
    pub mechanism: Option<Seq<char>>,
    pub username: Option<Seq<char>>,
    pub password: Option<Seq<char>>,
    pub timeout_ms: u64,
}

/// The pooling identity of a descriptor: everything but its timeout.
pub ghost struct KeyView {
    pub servers: Seq<Seq<char>>,
    pub mode: SecurityMode,
    pub mechanism: Option<Seq<char>>,
    pub username: Option<Seq<char>>,
    pub password: Option<Seq<char>>,
}

impl DescriptorView {
    pub open spec fn well_formed(self) -> bool {
        &&& self.servers.len() > 0
        &&& self.timeout_ms > 0
        &&& self.mode.uses_sasl_spec() ==> {
            &&& self.mechanism is Some
            &&& self.username is Some
            &&& self.password is Some
        }
    }

    pub open spec fn key(self) -> KeyView {
        KeyView {
            servers: self.servers,
            mode: self.mode,
            mechanism: self.mechanism,
            username: self.username,
            password: self.password,
        }
    }
}

/// Broker addresses, credentials, security mode and per-call timeout of one
/// cluster connection.
#[derive(Debug, Clone)]
pub struct ConnectionDescriptor {
    pub bootstrap_servers: Vec<String>,
    pub security_mode: SecurityMode,
    pub sasl_mechanism: Option<String>,
    pub username: Option<String>,
    pub password: Option<String>,
    pub timeout_ms: u64,
}

impl View for ConnectionDescriptor {
    type V = DescriptorView;

    open spec fn view(&self) -> DescriptorView {
        DescriptorView {
            servers: self.bootstrap_servers@.map_values(|s: String| s@),
            mode: self.security_mode,
            mechanism: opt_view(self.sasl_mechanism),
            username: opt_view(self.username),
            password: opt_view(self.password),
            timeout_ms: self.timeout_ms,
        }
    }
}

/// The pooling identity of a connection: brokers and security parameters.
#[derive(Debug)]
pub struct ConnectionKey {
    pub bootstrap_servers: Vec<String>,
    pub security_mode: SecurityMode,
    pub sasl_mechanism: Option<String>,
    pub username: Option<String>,
    pub password: Option<String>,
}

impl View for ConnectionKey {
    type V = KeyView;

    open spec fn view(&self) -> KeyView {
        KeyView {
            servers: self.bootstrap_servers@.map_values(|s: String| s@),
            mode: self.security_mode,
            mechanism: opt_view(self.sasl_mechanism),
            username: opt_view(self.username),
            password: opt_view(self.password),
        }
    }
}

fn clone_opt(o: &Option<String>) -> (r: Option<String>)
    ensures
        opt_view(r) == opt_view(*o),
{
    match o {
        Some(s) => Some(s.clone()),
        None => None,
    }
}

fn same_opt(a: &Option<String>, b: &Option<String>) -> (r: bool)
    ensures
        r == (opt_view(*a) == opt_view(*b)),
{
    match (a, b) {
        (Some(x), Some(y)) => x.eq(y),
        (None, None) => true,
        _ => false,
    }
}

fn clone_servers(v: &Vec<String>) -> (r: Vec<String>)
    ensures
        r@.map_values(|s: String| s@) == v@.map_values(|s: String| s@),
{
    let mut r: Vec<String> = Vec::new();
    let mut i: usize = 0;
    while i < v.len()
        invariant
            i <= v.len(),
            r.len() == i,
            forall|j: int| 0 <= j < i ==> r@[j]@ == v@[j]@,
        decreases v.len() - i,
    {
        r.push(v[i].clone());
        i += 1;
    }
    assert(r@.map_values(|s: String| s@) =~= v@.map_values(|s: String| s@));
    r
}

fn same_servers(a: &Vec<String>, b: &Vec<String>) -> (r: bool)
    ensures
        r == (a@.map_values(|s: String| s@) == b@.map_values(|s: String| s@)),
{
    let ghost av = a@.map_values(|s: String| s@);
    let ghost bv = b@.map_values(|s: String| s@);
    if a.len() != b.len() {
        assert(av.len() != bv.len());
        return false;
    }
    let mut i: usize = 0;
    while i < a.len()
        invariant
            i <= a.len(),
            a.len() == b.len(),
            av == a@.map_values(|s: String| s@),
            bv == b@.map_values(|s: String| s@),
            forall|j: int| 0 <= j < i ==> av[j] == bv[j],
        decreases a.len() - i,
    {
        if a[i] != b[i] {
            assert(av[i as int] != bv[i as int]);
            return false;
        }
        i += 1;
    }
    assert(av =~= bv);
    true
}

impl ConnectionKey {
    /// Whether two keys denote the same connection identity.
    pub fn same_as(&self, other: &ConnectionKey) -> (r: bool)
        ensures
            r == (self@ == other@),
    {
        same_servers(&self.bootstrap_servers, &other.bootstrap_servers)
            && self.security_mode == other.security_mode
            && same_opt(&self.sasl_mechanism, &other.sasl_mechanism)
            && same_opt(&self.username, &other.username)
            && same_opt(&self.password, &other.password)
    }
}

impl ConnectionDescriptor {
    /// Builds a descriptor, rejecting an empty broker list, a zero timeout, or
    /// a SASL mode without mechanism, username and password.
    pub fn new(
        bootstrap_servers: Vec<String>,
        security_mode: SecurityMode,
        sasl_mechanism: Option<String>,
        username: Option<String>,
        password: Option<String>,
        timeout_ms: u64,
    ) -> (r: Result<ConnectionDescriptor, EasyKafkaError>)
        ensures
            match r {
                Ok(d) => {
                    &&& d.bootstrap_servers == bootstrap_servers
                    &&& d.security_mode == security_mode
                    &&& d.sasl_mechanism == sasl_mechanism
                    &&& d.username == username
                    &&& d.password == password
                    &&& d.timeout_ms == timeout_ms
                    &&& d@.well_formed()
                },
                Err(e) => {
                    &&& e == EasyKafkaError::InvalidDescriptor
                    &&& !(ConnectionDescriptor {
                        bootstrap_servers,
                        security_mode,
                        sasl_mechanism,
                        username,
                        password,
                        timeout_ms,
                    })@.well_formed()
                },
            },
    {
        let d = ConnectionDescriptor {
            bootstrap_servers,
            security_mode,
            sasl_mechanism,
            username,
            password,
            timeout_ms,
        };
        if d.is_well_formed() {
            Ok(d)
        } else {
            Err(EasyKafkaError::InvalidDescriptor)
        }
    }

    /// Whether the descriptor is complete and consistent.
    pub fn is_well_formed(&self) -> (r: bool)
        ensures
            r == self@.well_formed(),
    {
        self.bootstrap_servers.len() > 0 && self.timeout_ms > 0 && (!self.security_mode.uses_sasl()
            || (self.sasl_mechanism.is_some() && self.username.is_some()
            && self.password.is_some()))
    }

    /// The pooling key: brokers and security parameters, without the timeout.
    pub fn key(&self) -> (r: ConnectionKey)
        ensures
            r@ == self@.key(),
    {
        ConnectionKey {
            bootstrap_servers: clone_servers(&self.bootstrap_servers),
            security_mode: self.security_mode,
            sasl_mechanism: clone_opt(&self.sasl_mechanism),
            username: clone_opt(&self.username),
            password: clone_opt(&self.password),
        }
    }
}

} // verus!
