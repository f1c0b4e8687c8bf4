//! The HTTP/JSON transport between nodes: endpoints of a node, the
//! health-check address and the meaning of a health-check answer.

use url::{ParseError, Url};
use vstd::prelude::*;

use crate::text::{append_decimal, append_str, decimal};

verus! {

#[verifier::external_type_specification]
#[verifier::external_body]
pub struct ExUrl(Url);

#[verifier::external_type_specification]
#[verifier::external_body]
pub struct ExParseError(ParseError);

/// What `Url::parse` gives for `input`: the absolute URL it denotes, or why
/// it denotes none.
pub uninterp spec fn parsed_url(input: Seq<char>) -> Result<Url, ParseError>;

/// `Url::parse`: parses `input` as an absolute URL; its outcome depends on
/// the input alone.
#[verifier::external_body]
fn parse_url(input: &str) -> (parsed: Result<Url, ParseError>)
    ensures
        parsed == parsed_url(input@),
{
    Url::parse(input)
}

/// What `Url::join` gives for `input` resolved against `base`.
pub uninterp spec fn joined_url(base: Url, input: Seq<char>) -> Result<Url, ParseError>;

/// `Url::join`: resolves `input` against `base`; its outcome depends on the
/// base and the input alone.
#[verifier::external_body]
fn join_url(base: &Url, input: &str) -> (joined: Result<Url, ParseError>)
    ensures
        joined == joined_url(*base, input@),
{
    base.join(input)
}

/// The endpoints of a node's transport.
#[derive(Debug)]
pub struct Config {
    pub scheme: String,
    pub name: String,
    pub client_endpoint: String,
    pub server_endpoint: String,
}

/// `scheme://host:port`
pub open spec fn client_endpoint(scheme: Seq<char>, host: Seq<char>, port: u16) -> Seq<char> {
    scheme + "://"@ + host + ":"@ + decimal(port as nat)
}

/// `host:port`
pub open spec fn server_endpoint(host: Seq<char>, port: u16) -> Seq<char> {
    host + ":"@ + decimal(port as nat)
}

/// The server endpoint is the host as given, then `:`, then the port in
/// decimal; the client endpoint is the scheme, `://` and the server endpoint.
pub proof fn lemma_endpoint_parts(scheme: Seq<char>, host: Seq<char>, port: u16)
    ensures
        server_endpoint(host, port).len() == host.len() + 1 + decimal(port as nat).len(),
        server_endpoint(host, port).subrange(0, host.len() as int) == host,
        server_endpoint(host, port)[host.len() as int] == ':',
        server_endpoint(host, port).subrange(
            host.len() + 1int,
            server_endpoint(host, port).len() as int,
        ) == decimal(port as nat),
        client_endpoint(scheme, host, port).subrange(0, scheme.len() as int) == scheme,
        client_endpoint(scheme, host, port).subrange(
            scheme.len() + 3int,
            client_endpoint(scheme, host, port).len() as int,
        ) == server_endpoint(host, port),
{
    reveal_strlit(":");
    reveal_strlit("://");
    let e = server_endpoint(host, port);
    assert(e.subrange(0, host.len() as int) =~= host);
    assert(e.subrange(host.len() + 1int, e.len() as int) =~= decimal(port as nat));
    let c = client_endpoint(scheme, host, port);
    assert(c.subrange(0, scheme.len() as int) =~= scheme);
    assert(c.subrange(scheme.len() + 3int, c.len() as int) =~= e);
}

/// Servers configured on different hosts with the same port bind to
/// different endpoints.
pub proof fn lemma_server_endpoint_keeps_host(host: Seq<char>, other_host: Seq<char>, port: u16)
    requires
        host != other_host,
    ensures
        server_endpoint(host, port) != server_endpoint(other_host, port),
{
    lemma_endpoint_parts(""@, host, port);
    lemma_endpoint_parts(""@, other_host, port);
    if server_endpoint(host, port) == server_endpoint(other_host, port) {
        assert(host == server_endpoint(host, port).subrange(0, host.len() as int));
    }
}

impl Config {
    /// The endpoints of node `name` serving `scheme` on `host:port`: clients
    /// call `scheme://host:port`, the server binds to `host:port`.
    pub fn new(name: &str, scheme: &str, host: &str, port: u16) -> (config: Config)
        ensures
            config.name@ == name@,
            config.scheme@ == scheme@,
            config.client_endpoint@ == client_endpoint(scheme@, host@, port),
            config.server_endpoint@ == server_endpoint(host@, port),
    {
        let mut client = scheme.to_owned();
        append_str(&mut client, "://");
        append_str(&mut client, host);
        append_str(&mut client, ":");
        append_decimal(&mut client, port as u64);
        let mut server = host.to_owned();
        append_str(&mut server, ":");
        append_decimal(&mut server, port as u64);
        Config {
            scheme: scheme.to_owned(),
            name: name.to_owned(),
            client_endpoint: client,
            server_endpoint: server,
        }
    }
}

/// Why a server could not start.
#[derive(Debug)]
pub enum ServerError {
    /// The current thread has no actor system.
    ThreadDoesntHaveSystem,
    /// Binding failed (the message says why).
    BindError(String),
}

/// Why a client call failed.
#[derive(Debug)]
pub enum ClientError {
    /// The request failed (the message says why).
    RequestError(String),
    /// An address could not be parsed.
    UrlPraseError(ParseError),
    /// The server answered the health check with another status than OK.
    HealthCheckError { status_code: u16, message: String },
}

/// The base address clients of `cfg` call: the client endpoint parsed as a
/// URL, or the error of parsing it.
pub fn client_base_url(cfg: &Config) -> (base: Result<Url, ClientError>)
    ensures
        match parsed_url(cfg.client_endpoint@) {
            Ok(u) => base matches Ok(v) && v == u,
            Err(e) => base matches Err(ClientError::UrlPraseError(f)) && f == e,
        },
{
    match parse_url(cfg.client_endpoint.as_str()) {
        Ok(u) => Ok(u),
        Err(e) => Err(ClientError::UrlPraseError(e)),
    }
}

/// The address of the health check of the node at `base`: the path
/// `/healthcheck` resolved against `base`, or the error of resolving it.
pub fn health_check_url(base: &Url) -> (url: Result<Url, ClientError>)
    ensures
        match joined_url(*base, "/healthcheck"@) {
            Ok(u) => url matches Ok(v) && v == u,
            Err(e) => url matches Err(ClientError::UrlPraseError(f)) && f == e,
        },
{
    match join_url(base, "/healthcheck") {
        Ok(u) => Ok(u),
        Err(e) => Err(ClientError::UrlPraseError(e)),
    }
}

/// The meaning of a health-check answer: the body when the status is OK
/// (200), an error carrying status and body otherwise.
pub fn health_check_result(status_code: u16, message: String) -> (r: Result<String, ClientError>)
    ensures
        status_code == 200 ==> r == Ok::<String, ClientError>(message),
        status_code != 200 ==> (r matches Err(ClientError::HealthCheckError { status_code: s, message: m })
            && s == status_code && m == message),
{
    if status_code != 200 {
        return Err(ClientError::HealthCheckError { status_code, message });
    }
    Ok(message)
}

} // verus!
