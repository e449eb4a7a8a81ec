//! Native backends: how a connection attempt is laid out before any socket is opened.

use std::path::PathBuf;
use std::time::Duration;
use vstd::prelude::*;
use vstd::string::StringExecFns;

use crate::addr::SocketAddress;
use crate::text::{decimal, decimal_string};
use crate::ConnectionMode;

mod error;
pub mod tor;

pub use self::error::{Error, UrlError};

verus! {

/// `url::Url`, carried through as an opaque value.
#[verifier::external_type_specification]
#[verifier::external_body]
pub struct ExUrl(url::Url);

/// The serialization that a URL holds, as `Url::as_str` hands it out.
pub uninterp spec fn url_text(url: &url::Url) -> Seq<char>;

/// The host that a URL holds, as `Url::host_str` hands it out.
pub uninterp spec fn url_host(url: &url::Url) -> Option<Seq<char>>;

/// The port that `Url::port_or_known_default` finds for a URL.
pub uninterp spec fn url_port(url: &url::Url) -> Option<u16>;

/// `Url::as_str` returns the serialization stored in the URL.
pub assume_specification<'a>[ url::Url::as_str ](url: &'a url::Url) -> (text: &'a str)
    ensures
        text@ == url_text(url),
;

/// `Url::host_str` returns the host part of the URL, or `None` where it has none.
pub assume_specification<'a>[ url::Url::host_str ](url: &'a url::Url) -> (host: Option<&'a str>)
    ensures
        host is Some <==> url_host(url) is Some,
        host matches Some(h) ==> url_host(url) == Some(h@),
;

/// `Url::port_or_known_default` returns the port that the URL gives, or the default port for
/// its scheme where it knows one.
pub assume_specification[ url::Url::port_or_known_default ](url: &url::Url) -> (port: Option<u16>)
    ensures
        port == url_port(url),
;

/// The host and port that a connection is made to.
#[derive(Debug, Clone, PartialEq, Eq, Hash)]
pub struct Target {
    /// Domain name or IP address, as the URL spells it.
    pub host: String,
    /// TCP port.
    pub port: u16,
}

/// The text `host:port`, with the port in decimal.
pub open spec fn authority_text(host: Seq<char>, port: u16) -> Seq<char> {
    host + seq![':'] + decimal(port as nat)
}

impl Target {
    /// The target made of the host and port found in a URL: a missing host is reported
    /// first, then a missing port.
    pub fn from_parts(host: Option<&str>, port: Option<u16>) -> (r: Result<Target, Error>)
        ensures
            host is None ==> r == Err::<Target, Error>(Error::Url(UrlError::EmptyHost)),
            host is Some && port is None ==> r == Err::<Target, Error>(
                Error::Url(UrlError::InvalidPort),
            ),
            host is Some && port is Some ==> (r matches Ok(t) && t.host@ == host->0@ && t.port
                == port->0),
    {
        let host: &str = match host {
            Some(host) => host,
            None => return Err(Error::empty_host()),
        };
        let port: u16 = match port {
            Some(port) => port,
            None => return Err(Error::invalid_port()),
        };
        Ok(Target { host: host.to_owned(), port })
    }

    /// The target that a URL names, with the default port for `ws`, `wss`, `http`, `https`
    /// and `ftp` where the URL gives none.
    pub fn resolve(url: &url::Url) -> (r: Result<Target, Error>)
        ensures
            url_host(url) is None ==> r == Err::<Target, Error>(Error::Url(UrlError::EmptyHost)),
            url_host(url) is Some && url_port(url) is None ==> r == Err::<Target, Error>(
                Error::Url(UrlError::InvalidPort),
            ),
            url_host(url) is Some && url_port(url) is Some ==> (r matches Ok(t) && t.host@
                == url_host(url)->0 && t.port == url_port(url)->0),
    {
        Target::from_parts(url.host_str(), url.port_or_known_default())
    }

    /// The text `host:port` that a proxy is asked to connect to.
    pub fn authority(&self) -> (text: String)
        ensures
            text@ == authority_text(self.host@, self.port),
    {
        proof {
            reveal_strlit(":");
        }
        let text = self.host.clone().concat(":");
        assert(":"@ =~= seq![':']);
        text.concat(decimal_string(self.port as u64).as_str())
    }
}

/// The way to a raw byte stream with the target.
#[derive(Debug, Clone, PartialEq, Eq, Hash)]
pub enum Transport {
    /// A TCP connection to the target itself.
    Tcp,
    /// A SOCKS5 CONNECT through `proxy`, which is asked for `authority`.
    Socks5 { proxy: SocketAddress, authority: String },
    /// A stream over a circuit of the shared Tor client, which keeps its data under
    /// `custom_path` where one is given.
    Tor { custom_path: Option<PathBuf> },
}

/// A connection attempt, decided before any network activity: one transport step that
/// depends on the mode, then the one upgrade step (TLS where the scheme asks for it, and the
/// WebSocket handshake for `url`) that all modes share, and one allowance of time for the
/// two together.
#[derive(Debug, PartialEq, Eq, Hash)]
pub struct ConnectPlan {
    /// The URL that the handshake is made for.
    pub url: String,
    /// Where the raw stream leads.
    pub target: Target,
    /// How the raw stream is obtained.
    pub transport: Transport,
    /// The time that the whole attempt may take.
    pub timeout: Duration,
}

/// Whether `transport` is the transport that `mode` selects for a target.
pub open spec fn transport_of(
    mode: ConnectionMode,
    host: Seq<char>,
    port: u16,
    transport: Transport,
) -> bool {
    match mode {
        ConnectionMode::Direct => transport is Tcp,
        ConnectionMode::Proxy(addr) => transport matches Transport::Socks5 { proxy, authority }
            && proxy == addr && authority@ == authority_text(host, port),
        ConnectionMode::Tor { custom_path } => transport == (Transport::Tor { custom_path }),
    }
}

/// Each mode selects one kind of transport, and leaves nothing of it open: a direct
/// connection goes over TCP, a proxy mode through that proxy to the target's `host:port`, and
/// the Tor mode over the shared client with the mode's storage path.
pub proof fn lemma_mode_decides_transport(
    mode: ConnectionMode,
    host: Seq<char>,
    port: u16,
    a: Transport,
    b: Transport,
)
    requires
        transport_of(mode, host, port, a),
        transport_of(mode, host, port, b),
    ensures
        mode is Direct <==> a is Tcp,
        mode is Proxy <==> a is Socks5,
        mode is Tor <==> a is Tor,
        a is Tcp || a is Tor ==> a == b,
        a matches Transport::Socks5 { proxy, authority } ==> b is Socks5 && b->proxy == proxy
            && b->authority@ == authority@,
{
}

impl ConnectPlan {
    /// The plan for `mode` and a target that was already resolved.
    pub fn for_target(
        url: &str,
        target: Target,
        mode: &ConnectionMode,
        timeout: Duration,
    ) -> (plan: ConnectPlan)
        ensures
            plan.url@ == url@,
            plan.target == target,
            plan.timeout == timeout,
            transport_of(*mode, target.host@, target.port, plan.transport),
    {
        let transport = match mode {
            ConnectionMode::Direct => Transport::Tcp,
            ConnectionMode::Proxy(proxy) => Transport::Socks5 {
                proxy: *proxy,
                authority: target.authority(),
            },
            ConnectionMode::Tor { custom_path } => Transport::Tor {
                custom_path: custom_path.clone(),
            },
        };
        ConnectPlan { url: url.to_owned(), target, transport, timeout }
    }

    /// The plan for connecting to `url` in `mode`. A URL without a host, or without a port
    /// where its scheme has no default, is refused here, before anything is opened.
    pub fn new(url: &url::Url, mode: &ConnectionMode, timeout: Duration) -> (r: Result<
        ConnectPlan,
        Error,
    >)
        ensures
            url_host(url) is None ==> r == Err::<ConnectPlan, Error>(
                Error::Url(UrlError::EmptyHost),
            ),
            url_host(url) is Some && url_port(url) is None ==> r == Err::<ConnectPlan, Error>(
                Error::Url(UrlError::InvalidPort),
            ),
            url_host(url) is Some && url_port(url) is Some ==> (r matches Ok(plan) && plan.url@
                == url_text(url) && plan.target.host@ == url_host(url)->0 && plan.target.port
                == url_port(url)->0 && plan.timeout == timeout && transport_of(
                *mode,
                plan.target.host@,
                plan.target.port,
                plan.transport,
            )),
    {
        match Target::resolve(url) {
            Ok(target) => Ok(ConnectPlan::for_target(url.as_str(), target, mode, timeout)),
            Err(err) => Err(err),
        }
    }
}

/// What a connection attempt comes to under its one timeout: `outcome` is `None` where the
/// allowance ran out before the attempt ended, and else holds how the attempt ended.
pub fn within_timeout<T>(outcome: Option<Result<T, Error>>) -> (r: Result<T, Error>)
    ensures
        outcome is None ==> r == Err::<T, Error>(Error::Timeout),
        outcome matches Some(ended) ==> r == ended,
{
    match outcome {
        Some(ended) => ended,
        None => Err(Error::Timeout),
    }
}

} // verus!
