//! The fixed settings the server is built with.
//!
//! The endpoint listens on the loopback address, port 9000. It speaks TLS 1.3
//! only, offers the single ALPN token `h3`, asks no client for a certificate,
//! takes early data without limit and tears a connection down after 30
//! seconds without traffic. Taking early data without limit trades replay
//! protection for latency: it suits a benchmark and nothing that has to be
//! trusted. HTTP/3 is set up with WebTransport, extended CONNECT and
//! datagrams switched on, for at most one WebTransport session per
//! connection.

use crate::credentials::{
    certificates_in, chain_of, contents_of, ders_view, key_from, load_certificate_chain,
    load_private_key, sections_in, CredentialError, PemItemView,
};
use vstd::prelude::*;

verus! {

/// The port the endpoint listens on.
pub const LISTEN_PORT: u16 = 9000;

/// Seconds without traffic after which a connection is torn down.
pub const IDLE_TIMEOUT_SECS: u64 = 30;

/// The largest number of milliseconds the transport can encode as an idle
/// timeout: one below 2^62.
pub const MAX_TIMEOUT_MILLIS: u64 = 0x3fff_ffff_ffff_ffff;

/// An IPv4 socket address.
#[derive(Clone, Copy, Debug, PartialEq, Eq)]
pub struct BindAddress {
    pub octets: [u8; 4],
    pub port: u16,
}

/// A version of the TLS protocol.
#[derive(Clone, Copy, Debug, PartialEq, Eq, Structural)]
pub enum TlsVersion {
    Tls12,
    Tls13,
}

/// The settings of the HTTP/3 layer of one connection.
#[derive(Clone, Copy, Debug, PartialEq, Eq, Structural)]
pub struct Http3Settings {
    pub enable_webtransport: bool,
    pub enable_connect: bool,
    pub enable_datagram: bool,
    pub max_webtransport_sessions: u64,
}

/// An idle timeout the transport can encode.
#[derive(Clone, Copy, Debug, PartialEq, Eq, Structural)]
pub struct IdleTimeout {
    millis: u64,
}

/// The TLS side of the endpoint.
#[derive(Debug, PartialEq, Eq)]
pub struct TlsSettings {
    /// The protocol versions offered.
    pub versions: Vec<TlsVersion>,
    /// The ALPN tokens offered.
    pub alpn_protocols: Vec<Vec<u8>>,
    /// The most early data taken, in bytes.
    pub max_early_data_size: u32,
    /// Whether clients are asked for a certificate.
    pub client_auth: bool,
}

/// All that the listening endpoint is built from.
#[derive(Debug, PartialEq, Eq)]
pub struct EndpointConfig {
    pub bind: BindAddress,
    /// The DER-encoded certificates of the chain, leaf first.
    pub certificate_chain: Vec<Vec<u8>>,
    /// The DER-encoded private key.
    pub private_key: Vec<u8>,
    pub tls: TlsSettings,
    pub idle_timeout: IdleTimeout,
}

/// The TLS side of an endpoint as a mathematical value.
pub struct TlsSettingsView {
    pub versions: Seq<TlsVersion>,
    pub alpn_protocols: Seq<Seq<u8>>,
    pub max_early_data_size: u32,
    pub client_auth: bool,
}

/// An endpoint's configuration as a mathematical value.
pub struct EndpointConfigView {
    pub bind: BindAddress,
    pub certificate_chain: Seq<Seq<u8>>,
    pub private_key: Seq<u8>,
    pub tls: TlsSettingsView,
    pub idle_timeout_millis: nat,
}

impl View for IdleTimeout {
    type V = nat;

    closed spec fn view(&self) -> nat {
        self.millis as nat
    }
}

impl View for TlsSettings {
    type V = TlsSettingsView;

    open spec fn view(&self) -> TlsSettingsView {
        TlsSettingsView {
            versions: self.versions@,
            alpn_protocols: ders_view(self.alpn_protocols@),
            max_early_data_size: self.max_early_data_size,
            client_auth: self.client_auth,
        }
    }
}

impl View for EndpointConfig {
    type V = EndpointConfigView;

    open spec fn view(&self) -> EndpointConfigView {
        EndpointConfigView {
            bind: self.bind,
            certificate_chain: ders_view(self.certificate_chain@),
            private_key: self.private_key@,
            tls: self.tls@,
            idle_timeout_millis: self.idle_timeout@,
        }
    }
}

/// The two bytes `h3`, the ALPN token of HTTP/3.
pub open spec fn h3_token() -> Seq<u8> {
    seq![104u8, 51u8]
}

/// The loopback address and the fixed port.
pub open spec fn loopback() -> BindAddress {
    BindAddress { octets: [127u8, 0u8, 0u8, 1u8], port: LISTEN_PORT }
}

/// The TLS side of the server: TLS 1.3 alone, `h3` alone, no client
/// certificate, early data without limit.
pub open spec fn fixed_tls() -> TlsSettingsView {
    TlsSettingsView {
        versions: seq![TlsVersion::Tls13],
        alpn_protocols: seq![h3_token()],
        max_early_data_size: u32::MAX,
        client_auth: false,
    }
}

/// The HTTP/3 settings of the server.
pub open spec fn fixed_http3() -> Http3Settings {
    Http3Settings {
        enable_webtransport: true,
        enable_connect: true,
        enable_datagram: true,
        max_webtransport_sessions: 1,
    }
}

/// What `create_endpoint` gives for the two files, from what was read of
/// them and from what their PEM sections decode to. The certificate file is
/// looked at first.
pub open spec fn endpoint_of(
    bind: BindAddress,
    cert_file: Option<Seq<u8>>,
    cert_decoded: Option<Seq<Seq<u8>>>,
    key_file: Option<Seq<u8>>,
    key_decoded: Option<Seq<PemItemView>>,
) -> Result<EndpointConfigView, CredentialError> {
    match chain_of(cert_file, cert_decoded) {
        Err(e) => Err(e),
        Ok(chain) => match key_from(key_file, key_decoded) {
            Err(e) => Err(e),
            Ok(key) => Ok(
                EndpointConfigView {
                    bind,
                    certificate_chain: chain,
                    private_key: key,
                    tls: fixed_tls(),
                    idle_timeout_millis: (IDLE_TIMEOUT_SECS * 1000) as nat,
                },
            ),
        },
    }
}

/// What an endpoint result holds, as a mathematical value.
pub open spec fn endpoint_result_view(result: Result<EndpointConfig, CredentialError>) -> Result<
    EndpointConfigView,
    CredentialError,
> {
    match result {
        Ok(config) => Ok(config@),
        Err(e) => Err(e),
    }
}

impl IdleTimeout {
    /// The timeout of `secs` seconds, where the transport can encode it: in
    /// milliseconds it has to stay below 2^62.
    pub fn from_secs(secs: u64) -> (timeout: Option<IdleTimeout>)
        ensures
            match timeout {
                Some(t) => t@ == secs * 1000 && secs * 1000 <= MAX_TIMEOUT_MILLIS,
                None => secs * 1000 > MAX_TIMEOUT_MILLIS,
            },
    {
        if secs <= MAX_TIMEOUT_MILLIS / 1000 {
            Some(IdleTimeout { millis: secs * 1000 })
        } else {
            None
        }
    }

    /// The timeout in milliseconds.
    pub fn millis(&self) -> (millis: u64)
        ensures
            millis == self@,
    {
        self.millis
    }
}

/// The address the server listens on: loopback, port 9000.
pub fn listen_address() -> (bind: BindAddress)
    ensures
        bind == loopback(),
{
    BindAddress { octets: [127, 0, 0, 1], port: LISTEN_PORT }
}

/// The idle timeout of every connection: 30 seconds, which the transport
/// can encode.
pub fn idle_timeout() -> (timeout: IdleTimeout)
    ensures
        timeout@ == IDLE_TIMEOUT_SECS * 1000,
        timeout@ <= MAX_TIMEOUT_MILLIS,
{
    IdleTimeout::from_secs(IDLE_TIMEOUT_SECS).unwrap()
}

/// The TLS settings of the server.
pub fn tls_settings() -> (tls: TlsSettings)
    ensures
        tls@ == fixed_tls(),
{
    let mut versions: Vec<TlsVersion> = Vec::new();
    versions.push(TlsVersion::Tls13);
    let mut token: Vec<u8> = Vec::new();
    token.push(104);
    token.push(51);
    let mut alpn_protocols: Vec<Vec<u8>> = Vec::new();
    alpn_protocols.push(token);
    let tls = TlsSettings {
        versions,
        alpn_protocols,
        max_early_data_size: u32::MAX,
        client_auth: false,
    };
    assert(tls@.versions =~= seq![TlsVersion::Tls13]);
    assert(token@ =~= h3_token());
    assert(tls@.alpn_protocols =~= seq![h3_token()]);
    tls
}

/// The HTTP/3 settings of the server.
pub fn http3_settings() -> (settings: Http3Settings)
    ensures
        settings == fixed_http3(),
{
    Http3Settings {
        enable_webtransport: true,
        enable_connect: true,
        enable_datagram: true,
        max_webtransport_sessions: 1,
    }
}

/// All that the endpoint bound to `bind` is built from. `cert_file` and
/// `key_file` are what was read of the certificate file and of the key file,
/// `None` where a file is missing or unreadable.
///
/// Fails where the certificate chain or the private key cannot be had, with
/// the error of the first that fails.
pub fn create_endpoint(
    bind: BindAddress,
    cert_file: Option<Vec<u8>>,
    key_file: Option<Vec<u8>>,
) -> (config: Result<EndpointConfig, CredentialError>)
    ensures
        endpoint_result_view(config) == endpoint_of(
            bind,
            contents_of(cert_file),
            certificates_in(cert_file),
            contents_of(key_file),
            sections_in(key_file),
        ),
{
    let certificate_chain = match load_certificate_chain(cert_file) {
        Ok(chain) => chain,
        Err(e) => {
            return Err(e);
        },
    };
    let private_key = match load_private_key(key_file) {
        Ok(key) => key,
        Err(e) => {
            return Err(e);
        },
    };
    Ok(
        EndpointConfig {
            bind,
            certificate_chain,
            private_key,
            tls: tls_settings(),
            idle_timeout: idle_timeout(),
        },
    )
}

} // verus!
