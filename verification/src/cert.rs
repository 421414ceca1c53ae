//! Retrieving the certificate chain of a host: everything but the bytes on
//! the wire.
//!
//! The caller opens the socket and drives the TLS session; this module says
//! which host names may be tried at all, what is written to the peer, and
//! what the exchange amounts to.

use std::sync::Arc;

use rustls::{ClientConfig, ClientConnection};
use rustls_pki_types::ServerName;
use vstd::prelude::*;
use vstd::string::*;

use crate::error::{Error, ErrorView};

verus! {

/// The port a TLS server is expected on.
pub const TLS_PORT: u16 = 443;

/// The seconds a host is given to accept the connection, and then to answer
/// during the handshake, before it counts as unreachable.
pub const TIMEOUT_SECONDS: u64 = 5;

/// `rustls::ClientConfig`, the trust roots and client credentials of a run.
/// Carried through, never looked into.
#[verifier::external_type_specification]
#[verifier::external_body]
pub struct ExClientConfig(ClientConfig);

/// `rustls::ClientConnection`, the TLS session with one host. Carried
/// through, never looked into.
#[verifier::external_type_specification]
#[verifier::external_body]
pub struct ExClientConnection(ClientConnection);

/// `rustls_pki_types::ServerName`, a host name that the TLS layer accepts.
/// Carried through, never looked into.
#[verifier::external_type_specification]
#[verifier::external_body]
pub struct ExServerName<'a>(ServerName<'a>);

/// Why the TLS layer refuses `hostname` as a server name, or `None` where it
/// accepts it as a DNS name or an IP address. Decided from the text alone.
pub uninterp spec fn server_name_refusal(hostname: Seq<char>) -> Option<Seq<char>>;

/// Converts a host name with `ServerName::try_from`. The contract names the
/// outcome: the conversion succeeds exactly where `server_name_refusal` is
/// `None`, and fails with the text of the error it names. The one error the
/// conversion has always reads "invalid dns name".
#[verifier::external_body]
fn server_name(hostname: &str) -> (name: Result<ServerName<'static>, String>)
    ensures
        match name {
            Ok(_) => server_name_refusal(hostname@) is None,
            Err(details) => server_name_refusal(hostname@) == Some(details@) && details@
                == "invalid dns name"@,
        },
{
    match ServerName::try_from(hostname.to_string()) {
        Ok(name) => Ok(name),
        Err(e) => Err(e.to_string()),
    }
}

/// Sets up a session with `rustls::ClientConnection::new`. Whether it
/// succeeds depends on the configuration, so nothing is claimed; a failure is
/// handed back as the text of the error.
#[verifier::external_body]
fn new_connection(config: Arc<ClientConfig>, name: ServerName<'static>) -> (made: Result<
    ClientConnection,
    String,
>) {
    match ClientConnection::new(config, name) {
        Ok(connection) => Ok(connection),
        Err(e) => Err(e.to_string()),
    }
}

/// The certificates of the peer that a session holds, each as its DER bytes,
/// leaf first; `None` until the peer has sent them.
pub uninterp spec fn peer_chain(connection: ClientConnection) -> Option<Seq<Seq<u8>>>;

/// Reads the peer's certificates off a session with `peer_certificates`, a
/// getter that hands out what the session holds: the result is `peer_chain`
/// of the session.
#[verifier::external_body]
fn peer_certificates(connection: &ClientConnection) -> (peer: Option<Vec<Vec<u8>>>)
    ensures
        peer.deep_view() == peer_chain(*connection),
{
    match connection.peer_certificates() {
        Some(chain) => Some(chain.iter().map(|certificate| certificate.to_vec()).collect()),
        None => None,
    }
}

/// The text of the failure to set up a session for `hostname`.
pub open spec fn session_failure(hostname: Seq<char>, detail: Seq<char>) -> Seq<char> {
    "Failed to create TLS connection for '"@ + hostname + "': "@ + detail
}

/// What setting up a session came to: the session itself, or a
/// `TLSInitializationFailure` that names the host and the reason.
pub fn session_result(hostname: &str, made: Result<ClientConnection, String>) -> (session: Result<
    ClientConnection,
    Error,
>)
    ensures
        match made {
            Ok(connection) => session == Ok::<ClientConnection, Error>(connection),
            Err(detail) => session matches Err(e) && e@ == (ErrorView::TLSInitializationFailure {
                why: session_failure(hostname@, detail@),
            }),
        },
{
    match made {
        Ok(connection) => Ok(connection),
        Err(detail) => {
            let mut why = String::from_str("Failed to create TLS connection for '");
            why.append(hostname);
            why.append("': ");
            why.append(detail.as_str());
            Err(Error::TLSInitializationFailure { why })
        },
    }
}

/// Prepares the TLS session for a host, before any byte is sent.
///
/// A host name that the TLS layer refuses fails at once with
/// `InvalidHostname`, whose details read "invalid dns name". For an accepted
/// name the session is set up with the given configuration; if that fails the
/// error is a `TLSInitializationFailure` whose text starts by naming the
/// host.
pub fn client_connection(hostname: &str, ssl_config: Arc<ClientConfig>) -> (session: Result<
    ClientConnection,
    Error,
>)
    ensures
        server_name_refusal(hostname@) matches Some(details) ==> session matches Err(e) && e@ == (
        ErrorView::InvalidHostname { hostname: hostname@, details }) && details
            == "invalid dns name"@,
        server_name_refusal(hostname@) is None ==> session is Ok || (exists|detail: Seq<char>|
            session matches Err(e) && e@ == (ErrorView::TLSInitializationFailure {
                why: #[trigger] session_failure(hostname@, detail),
            })),
{
    match server_name(hostname) {
        Err(details) => Err(Error::InvalidHostname { hostname: hostname.to_owned(), details }),
        Ok(name) => {
            let made = new_connection(ssl_config, name);
            let ghost detail = if made is Err { made->Err_0@ } else { Seq::<char>::empty() };
            let session = session_result(hostname, made);
            assert(session is Ok || (session matches Err(e) && e@ == (
            ErrorView::TLSInitializationFailure { why: session_failure(hostname@, detail) })));
            session
        },
    }
}

/// What the caller's network exchange with a host came to.
#[derive(Debug)]
pub enum Exchange {
    /// No connection could be opened: the name did not resolve, or the host
    /// refused.
    Unreachable { details: String },
    /// The host did not answer in time, while connecting or during the
    /// handshake.
    TimedOut { details: String },
    /// The connection stood, but the handshake or the write over it failed;
    /// a certificate that the trust roots do not vouch for ends here.
    Refused { details: String },
    /// The handshake completed and the request was written.
    Written,
}

/// The mathematical content of a retrieved chain, or of the failure to
/// retrieve one.
pub open spec fn retrieval_view(retrieval: Result<Vec<Vec<u8>>, Error>) -> Result<
    Seq<Seq<u8>>,
    ErrorView,
> {
    match retrieval {
        Ok(chain) => Ok(chain.deep_view()),
        Err(e) => Err(e@),
    }
}

/// The request line and headers written to the peer once the session is up.
pub open spec fn head_request_text(hostname: Seq<char>) -> Seq<char> {
    "HEAD / HTTP/1.1\r\nHostname: "@ + hostname
        + "\r\nConnection: close\r\nAccept-Encoding: identity\r\n\r\n"@
}

/// The bytes to write to the peer after the handshake: a minimal request that
/// asks for nothing and closes the connection. Its answer is never read.
pub fn head_request(hostname: &str) -> (request: String)
    ensures
        request@ == head_request_text(hostname@),
{
    let mut request = String::from_str("HEAD / HTTP/1.1\r\nHostname: ");
    request.append(hostname);
    request.append("\r\nConnection: close\r\nAccept-Encoding: identity\r\n\r\n");
    request
}

/// What an exchange and the certificates read off the session amount to.
///
/// A host that is unreachable or does not answer in time is a
/// `ConnectionFailure`, a refused handshake an `InvalidCertificate`. After a
/// written request the chain is the peer's certificates; none at all, or an
/// empty list, is `NoCertificate`.
pub open spec fn retrieved(
    hostname: Seq<char>,
    exchange: Exchange,
    peer: Option<Seq<Seq<u8>>>,
) -> Result<Seq<Seq<u8>>, ErrorView> {
    match exchange {
        Exchange::Unreachable { details } => Err(
            ErrorView::ConnectionFailure { hostname, details: details@ },
        ),
        Exchange::TimedOut { details } => Err(
            ErrorView::ConnectionFailure { hostname, details: details@ },
        ),
        Exchange::Refused { details } => Err(
            ErrorView::InvalidCertificate {
                why: "Failed to establish TLS connection: "@ + details@,
            },
        ),
        Exchange::Written => match peer {
            Some(chain) if chain.len() > 0 => Ok(chain),
            _ => Err(ErrorView::NoCertificate),
        },
    }
}

/// Turns an exchange, and the certificates read off the session after it,
/// into the chain or the failure that `retrieved` describes.
pub fn chain_from(
    hostname: &str,
    exchange: Exchange,
    peer: Option<Vec<Vec<u8>>>,
) -> (retrieval: Result<Vec<Vec<u8>>, Error>)
    ensures
        retrieval_view(retrieval) == retrieved(hostname@, exchange, peer.deep_view()),
{
    match exchange {
        Exchange::Unreachable { details } => Err(
            Error::ConnectionFailure { hostname: hostname.to_owned(), details },
        ),
        Exchange::TimedOut { details } => Err(
            Error::ConnectionFailure { hostname: hostname.to_owned(), details },
        ),
        Exchange::Refused { details } => {
            let mut why = String::from_str("Failed to establish TLS connection: ");
            why.append(details.as_str());
            Err(Error::InvalidCertificate { why })
        },
        Exchange::Written => match peer {
            Some(chain) => {
                if chain.len() > 0 {
                    Ok(chain)
                } else {
                    Err(Error::NoCertificate)
                }
            },
            None => Err(Error::NoCertificate),
        },
    }
}

/// The certificate chain that a host presented, leaf first, after the caller
/// has run the exchange over `connection`.
///
/// The result is what `retrieved` gives for the exchange and the peer's
/// certificates that the session holds: the failures of the exchange as they
/// are, and after a written request the session's chain, or `NoCertificate`
/// where it holds none or an empty one.
pub fn get_cert_chain(
    connection: &ClientConnection,
    hostname: &str,
    exchange: Exchange,
) -> (retrieval: Result<Vec<Vec<u8>>, Error>)
    ensures
        retrieval_view(retrieval) == retrieved(hostname@, exchange, peer_chain(*connection)),
        retrieval matches Ok(chain) ==> chain.len() > 0,
{
    let peer = peer_certificates(connection);
    chain_from(hostname, exchange, peer)
}

} // verus!
