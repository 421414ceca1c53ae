//! The credentials a client presents where the server asks for them.

use rustls_pki_types::pem::PemObject;
use rustls_pki_types::{CertificateDer, PrivateKeyDer};
use vstd::prelude::*;

use crate::error::{Error, ErrorView};
use crate::prefix::{lemma_prefix_ends, lemma_prefix_grows};

verus! {

/// `rustls_pki_types::PrivateKeyDer`, a private key in DER. Carried through,
/// never looked into.
#[verifier::external_type_specification]
#[verifier::external_body]
pub struct ExPrivateKeyDer<'a>(PrivateKeyDer<'a>);

/// A client's certificate chain, each certificate as its DER bytes with the
/// client's own first, and the private key that belongs to it.
pub struct ClientAuthenticationCredentials<'a> {
    pub cert_chain: Vec<Vec<u8>>,
    pub key_der: PrivateKeyDer<'a>,
}

/// The first certificate in PEM text, as `CertificateDer::from_pem_slice`
/// finds it: its DER bytes, or `None` where the text holds none or cannot be
/// decoded up to it. Decided from the text alone.
pub uninterp spec fn first_certificate(pem: Seq<u8>) -> Option<Seq<u8>>;

/// Reads the first certificate out of PEM text with
/// `CertificateDer::from_pem_slice`. The contract names the outcome: the
/// bytes of the certificate that `first_certificate` names, or `None` where
/// the call failed.
#[verifier::external_body]
fn certificate_from_pem(pem: &[u8]) -> (found: Option<Vec<u8>>)
    ensures
        found.deep_view() == first_certificate(pem@),
{
    match CertificateDer::from_pem_slice(pem) {
        Ok(certificate) => Some(certificate.to_vec()),
        Err(_) => None,
    }
}

/// Why `PrivateKeyDer::from_pem_slice` finds no private key in PEM text, or
/// `None` where it finds one. Decided from the text alone.
pub uninterp spec fn private_key_refusal(pem: Seq<u8>) -> Option<Seq<char>>;

/// Reads the first private key out of PEM text with
/// `PrivateKeyDer::from_pem_slice`. The contract names the outcome: a key
/// comes back exactly where `private_key_refusal` is `None`, and otherwise
/// the text of the error it names. The key itself is opaque, so nothing is
/// claimed of it.
#[verifier::external_body]
fn private_key_from_pem(pem: &[u8]) -> (parsed: Result<PrivateKeyDer<'static>, String>)
    ensures
        match parsed {
            Ok(_) => private_key_refusal(pem@) is None,
            Err(detail) => private_key_refusal(pem@) == Some(detail@),
        },
{
    match PrivateKeyDer::from_pem_slice(pem) {
        Ok(key) => Ok(key),
        Err(e) => Err(format!("{:#}", e)),
    }
}

/// The certificates that a list of files yields: the first certificate of
/// each file that could be read and holds one, in order.
pub open spec fn chain_of(files: Seq<Option<Seq<u8>>>) -> Seq<Seq<u8>>
    decreases files.len(),
{
    if files.len() == 0 {
        Seq::empty()
    } else {
        let rest = chain_of(files.drop_last());
        match files.last() {
            Some(pem) => match first_certificate(pem) {
                Some(der) => rest.push(der),
                None => rest,
            },
            None => rest,
        }
    }
}

/// The client's certificate chain from its files. Each entry is the content
/// of one file, or `None` for a file that could not be read. A file without
/// a certificate is passed over.
pub fn client_cert_chain(files: &Vec<Option<Vec<u8>>>) -> (chain: Vec<Vec<u8>>)
    ensures
        chain.deep_view() == chain_of(files.deep_view()),
{
    let ghost all = files.deep_view();
    let mut chain: Vec<Vec<u8>> = Vec::new();
    let mut i: usize = 0;
    proof {
        lemma_prefix_ends(all);
        assert(chain.deep_view() =~= chain_of(all.take(0)));
    }
    while i < files.len()
        invariant
            i <= files.len(),
            all == files.deep_view(),
            chain.deep_view() == chain_of(all.take(i as int)),
        decreases files.len() - i,
    {
        proof {
            lemma_prefix_grows(all, i as int);
        }
        let ghost before = chain.deep_view();
        match &files[i] {
            Some(pem) => {
                assert(all[i as int] == Some(pem@));
                match certificate_from_pem(pem.as_slice()) {
                    Some(der) => {
                        let ghost bytes = der.deep_view();
                        let ghost held = chain@;
                        chain.push(der);
                        assert(forall|k: int|
                            0 <= k < held.len() ==> chain@[k] == held[k] && before[k]
                                == held[k].deep_view());
                        assert(chain.deep_view() =~= before.push(bytes));
                    },
                    None => {},
                }
            },
            None => {
                assert(all[i as int] is None);
            },
        }
        i += 1;
    }
    chain
}

impl<'a> ClientAuthenticationCredentials<'a> {
    /// The credentials made of a chain and of what parsing the key gave: a
    /// key that did not parse is an `InvalidPrivateKey` with the parser's
    /// reason.
    pub fn from_parsed_key(
        cert_chain: Vec<Vec<u8>>,
        parsed: Result<PrivateKeyDer<'a>, String>,
    ) -> (credentials: Result<ClientAuthenticationCredentials<'a>, Error>)
        ensures
            match parsed {
                Ok(key) => credentials matches Ok(c) && c.cert_chain == cert_chain && c.key_der
                    == key,
                Err(detail) => credentials matches Err(e) && e@ == (ErrorView::InvalidPrivateKey {
                    why: detail@,
                }),
            },
    {
        match parsed {
            Ok(key_der) => Ok(ClientAuthenticationCredentials { cert_chain, key_der }),
            Err(why) => Err(Error::InvalidPrivateKey { why }),
        }
    }
}

/// The client's credentials from its chain and the content of its key file,
/// or, where the file could not be read, the reason.
///
/// An unreadable file fails with that reason as `InvalidPrivateKey`. A file
/// that was read is searched for a private key: where it holds one,
/// credentials come back with the chain as given; where it holds none, the
/// failure is `InvalidPrivateKey` with the reason that none was found.
pub fn client_credentials(
    cert_chain: Vec<Vec<u8>>,
    key_file: Result<Vec<u8>, String>,
) -> (credentials: Result<ClientAuthenticationCredentials<'static>, Error>)
    ensures
        key_file matches Err(detail) ==> credentials matches Err(e) && e@ == (
        ErrorView::InvalidPrivateKey { why: detail@ }),
        key_file matches Ok(pem) ==> match private_key_refusal(pem@) {
            None => credentials is Ok,
            Some(detail) => credentials matches Err(e) && e@ == (ErrorView::InvalidPrivateKey {
                why: detail,
            }),
        },
        credentials matches Ok(c) ==> c.cert_chain == cert_chain,
        credentials matches Err(e) ==> e@ is InvalidPrivateKey,
{
    match key_file {
        Ok(pem) => ClientAuthenticationCredentials::from_parsed_key(
            cert_chain,
            private_key_from_pem(pem.as_slice()),
        ),
        Err(why) => Err(Error::InvalidPrivateKey { why }),
    }
}

} // verus!
