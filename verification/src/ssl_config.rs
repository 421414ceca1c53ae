//! The trust configuration of a run: the root certificates that vouch for the
//! hosts, and the client configuration built on them.
//!
//! Files are read by the caller; this module takes their bytes.

use rustls::{ClientConfig, RootCertStore};
use rustls_pki_types::{CertificateDer, PrivateKeyDer};
use vstd::prelude::*;

use crate::client_auth::ClientAuthenticationCredentials;
use crate::error::{Error, ErrorView};
use crate::prefix::{lemma_prefix_ends, lemma_prefix_grows};

verus! {

/// `rustls::RootCertStore`, the list of trust anchors. Its contents are
/// spoken of through `roots`.
#[verifier::external_type_specification]
#[verifier::external_body]
pub struct ExRootCertStore(RootCertStore);

/// A trust anchor as the store holds it: the DER bytes of the subject, of the
/// subject's public key information, and of the name constraints if any.
pub struct TrustAnchorView {
    pub subject: Seq<u8>,
    pub subject_public_key_info: Seq<u8>,
    pub name_constraints: Option<Seq<u8>>,
}

/// The trust anchors in a store, in the order they were added.
pub uninterp spec fn roots(store: RootCertStore) -> Seq<TrustAnchorView>;

/// The trust anchor that `RootCertStore::add` makes of a DER certificate, or
/// `None` where it refuses the bytes. Decided from the bytes alone.
pub uninterp spec fn added_anchor(der: Seq<u8>) -> Option<TrustAnchorView>;

/// What `rustls_pemfile::certs` finds in PEM text: for each certificate
/// section in turn its DER bytes, or `None` for a stretch that could not be
/// decoded. Sections of other kinds are passed over.
pub uninterp spec fn pem_certificates(pem: Seq<u8>) -> Seq<Option<Seq<u8>>>;

/// Adds one DER certificate with `RootCertStore::add`. As the source has it,
/// the certificate's trust anchor is pushed onto the list of roots, or, where
/// no anchor can be made of the bytes, the store is left as it was and the
/// error's text is returned.
#[verifier::external_body]
fn add_root(store: &mut RootCertStore, der: &[u8]) -> (added: Result<(), String>)
    ensures
        match added {
            Ok(_) => added_anchor(der@) matches Some(anchor) && roots(*final(store)) == roots(
                *old(store),
            ).push(anchor),
            Err(_) => added_anchor(der@) is None && roots(*final(store)) == roots(*old(store)),
        },
{
    match store.add(CertificateDer::from(der)) {
        Ok(()) => Ok(()),
        Err(e) => Err(e.to_string()),
    }
}

/// Splits PEM text into certificates with `rustls_pemfile::certs`, read from
/// memory. Each item it yields is kept in order: the DER bytes of a
/// certificate, or `None` where it yielded an error.
#[verifier::external_body]
fn certificates_in_pem(pem: &[u8]) -> (found: Vec<Option<Vec<u8>>>)
    ensures
        found.deep_view() == pem_certificates(pem@),
{
    let mut reader = pem;
    rustls_pemfile::certs(&mut reader).map(|item| item.ok().map(|der| der.to_vec())).collect()
}

/// The anchors that a list of certificates adds to a store: one for each
/// certificate that is there and that the store accepts, in order.
pub open spec fn anchors_of(certificates: Seq<Option<Seq<u8>>>) -> Seq<TrustAnchorView>
    decreases certificates.len(),
{
    if certificates.len() == 0 {
        Seq::empty()
    } else {
        let rest = anchors_of(certificates.drop_last());
        match certificates.last() {
            Some(der) => match added_anchor(der) {
                Some(anchor) => rest.push(anchor),
                None => rest,
            },
            None => rest,
        }
    }
}

/// The anchors that one file adds: those of the certificates in its PEM
/// text, nothing for a file that could not be read.
pub open spec fn file_anchors(file: Option<Seq<u8>>) -> Seq<TrustAnchorView> {
    match file {
        Some(pem) => anchors_of(pem_certificates(pem)),
        None => Seq::empty(),
    }
}

/// The anchors that a list of files adds, file after file.
pub open spec fn files_anchors(files: Seq<Option<Seq<u8>>>) -> Seq<TrustAnchorView>
    decreases files.len(),
{
    if files.len() == 0 {
        Seq::empty()
    } else {
        files_anchors(files.drop_last()) + file_anchors(files.last())
    }
}

/// Each certificate of a list as one that is there.
pub open spec fn all_present(certificates: Seq<Seq<u8>>) -> Seq<Option<Seq<u8>>> {
    Seq::new(certificates.len(), |i: int| Some(certificates[i]))
}

/// Adds to `store` every certificate of the list that is there and that the
/// store accepts; the others are passed over.
pub fn add_certificates(store: &mut RootCertStore, certificates: &Vec<Option<Vec<u8>>>)
    ensures
        roots(*final(store)) == roots(*old(store)) + anchors_of(certificates.deep_view()),
{
    let ghost all = certificates.deep_view();
    let mut i: usize = 0;
    proof {
        lemma_prefix_ends(all);
        assert(roots(*store) =~= roots(*old(store)) + anchors_of(all.take(0)));
    }
    while i < certificates.len()
        invariant
            i <= certificates.len(),
            all == certificates.deep_view(),
            roots(*store) == roots(*old(store)) + anchors_of(all.take(i as int)),
        decreases certificates.len() - i,
    {
        proof {
            lemma_prefix_grows(all, i as int);
        }
        match &certificates[i] {
            Some(der) => {
                assert(all[i as int] == Some(der@));
                let _ = add_root(store, der.as_slice());
            },
            None => {
                assert(all[i as int] is None);
            },
        }
        assert(roots(*store) =~= roots(*old(store)) + anchors_of(all.take(i + 1)));
        i += 1;
    }
}

/// Adds the certificates of the system's store, handed over as DER bytes, to
/// `store`. A certificate that the store refuses is passed over: this never
/// fails.
pub fn load_native_certs(store: &mut RootCertStore, native_certs: &Vec<Vec<u8>>) -> (loaded: Result<
    (),
    Error,
>)
    ensures
        loaded is Ok,
        roots(*final(store)) == roots(*old(store)) + anchors_of(
            all_present(native_certs.deep_view()),
        ),
{
    let ghost all = all_present(native_certs.deep_view());
    let mut i: usize = 0;
    proof {
        lemma_prefix_ends(all);
        assert(roots(*store) =~= roots(*old(store)) + anchors_of(all.take(0)));
    }
    while i < native_certs.len()
        invariant
            i <= native_certs.len(),
            all == all_present(native_certs.deep_view()),
            roots(*store) == roots(*old(store)) + anchors_of(all.take(i as int)),
        decreases native_certs.len() - i,
    {
        proof {
            lemma_prefix_grows(all, i as int);
        }
        assert(all[i as int] == Some(native_certs[i as int]@));
        let _ = add_root(store, native_certs[i].as_slice());
        assert(roots(*store) =~= roots(*old(store)) + anchors_of(all.take(i + 1)));
        i += 1;
    }
    Ok(())
}

/// Adds the certificates found in PEM files to `store`. Each entry is the
/// content of one file, or `None` for a file that could not be read. What is
/// not a certificate, or is one that the store refuses, is passed over.
pub fn load_pem_certs(store: &mut RootCertStore, certs: &Vec<Option<Vec<u8>>>)
    ensures
        roots(*final(store)) == roots(*old(store)) + files_anchors(certs.deep_view()),
{
    let ghost all = certs.deep_view();
    let mut i: usize = 0;
    proof {
        lemma_prefix_ends(all);
        assert(roots(*store) =~= roots(*old(store)) + files_anchors(all.take(0)));
    }
    while i < certs.len()
        invariant
            i <= certs.len(),
            all == certs.deep_view(),
            roots(*store) == roots(*old(store)) + files_anchors(all.take(i as int)),
        decreases certs.len() - i,
    {
        proof {
            lemma_prefix_grows(all, i as int);
        }
        match &certs[i] {
            Some(pem) => {
                assert(all[i as int] == Some(pem@));
                let found = certificates_in_pem(pem.as_slice());
                add_certificates(store, &found);
            },
            None => {
                assert(all[i as int] is None);
            },
        }
        assert(roots(*store) =~= roots(*old(store)) + files_anchors(all.take(i + 1)));
        i += 1;
    }
}

/// The trust anchors that a client configuration verifies servers against:
/// those of the store it was built on, in the store's order.
pub uninterp spec fn trusted_roots(config: ClientConfig) -> Seq<TrustAnchorView>;

/// The certificates that a client configuration holds to present to a server
/// that asks for them, each as its DER bytes, the client's own first. Empty
/// where the configuration presents none.
pub uninterp spec fn client_certificates(config: ClientConfig) -> Seq<Seq<u8>>;

/// Builds a client configuration on `root_store` that presents no client
/// certificate: `ClientConfig::builder`, `with_root_certificates`, then
/// `with_no_client_auth`. The builder takes the crypto provider that rustls
/// was built with; with the single provider this crate enables it does not
/// fail. As the source has it, the store goes whole into the verifier of the
/// configuration, and the resolver of client certificates is one that has
/// none.
#[verifier::external_body]
fn config_without_client_auth(root_store: RootCertStore) -> (config: ClientConfig)
    ensures
        trusted_roots(config) == roots(root_store),
        client_certificates(config) == Seq::<Seq<u8>>::empty(),
{
    ClientConfig::builder().with_root_certificates(root_store).with_no_client_auth()
}

/// Builds a client configuration on `root_store` that presents the given
/// chain and key: `ClientConfig::builder`, `with_root_certificates`, then
/// `with_client_auth_cert`, whose error is handed back as its text. Whether
/// the key is accepted is rustls's to say, so nothing is claimed of that.
/// Where a configuration comes back, the source has the store go whole into
/// its verifier, and its resolver of client certificates always answer with
/// the chain as it was given.
#[verifier::external_body]
fn config_with_client_auth(
    root_store: RootCertStore,
    cert_chain: Vec<Vec<u8>>,
    key_der: PrivateKeyDer<'static>,
) -> (built: Result<ClientConfig, String>)
    ensures
        built matches Ok(config) ==> trusted_roots(config) == roots(root_store)
            && client_certificates(config) == cert_chain.deep_view(),
{
    let chain = cert_chain.into_iter().map(CertificateDer::from).collect();
    let builder = ClientConfig::builder().with_root_certificates(root_store);
    match builder.with_client_auth_cert(chain, key_der) {
        Ok(config) => Ok(config),
        Err(e) => Err(e.to_string()),
    }
}

/// The failure reported when the client's credentials are not accepted: an
/// invalid certificate whose reason is itself the text of an invalid
/// certificate with the detail that was given.
pub open spec fn config_failure(detail: Seq<char>) -> ErrorView {
    ErrorView::InvalidCertificate {
        why: (ErrorView::InvalidCertificate { why: detail }).message(),
    }
}

/// What building a configuration with client credentials came to: the
/// configuration itself, or the failure that `config_failure` describes.
pub fn config_result(built: Result<ClientConfig, String>) -> (config: Result<ClientConfig, Error>)
    ensures
        match built {
            Ok(made) => config == Ok::<ClientConfig, Error>(made),
            Err(detail) => config matches Err(e) && e@ == config_failure(detail@),
        },
{
    match built {
        Ok(made) => Ok(made),
        Err(detail) => {
            let inner = Error::InvalidCertificate { why: detail };
            Err(Error::InvalidCertificate { why: inner.to_string() })
        },
    }
}

/// The certificates that a configuration made with `client_auth` presents:
/// the chain of the credentials, none without credentials.
pub open spec fn presented_chain(
    client_auth: Option<ClientAuthenticationCredentials<'static>>,
) -> Seq<Seq<u8>> {
    match client_auth {
        Some(creds) => creds.cert_chain.deep_view(),
        None => Seq::empty(),
    }
}

/// The client configuration of a run: the given roots, and the client's
/// credentials where there are any.
///
/// A configuration that comes back verifies servers against exactly the
/// roots of `root_store`, and presents exactly the chain of the credentials,
/// or no certificate where there are none. Without credentials this always
/// succeeds. With credentials it fails, as `config_failure` describes, when
/// they are not accepted.
pub fn safe_clientconfig(
    root_store: RootCertStore,
    client_auth: Option<ClientAuthenticationCredentials<'static>>,
) -> (config: Result<ClientConfig, Error>)
    ensures
        client_auth is None ==> config is Ok,
        config matches Ok(made) ==> trusted_roots(made) == roots(root_store)
            && client_certificates(made) == presented_chain(client_auth),
        config matches Err(e) ==> exists|detail: Seq<char>| e@ == #[trigger] config_failure(detail),
{
    match client_auth {
        Some(creds) => {
            let built = config_with_client_auth(root_store, creds.cert_chain, creds.key_der);
            let ghost detail = if built is Err { built->Err_0@ } else { Seq::<char>::empty() };
            let config = config_result(built);
            assert(config matches Err(e) ==> e@ == config_failure(detail));
            config
        },
        None => Ok(config_without_client_auth(root_store)),
    }
}

} // verus!
