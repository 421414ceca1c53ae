//! The options of a run, and what they ask for.

use std::path::PathBuf;

use vstd::prelude::*;

verus! {

/// The threshold used where none is given: a certificate must have more than
/// this many days left.
pub const DEFAULT_DAYS_TO_EXPIRATION: i64 = 5;

/// `std::path::PathBuf`, the name of a file. Carried through, never looked
/// into.
#[verifier::external_type_specification]
#[verifier::external_body]
pub struct ExPathBuf(PathBuf);

/// The options of a run.
#[derive(Debug)]
pub struct Args {
    /// A certificate fails unless it has more than this many days left.
    pub days_to_expiration: i64,
    /// Files of PEM root certificates to trust instead of the system's store.
    pub custom_ca_certs: Vec<PathBuf>,
    /// Trust the system's store as well where custom roots are given.
    pub force_system_root_store: bool,
    /// Files of the client's PEM certificate chain.
    pub client_cert_chain: Vec<PathBuf>,
    /// File of the client's private key.
    pub client_keyfile: Option<PathBuf>,
    /// Report as JSON rather than as lines of text.
    pub json: bool,
    /// The hosts to check.
    pub hosts: Vec<String>,
}

/// Where the trust roots of a run come from.
#[derive(Debug, Clone, Copy, PartialEq, Eq, Structural)]
pub struct TrustSources {
    /// The files named as custom roots are loaded.
    pub custom: bool,
    /// The system's store is loaded.
    pub native: bool,
}

impl Args {
    /// Where the trust roots come from: the system's store when no custom
    /// roots are named; otherwise the custom roots, and the system's store
    /// too only if it is forced.
    pub open spec fn spec_trust_sources(&self) -> TrustSources {
        if self.custom_ca_certs@.len() == 0 {
            TrustSources { custom: false, native: true }
        } else {
            TrustSources { custom: true, native: self.force_system_root_store }
        }
    }

    /// Where the trust roots come from.
    pub fn trust_sources(&self) -> (sources: TrustSources)
        ensures
            sources == self.spec_trust_sources(),
            sources.custom || sources.native,
    {
        if self.custom_ca_certs.len() == 0 {
            TrustSources { custom: false, native: true }
        } else {
            TrustSources { custom: true, native: self.force_system_root_store }
        }
    }

    /// Whether the client authenticates itself: only with both a key file
    /// and at least one certificate file.
    pub fn wants_client_auth(&self) -> (wanted: bool)
        ensures
            wanted == (self.client_keyfile is Some && self.client_cert_chain@.len() > 0),
    {
        self.client_keyfile.is_some() && self.client_cert_chain.len() > 0
    }
}

} // verus!
