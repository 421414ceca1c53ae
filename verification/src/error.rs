//! What can go wrong while a host is checked, and how each failure reads.

use vstd::prelude::*;
use vstd::string::*;

use crate::text::{decimal, decimal_digits, push_signed, push_unsigned};

verus! {

/// A failure of a check, or of the run as a whole.
#[allow(dead_code)]
#[derive(Debug)]
pub enum Error {
    /// The TLS session for a host could not be set up.
    TLSInitializationFailure { why: String },
    /// The handshake failed, or the leaf certificate could not be parsed.
    InvalidCertificate { why: String },
    /// The client's private key could not be used.
    InvalidPrivateKey { why: String },
    /// The client's credentials could not be used.
    InvalidCredentials { why: String },
    /// The certificate does not outlast the threshold.
    AlmostExpiredCertificate { days_to_expiration: i64, max_days_to_expiration: i64 },
    /// The peer presented no certificate.
    NoCertificate,
    /// The host could not be reached.
    ConnectionFailure { hostname: String, details: String },
    /// At least one host did not pass.
    CertoTestFailure(usize),
    /// The host name is neither a DNS name nor an IP address.
    InvalidHostname { hostname: String, details: String },
    /// The results could not be written as JSON.
    JsonSerializationFailure { why: String },
}

/// The mathematical content of an [`Error`]: texts as sequences of
/// characters, numbers as integers.
pub enum ErrorView {
    TLSInitializationFailure { why: Seq<char> },
    InvalidCertificate { why: Seq<char> },
    InvalidPrivateKey { why: Seq<char> },
    InvalidCredentials { why: Seq<char> },
    AlmostExpiredCertificate { days_to_expiration: int, max_days_to_expiration: int },
    NoCertificate,
    ConnectionFailure { hostname: Seq<char>, details: Seq<char> },
    CertoTestFailure(nat),
    InvalidHostname { hostname: Seq<char>, details: Seq<char> },
    JsonSerializationFailure { why: Seq<char> },
}

impl View for Error {
    type V = ErrorView;

    open spec fn view(&self) -> ErrorView {
        match *self {
            Error::TLSInitializationFailure { why } => ErrorView::TLSInitializationFailure {
                why: why@,
            },
            Error::InvalidCertificate { why } => ErrorView::InvalidCertificate { why: why@ },
            Error::InvalidPrivateKey { why } => ErrorView::InvalidPrivateKey { why: why@ },
            Error::InvalidCredentials { why } => ErrorView::InvalidCredentials { why: why@ },
            Error::AlmostExpiredCertificate {
                days_to_expiration,
                max_days_to_expiration,
            } => ErrorView::AlmostExpiredCertificate {
                days_to_expiration: days_to_expiration as int,
                max_days_to_expiration: max_days_to_expiration as int,
            },
            Error::NoCertificate => ErrorView::NoCertificate,
            Error::ConnectionFailure { hostname, details } => ErrorView::ConnectionFailure {
                hostname: hostname@,
                details: details@,
            },
            Error::CertoTestFailure(failed) => ErrorView::CertoTestFailure(failed as nat),
            Error::InvalidHostname { hostname, details } => ErrorView::InvalidHostname {
                hostname: hostname@,
                details: details@,
            },
            Error::JsonSerializationFailure { why } => ErrorView::JsonSerializationFailure {
                why: why@,
            },
        }
    }
}

impl ErrorView {
    /// The text shown to the user for this failure.
    pub open spec fn message(self) -> Seq<char> {
        match self {
            ErrorView::TLSInitializationFailure { why } => "Failed to initialize TLS context: "@
                + why,
            ErrorView::InvalidCertificate { why } => "Invalid Certificate: "@ + why + "."@,
            ErrorView::InvalidPrivateKey { why } => "Invalid Private Key: "@ + why + "."@,
            ErrorView::InvalidCredentials { why } => "Invalid Credentials: "@ + why + "."@,
            ErrorView::AlmostExpiredCertificate { days_to_expiration, max_days_to_expiration } => {
                "Certificate about to expire in "@ + decimal(days_to_expiration) + " days < "@
                    + decimal(max_days_to_expiration)
            },
            ErrorView::NoCertificate => "No certificate was found."@,
            ErrorView::ConnectionFailure { hostname, details } => "Could not connect to host "@
                + hostname + ": "@ + details,
            ErrorView::CertoTestFailure(failed) => "Some ("@ + decimal_digits(failed)
                + ") tests failed"@,
            ErrorView::InvalidHostname { hostname, details } => "Invalid hostname: "@ + hostname
                + " - "@ + details,
            ErrorView::JsonSerializationFailure { why } => "JSON serialization failed: "@ + why,
        }
    }
}

impl Error {
    /// The text shown to the user for this failure.
    pub fn to_string(&self) -> (s: String)
        ensures
            s@ == self@.message(),
    {
        match self {
            Error::TLSInitializationFailure { why } => {
                let mut s = String::from_str("Failed to initialize TLS context: ");
                s.append(why.as_str());
                s
            },
            Error::InvalidCertificate { why } => {
                let mut s = String::from_str("Invalid Certificate: ");
                s.append(why.as_str());
                s.append(".");
                s
            },
            Error::InvalidPrivateKey { why } => {
                let mut s = String::from_str("Invalid Private Key: ");
                s.append(why.as_str());
                s.append(".");
                s
            },
            Error::InvalidCredentials { why } => {
                let mut s = String::from_str("Invalid Credentials: ");
                s.append(why.as_str());
                s.append(".");
                s
            },
            Error::AlmostExpiredCertificate { days_to_expiration, max_days_to_expiration } => {
                let mut s = String::from_str("Certificate about to expire in ");
                push_signed(&mut s, *days_to_expiration);
                s.append(" days < ");
                push_signed(&mut s, *max_days_to_expiration);
                s
            },
            Error::NoCertificate => String::from_str("No certificate was found."),
            Error::ConnectionFailure { hostname, details } => {
                let mut s = String::from_str("Could not connect to host ");
                s.append(hostname.as_str());
                s.append(": ");
                s.append(details.as_str());
                s
            },
            Error::CertoTestFailure(failed) => {
                let mut s = String::from_str("Some (");
                push_unsigned(&mut s, *failed as u64);
                s.append(") tests failed");
                s
            },
            Error::InvalidHostname { hostname, details } => {
                let mut s = String::from_str("Invalid hostname: ");
                s.append(hostname.as_str());
                s.append(" - ");
                s.append(details.as_str());
                s
            },
            Error::JsonSerializationFailure { why } => {
                let mut s = String::from_str("JSON serialization failed: ");
                s.append(why.as_str());
                s
            },
        }
    }
}

} // verus!
