//! The one fact a check needs from an X.509 certificate: when it stops being
//! valid.

use vstd::prelude::*;
use x509_parser::prelude::{FromDer, X509Certificate};

use crate::clock::UnixTime;

verus! {

/// What parsing `der` as an X.509 certificate gives: the not-after instant of
/// the certificate, or the parser's description of why the bytes are not a
/// certificate. The parser decides this from the bytes alone.
pub uninterp spec fn leaf_not_after(der: Seq<u8>) -> Result<UnixTime, Seq<char>>;

/// The mathematical content of a parse result.
pub open spec fn parsed_view(parsed: Result<UnixTime, String>) -> Result<UnixTime, Seq<char>> {
    match parsed {
        Ok(not_after) => Ok(not_after),
        Err(detail) => Err(detail@),
    }
}

/// Parses `der` with `x509_parser`'s `X509Certificate::from_der` and reads
/// the not-after field of the validity. The contract only names the outcome:
/// it is `leaf_not_after` of the bytes, the error being the text that the
/// parser's error displays.
#[verifier::external_body]
pub(crate) fn parse_not_after(der: &[u8]) -> (parsed: Result<UnixTime, String>)
    ensures
        parsed_view(parsed) == leaf_not_after(der@),
{
    match X509Certificate::from_der(der) {
        Ok((_, certificate)) => {
            let not_after = certificate.tbs_certificate.validity().not_after.to_datetime();
            Ok(UnixTime { seconds: not_after.unix_timestamp(), nanoseconds: not_after.nanosecond() })
        },
        Err(e) => Err(e.to_string()),
    }
}

} // verus!
