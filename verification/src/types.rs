//! The number of days a certificate has left.

use vstd::prelude::*;

use crate::text::{decimal, signed_to_string};

verus! {

/// Whole days from now until a certificate's not-after instant. Negative once
/// the certificate has expired.
#[derive(Debug, PartialEq, Eq, Structural, PartialOrd, Ord)]
pub struct DaysToExpiration(pub i64);

impl View for DaysToExpiration {
    type V = int;

    open spec fn view(&self) -> int {
        self.0 as int
    }
}

impl DaysToExpiration {
    /// The number in decimal, as it is shown to the user.
    pub fn to_string(&self) -> (s: String)
        ensures
            s@ == decimal(self@),
    {
        signed_to_string(self.0)
    }
}

} // verus!
