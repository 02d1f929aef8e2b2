//! The verdict of the attestation service on a quote.

use vstd::prelude::*;
use vstd::std_specs::convert::FromSpecImpl;

verus! {

/// What the attestation service says of the platform that made a quote.
#[derive(Clone, Copy, Debug, PartialEq, Eq, Structural)]
pub enum SgxQuoteStatus {
    /// The quote is valid and the platform is up to date.
    OK,
    /// The quote is valid, but the platform's EPID group is out of date.
    GroupOutOfDate,
    /// The quote is valid, but the platform needs further configuration.
    ConfigurationNeeded,
    /// Any other status; the service adds values over time.
    UnknownBadStatus,
}

/// The status that the text `s` of the service stands for.
///
/// Three spellings are recognised; every other text is
/// [`SgxQuoteStatus::UnknownBadStatus`].
pub open spec fn quote_status_of(s: Seq<char>) -> SgxQuoteStatus {
    if s == "OK"@ {
        SgxQuoteStatus::OK
    } else if s == "GROUP_OUT_OF_DATE"@ {
        SgxQuoteStatus::GroupOutOfDate
    } else if s == "CONFIGURATION_NEEDED"@ {
        SgxQuoteStatus::ConfigurationNeeded
    } else {
        SgxQuoteStatus::UnknownBadStatus
    }
}

/// Each recognised status has exactly one spelling, and a text is
/// [`SgxQuoteStatus::UnknownBadStatus`] exactly when it is none of the three.
pub proof fn lemma_quote_status_spellings(s: Seq<char>)
    ensures
        quote_status_of(s) == SgxQuoteStatus::OK <==> s == "OK"@,
        quote_status_of(s) == SgxQuoteStatus::GroupOutOfDate <==> s == "GROUP_OUT_OF_DATE"@,
        quote_status_of(s) == SgxQuoteStatus::ConfigurationNeeded <==> s
            == "CONFIGURATION_NEEDED"@,
        quote_status_of(s) == SgxQuoteStatus::UnknownBadStatus <==> s != "OK"@ && s
            != "GROUP_OUT_OF_DATE"@ && s != "CONFIGURATION_NEEDED"@,
{
    reveal_strlit("OK");
    reveal_strlit("GROUP_OUT_OF_DATE");
    reveal_strlit("CONFIGURATION_NEEDED");
    assert("OK"@.len() == 2);
    assert("GROUP_OUT_OF_DATE"@.len() == 17);
    assert("CONFIGURATION_NEEDED"@.len() == 20);
}

/// Whether two texts hold the same characters.
pub fn same_text(a: &str, b: &str) -> (same: bool)
    ensures
        same == (a@ == b@),
{
    let n = a.unicode_len();
    if n != b.unicode_len() {
        return false;
    }
    let mut i: usize = 0;
    while i < n
        invariant
            i <= n,
            n == a@.len(),
            n == b@.len(),
            forall|j: int| 0 <= j < i ==> a@[j] == b@[j],
        decreases n - i,
    {
        if a.get_char(i) != b.get_char(i) {
            return false;
        }
        i = i + 1;
    }
    assert(a@ =~= b@);
    true
}

impl From<&str> for SgxQuoteStatus {
    /// Reads the status text of the attestation service.
    fn from(status: &str) -> (r: Self) {
        if same_text(status, "OK") {
            SgxQuoteStatus::OK
        } else if same_text(status, "GROUP_OUT_OF_DATE") {
            SgxQuoteStatus::GroupOutOfDate
        } else if same_text(status, "CONFIGURATION_NEEDED") {
            SgxQuoteStatus::ConfigurationNeeded
        } else {
            SgxQuoteStatus::UnknownBadStatus
        }
    }
}

impl FromSpecImpl<&str> for SgxQuoteStatus {
    open spec fn obeys_from_spec() -> bool {
        true
    }

    open spec fn from_spec(status: &str) -> Self {
        quote_status_of(status@)
    }
}

} // verus!
