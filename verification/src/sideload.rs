//! Sideload workflow decisions: which artifact to install, and how a
//! sideload failure is described to the user.
//!
//! The download, the device work and the signing happen outside this
//! crate; the library picks the artifact for the requested flavour and
//! turns the provider's failure into the message the user sees.

use vstd::prelude::*;
use crate::certs::{detect_transient_parse_fault, is_transient_parse_fault};

verus! {

/// A sideload failure as this library reads it: the provider's
/// certificate complaint, or free text for everything else.
#[derive(Debug, PartialEq, Eq)]
pub enum SideloadFailure {
    Certificate(String),
    Other(String),
}

/// The free-text part of a sideload failure.
pub open spec fn sideload_failure_detail(e: SideloadFailure) -> Seq<char> {
    match e {
        SideloadFailure::Certificate(s) => s@,
        SideloadFailure::Other(s) => s@,
    }
}

/// The provider's exact complaint when the account holds too many
/// certificates.
pub open spec fn is_too_many_certificates(e: SideloadFailure) -> bool {
    e matches SideloadFailure::Certificate(s) && s@ == "You have too many certificates!"@
}

/// The message a failed sideload surfaces: the certificate-quota
/// complaint gets its remediation, the known transient parse fault gets
/// its explanation with the technical details appended, and anything else
/// is passed through unchanged.
pub fn sideload_failure_message(e: SideloadFailure) -> (r: String)
    ensures
        is_too_many_certificates(e) ==> r@
            == "You have too many certificates. Revoke one by clicking \"Certificates\" and \"Revoke\"."@,
        !is_too_many_certificates(e) && is_transient_parse_fault(sideload_failure_detail(e)) ==> r@
            == "Failed to parse certificate data from Apple API (machineId parsing error).\n\nThis is a known issue that may occur due to changes in Apple's API format.\n\nPossible solutions:\n1. Try logging out and logging back in\n2. Revoke all existing certificates and create new ones\n3. Check for updates to iloader\n4. Report this issue to the iloader developers\n\nTechnical details: "@
            + sideload_failure_detail(e),
        !is_too_many_certificates(e) && !is_transient_parse_fault(sideload_failure_detail(e))
            ==> r@ == sideload_failure_detail(e),
{
    let detail = match e {
        SideloadFailure::Certificate(s) => {
            let marker = String::from_str("You have too many certificates!");
            if s == marker {
                return String::from_str(
                    "You have too many certificates. Revoke one by clicking \"Certificates\" and \"Revoke\".",
                );
            }
            s
        },
        SideloadFailure::Other(s) => s,
    };
    if detect_transient_parse_fault(detail.as_str()) {
        String::from_str(
            "Failed to parse certificate data from Apple API (machineId parsing error).\n\nThis is a known issue that may occur due to changes in Apple's API format.\n\nPossible solutions:\n1. Try logging out and logging back in\n2. Revoke all existing certificates and create new ones\n3. Check for updates to iloader\n4. Report this issue to the iloader developers\n\nTechnical details: ",
        ).concat(detail.as_str())
    } else {
        detail
    }
}

/// The artifact a requested flavour installs: its local file name and the
/// address it is fetched from.
pub fn sidestore_artifact(nightly: bool, live_container: bool) -> (r: (String, String))
    ensures
        live_container && nightly ==> r.0@ == "LiveContainerSideStore-Nightly.ipa"@ && r.1@
            == "https://github.com/LiveContainer/LiveContainer/releases/download/nightly/LiveContainer+SideStore.ipa"@,
        live_container && !nightly ==> r.0@ == "LiveContainerSideStore.ipa"@ && r.1@
            == "https://github.com/LiveContainer/LiveContainer/releases/latest/download/LiveContainer+SideStore.ipa"@,
        !live_container && nightly ==> r.0@ == "SideStore-Nightly.ipa"@ && r.1@
            == "https://github.com/SideStore/SideStore/releases/download/nightly/SideStore.ipa"@,
        !live_container && !nightly ==> r.0@ == "SideStore.ipa"@ && r.1@
            == "https://github.com/SideStore/SideStore/releases/latest/download/SideStore.ipa"@,
{
    if live_container {
        if nightly {
            (
                String::from_str("LiveContainerSideStore-Nightly.ipa"),
                String::from_str(
                    "https://github.com/LiveContainer/LiveContainer/releases/download/nightly/LiveContainer+SideStore.ipa",
                ),
            )
        } else {
            (
                String::from_str("LiveContainerSideStore.ipa"),
                String::from_str(
                    "https://github.com/LiveContainer/LiveContainer/releases/latest/download/LiveContainer+SideStore.ipa",
                ),
            )
        }
    } else if nightly {
        (
            String::from_str("SideStore-Nightly.ipa"),
            String::from_str(
                "https://github.com/SideStore/SideStore/releases/download/nightly/SideStore.ipa",
            ),
        )
    } else {
        (
            String::from_str("SideStore.ipa"),
            String::from_str(
                "https://github.com/SideStore/SideStore/releases/latest/download/SideStore.ipa",
            ),
        )
    }
}

} // verus!
