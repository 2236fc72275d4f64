//! Certificate records: normalization, validity filtering, and the
//! classification of the provider's known transient parse fault.
//!
//! A record is valid only if its certificate identifier and serial number
//! are both non-empty; invalid records are dropped before being surfaced,
//! never silently kept.

use vstd::prelude::*;
use crate::text::{contains_chars, contains_seq, trim_chars, trim_spec};

verus! {

broadcast use Seq::lemma_filter_push, Seq::lemma_push_map_commute, Seq::lemma_take_succ_push;

/// One development certificate as surfaced to the user.
#[derive(Debug, PartialEq, Eq)]
pub struct CertificateInfo {
    pub name: String,
    pub certificate_id: String,
    pub serial_number: String,
    pub machine_name: String,
    pub machine_id: String,
}

/// The mathematical shadow of a certificate record.
pub struct CertificateView {
    pub name: Seq<char>,
    pub certificate_id: Seq<char>,
    pub serial_number: Seq<char>,
    pub machine_name: Seq<char>,
    pub machine_id: Seq<char>,
}

impl View for CertificateInfo {
    type V = CertificateView;

    open spec fn view(&self) -> CertificateView {
        CertificateView {
            name: self.name@,
            certificate_id: self.certificate_id@,
            serial_number: self.serial_number@,
            machine_name: self.machine_name@,
            machine_id: self.machine_id@,
        }
    }
}

impl CertificateInfo {
    /// A second record equal to this one.
    pub fn duplicate(&self) -> (r: CertificateInfo)
        ensures
            r == *self,
    {
        CertificateInfo {
            name: self.name.clone(),
            certificate_id: self.certificate_id.clone(),
            serial_number: self.serial_number.clone(),
            machine_name: self.machine_name.clone(),
            machine_id: self.machine_id.clone(),
        }
    }
}

/// A record assembled from decoded fields. A machine identifier the
/// transport omitted becomes the empty string: defaulted, not omitted.
pub fn certificate_from_parts(
    name: String,
    certificate_id: String,
    serial_number: String,
    machine_name: String,
    machine_id: Option<String>,
) -> (r: CertificateInfo)
    ensures
        r.name == name,
        r.certificate_id == certificate_id,
        r.serial_number == serial_number,
        r.machine_name == machine_name,
        match machine_id {
            Some(m) => r.machine_id == m,
            None => r.machine_id@ == Seq::<char>::empty(),
        },
{
    let machine_id = match machine_id {
        Some(m) => m,
        None => String::new(),
    };
    CertificateInfo { name, certificate_id, serial_number, machine_name, machine_id }
}

/// A record is valid only if certificate identifier and serial number are
/// both non-empty.
pub open spec fn certificate_is_valid(v: CertificateView) -> bool {
    v.certificate_id.len() > 0 && v.serial_number.len() > 0
}

/// The name a certificate gets when the provider sent none.
pub open spec fn default_certificate_name() -> Seq<char> {
    "Unknown Certificate"@
}

/// A record's normal form: an empty name is replaced by the default, the
/// machine identifier is trimmed of surrounding whitespace, every other
/// field is kept as it came. A missing machine identifier stays an empty
/// string — defaulted, not omitted.
pub open spec fn normalize_view(v: CertificateView) -> CertificateView {
    CertificateView {
        name: if v.name.len() == 0 {
            default_certificate_name()
        } else {
            v.name
        },
        machine_id: trim_spec(v.machine_id),
        ..v
    }
}

/// The views of a sequence of records.
pub open spec fn views_of(certs: Seq<CertificateInfo>) -> Seq<CertificateView> {
    certs.map_values(|c: CertificateInfo| c@)
}

/// Validity as a first-class predicate, for `filter`.
pub open spec fn cert_valid_pred() -> spec_fn(CertificateView) -> bool {
    |v: CertificateView| certificate_is_valid(v)
}

/// The normal forms of a sequence of record views.
pub open spec fn normalized_views(vs: Seq<CertificateView>) -> Seq<CertificateView> {
    vs.map_values(|v: CertificateView| normalize_view(v))
}

/// The valid record views, in order.
pub open spec fn valid_views(vs: Seq<CertificateView>) -> Seq<CertificateView> {
    vs.filter(cert_valid_pred())
}

/// Brings one record into its normal form.
pub fn normalize_certificate(cert: CertificateInfo) -> (r: CertificateInfo)
    ensures
        r@ == normalize_view(cert@),
{
    let name = if cert.name.as_str().is_empty() {
        "Unknown Certificate".to_owned()
    } else {
        cert.name
    };
    let machine_id = trim_chars(cert.machine_id.as_str());
    CertificateInfo {
        name,
        certificate_id: cert.certificate_id,
        serial_number: cert.serial_number,
        machine_name: cert.machine_name,
        machine_id,
    }
}

/// Keeps exactly the valid records, in order.
pub fn filter_valid_certificates(certs: Vec<CertificateInfo>) -> (r: Vec<CertificateInfo>)
    ensures
        views_of(r@) == valid_views(views_of(certs@)),
{
    let mut rest = certs;
    let mut out: Vec<CertificateInfo> = Vec::new();
    let ghost all = rest@;
    let total = rest.len();
    proof {
        assert(views_of(out@) =~= valid_views(views_of(all.take(0))));
    }
    let mut i: usize = 0;
    while rest.len() > 0
        invariant
            total as int == all.len(),
            i + rest@.len() == all.len(),
            rest@ == all.skip(i as int),
            views_of(out@) == valid_views(views_of(all.take(i as int))),
        decreases rest@.len(),
    {
        let cert = rest.remove(0);
        let ghost out_prev = out@;
        proof {
            assert(cert == all[i as int]);
            assert(rest@ =~= all.skip(i as int + 1));
            let prev = views_of(all.take(i as int));
            assert(views_of(all.take(i as int + 1)) == views_of(all.take(i as int).push(cert)));
            assert(views_of(all.take(i as int + 1)) == prev.push(cert@));
            assert(valid_views(prev.push(cert@)) == if certificate_is_valid(cert@) {
                valid_views(prev).push(cert@)
            } else {
                valid_views(prev)
            });
        }
        if !cert.certificate_id.as_str().is_empty() && !cert.serial_number.as_str().is_empty() {
            out.push(cert);
            proof {
                assert(views_of(out@) =~= views_of(out_prev).push(cert@));
            }
        }
        i += 1;
    }
    proof {
        assert(all.take(i as int) =~= all);
    }
    out
}

/// Fetched records as surfaced to the user: each brought into its normal
/// form, then every invalid one dropped.
pub fn process_certificates(raw: Vec<CertificateInfo>) -> (r: Vec<CertificateInfo>)
    ensures
        views_of(r@) == valid_views(normalized_views(views_of(raw@))),
{
    let mut rest = raw;
    let mut normalized: Vec<CertificateInfo> = Vec::new();
    let ghost all = rest@;
    let total = rest.len();
    proof {
        assert(views_of(normalized@) =~= normalized_views(views_of(all.take(0))));
    }
    let mut i: usize = 0;
    while rest.len() > 0
        invariant
            total as int == all.len(),
            i + rest@.len() == all.len(),
            rest@ == all.skip(i as int),
            views_of(normalized@) == normalized_views(views_of(all.take(i as int))),
        decreases rest@.len(),
    {
        let cert = rest.remove(0);
        let ghost normalized_prev = normalized@;
        proof {
            assert(cert == all[i as int]);
            assert(rest@ =~= all.skip(i as int + 1));
        }
        let n = normalize_certificate(cert);
        normalized.push(n);
        proof {
            let prev = views_of(all.take(i as int));
            assert(views_of(all.take(i as int + 1)) == views_of(all.take(i as int).push(cert)));
            assert(views_of(all.take(i as int + 1)) == prev.push(cert@));
            assert(normalized_views(prev.push(cert@)) == normalized_views(prev).push(
                normalize_view(cert@),
            ));
            assert(views_of(normalized@) == views_of(normalized_prev).push(n@));
            assert(views_of(normalized@) == normalized_views(views_of(all.take(i as int + 1))));
        }
        i += 1;
    }
    proof {
        assert(all.take(i as int) =~= all);
        assert(views_of(normalized@) == normalized_views(views_of(all)));
    }
    filter_valid_certificates(normalized)
}

/// Law: a record whose certificate identifier or serial number is empty is
/// excluded from the surfaced set; a valid record is kept.
pub proof fn lemma_certificate_filtering(views: Seq<CertificateView>, i: int)
    requires
        0 <= i < views.len(),
    ensures
        !certificate_is_valid(views[i]) ==> !valid_views(views).contains(views[i]),
        certificate_is_valid(views[i]) ==> valid_views(views).contains(views[i]),
{
    let pred = cert_valid_pred();
    let filtered = views.filter(pred);
    assert(valid_views(views) == filtered);
    if !certificate_is_valid(views[i]) && filtered.contains(views[i]) {
        let j = choose|j: int| 0 <= j < filtered.len() && filtered[j] == views[i];
        views.lemma_filter_pred(pred, j);
    }
    if certificate_is_valid(views[i]) {
        views.lemma_filter_contains(pred, i);
    }
}

/// Whether a provider failure text matches the known transient
/// parse-fault pattern: historical markers of upstream format drift. Such
/// a failure degrades to a partial result in bulk flows; everywhere else
/// it carries remediation steps.
pub open spec fn is_transient_parse_fault(detail: Seq<char>) -> bool {
    ||| contains_seq(detail, "machineId"@)
    ||| contains_seq(detail, "Parse"@)
    ||| contains_seq(detail, "machineld"@)
}

/// Classifies a provider failure text against the known transient
/// parse-fault markers.
pub fn detect_transient_parse_fault(detail: &str) -> (r: bool)
    ensures
        r == is_transient_parse_fault(detail@),
{
    contains_chars(detail, "machineId") || contains_chars(detail, "Parse") || contains_chars(
        detail,
        "machineld",
    )
}

/// The user-visible message for a certificate fetch that failed on the
/// transient parse fault, with its remediation steps.
pub fn certificate_parse_fault_message(detail: &str) -> (r: String)
    ensures
        r@ == "Failed to parse certificates from Apple API. This may be due to an API format change.\n\nError details: "@
            + detail@
            + "\n\nPossible solutions:\n1. Log out and log back in to refresh your session\n2. Revoke all existing certificates and create new ones\n3. Check for updates to iloader\n4. Report this issue to the iloader developers with the error details"@,
{
    String::from_str(
        "Failed to parse certificates from Apple API. This may be due to an API format change.\n\nError details: ",
    ).concat(detail).concat(
        "\n\nPossible solutions:\n1. Log out and log back in to refresh your session\n2. Revoke all existing certificates and create new ones\n3. Check for updates to iloader\n4. Report this issue to the iloader developers with the error details",
    )
}

/// The user-visible message for any other certificate fetch failure.
pub fn certificate_fetch_error_message(detail: &str) -> (r: String)
    ensures
        r@ == "Failed to get development certificates: "@ + detail@,
{
    String::from_str("Failed to get development certificates: ").concat(detail)
}

/// What a failed certificate fetch tells the user: the known transient
/// parse fault gets its remediation steps, anything else the plain
/// failure text.
pub fn certificate_fetch_failure_message(detail: &str) -> (r: String)
    ensures
        is_transient_parse_fault(detail@) ==> r@
            == "Failed to parse certificates from Apple API. This may be due to an API format change.\n\nError details: "@
            + detail@
            + "\n\nPossible solutions:\n1. Log out and log back in to refresh your session\n2. Revoke all existing certificates and create new ones\n3. Check for updates to iloader\n4. Report this issue to the iloader developers with the error details"@,
        !is_transient_parse_fault(detail@) ==> r@ == "Failed to get development certificates: "@
            + detail@,
{
    if detect_transient_parse_fault(detail) {
        certificate_parse_fault_message(detail)
    } else {
        certificate_fetch_error_message(detail)
    }
}

} // verus!
