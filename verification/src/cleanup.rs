//! Best-effort bulk cleanup accounting.
//!
//! Cleanup walks two independent collections — certificates, then
//! identifiers — performing a destructive action per entity. A per-entity
//! failure is recorded and iteration continues; only a failure to fetch a
//! collection is fatal, and even that degrades to a partial result when it
//! matches the known transient parse fault. The remote calls happen
//! outside this crate; the library keeps the ledger.

use vstd::prelude::*;
use crate::certs::is_transient_parse_fault;
use crate::certs::detect_transient_parse_fault;

verus! {

/// The ledger of one bulk cleanup: how many entities each phase disposed
/// of, and one description per failure, in the order the failures
/// happened. Never rolled back.
#[derive(Debug, PartialEq, Eq)]
pub struct CleanupResult {
    pub certificates_revoked: u32,
    pub app_ids_deleted: u32,
    pub errors: Vec<String>,
}

/// The views of the recorded failure descriptions.
pub open spec fn error_texts(errors: Seq<String>) -> Seq<Seq<char>> {
    errors.map_values(|s: String| s@)
}

/// The description recorded when revoking one certificate fails.
pub open spec fn revoke_failure_text(name: Seq<char>, detail: Seq<char>) -> Seq<char> {
    "Failed to revoke certificate "@ + name + ": "@ + detail
}

/// The description recorded when deleting one identifier fails.
pub open spec fn delete_failure_text(name: Seq<char>, detail: Seq<char>) -> Seq<char> {
    "Failed to delete App ID "@ + name + ": "@ + detail
}

/// The description recorded when the certificate fetch fails on the known
/// transient parse fault and cleanup degrades to a partial result.
pub open spec fn cleanup_fetch_failure_text(detail: Seq<char>) -> Seq<char> {
    "Failed to fetch certificates for cleanup due to parsing error: "@ + detail
        + ". You may need to manually revoke certificates through Apple Developer Portal."@
}

/// How many per-entity outcomes succeeded.
pub open spec fn ok_count(outcomes: Seq<(String, Result<(), String>)>) -> nat
    decreases outcomes.len(),
{
    if outcomes.len() == 0 {
        0
    } else {
        (if outcomes[0].1 is Ok {
            1nat
        } else {
            0nat
        }) + ok_count(outcomes.skip(1))
    }
}

/// The descriptions the revoke phase records for these outcomes, in
/// order.
pub open spec fn revoke_failure_texts(outcomes: Seq<(String, Result<(), String>)>) -> Seq<
    Seq<char>,
>
    decreases outcomes.len(),
{
    if outcomes.len() == 0 {
        Seq::empty()
    } else {
        (match outcomes[0].1 {
            Ok(_) => Seq::empty(),
            Err(d) => seq![revoke_failure_text(outcomes[0].0@, d@)],
        }) + revoke_failure_texts(outcomes.skip(1))
    }
}

/// The descriptions the delete phase records for these outcomes, in
/// order.
pub open spec fn delete_failure_texts(outcomes: Seq<(String, Result<(), String>)>) -> Seq<
    Seq<char>,
>
    decreases outcomes.len(),
{
    if outcomes.len() == 0 {
        Seq::empty()
    } else {
        (match outcomes[0].1 {
            Ok(_) => Seq::empty(),
            Err(d) => seq![delete_failure_text(outcomes[0].0@, d@)],
        }) + delete_failure_texts(outcomes.skip(1))
    }
}

/// The description of a failed revoke of the named certificate.
pub fn revoke_failure_message(name: &str, detail: &str) -> (r: String)
    ensures
        r@ == revoke_failure_text(name@, detail@),
{
    String::from_str("Failed to revoke certificate ").concat(name).concat(": ").concat(detail)
}

/// The description of a failed delete of the named identifier.
pub fn delete_failure_message(name: &str, detail: &str) -> (r: String)
    ensures
        r@ == delete_failure_text(name@, detail@),
{
    String::from_str("Failed to delete App ID ").concat(name).concat(": ").concat(detail)
}

/// The fatal message when the certificate fetch fails and the failure is
/// not the transient parse fault.
pub fn certificates_fetch_fatal_message(detail: &str) -> (r: String)
    ensures
        r@ == "Failed to get certificates: "@ + detail@,
{
    String::from_str("Failed to get certificates: ").concat(detail)
}

/// The fatal message when the identifier listing fails; that phase has no
/// transient degradation.
pub fn app_ids_fetch_fatal_message(detail: &str) -> (r: String)
    ensures
        r@ == "Failed to list App IDs: "@ + detail@,
{
    String::from_str("Failed to list App IDs: ").concat(detail)
}

impl CleanupResult {
    /// An empty ledger.
    pub fn new() -> (r: CleanupResult)
        ensures
            r.certificates_revoked == 0,
            r.app_ids_deleted == 0,
            r.errors@ =~= Seq::<String>::empty(),
    {
        CleanupResult { certificates_revoked: 0, app_ids_deleted: 0, errors: Vec::new() }
    }

    /// Decides what a failed certificate fetch means for cleanup: the
    /// known transient parse fault is recorded and cleanup may return the
    /// ledger gathered so far (the result is `true`); any other fetch
    /// failure leaves the ledger untouched and is fatal (`false`).
    pub fn note_certificate_fetch_failure(&mut self, detail: &str) -> (r: bool)
        ensures
            r == is_transient_parse_fault(detail@),
            final(self).certificates_revoked == old(self).certificates_revoked,
            final(self).app_ids_deleted == old(self).app_ids_deleted,
            if is_transient_parse_fault(detail@) {
                error_texts(final(self).errors@) == error_texts(old(self).errors@).push(
                    cleanup_fetch_failure_text(detail@),
                )
            } else {
                *final(self) == *old(self)
            },
    {
        if detect_transient_parse_fault(detail) {
            let ghost errors_prev = self.errors@;
            let message = String::from_str(
                "Failed to fetch certificates for cleanup due to parsing error: ",
            ).concat(detail).concat(
                ". You may need to manually revoke certificates through Apple Developer Portal.",
            );
            self.errors.push(message);
            proof {
                assert(error_texts(self.errors@) =~= error_texts(errors_prev).push(
                    cleanup_fetch_failure_text(detail@),
                ));
            }
            true
        } else {
            false
        }
    }

    /// Applies the revoke phase's per-entity outcomes to the ledger: each
    /// success counts one revoked certificate, each failure appends its
    /// description, and every entity is processed whatever happened to the
    /// ones before it.
    pub fn apply_revoke_outcomes(&mut self, outcomes: Vec<(String, Result<(), String>)>)
        requires
            old(self).certificates_revoked + ok_count(outcomes@) <= u32::MAX,
        ensures
            final(self).certificates_revoked == old(self).certificates_revoked + ok_count(
                outcomes@,
            ),
            final(self).app_ids_deleted == old(self).app_ids_deleted,
            error_texts(final(self).errors@) == error_texts(old(self).errors@)
                + revoke_failure_texts(outcomes@),
    {
        let mut rest = outcomes;
        let ghost all = rest@;
        let total = rest.len();
        let ghost count0 = self.certificates_revoked;
        let ghost errors0 = self.errors@;
        let mut i: usize = 0;
        proof {
            assert(all.skip(0) =~= all);
        }
        while rest.len() > 0
            invariant
                total as int == all.len(),
                i + rest@.len() == all.len(),
                rest@ == all.skip(i as int),
                self.certificates_revoked + ok_count(all.skip(i as int)) == count0 + ok_count(all),
                count0 + ok_count(all) <= u32::MAX,
                self.app_ids_deleted == old(self).app_ids_deleted,
                error_texts(self.errors@) + revoke_failure_texts(all.skip(i as int)) == error_texts(
                    errors0,
                ) + revoke_failure_texts(all),
            decreases rest@.len(),
        {
            let pair = rest.remove(0);
            let ghost errors_prev = self.errors@;
            proof {
                assert(pair == all[i as int]);
                assert(rest@ =~= all.skip(i as int + 1));
                assert(all.skip(i as int)[0] == all[i as int]);
                assert(all.skip(i as int).skip(1) =~= all.skip(i as int + 1));
            }
            let (name, outcome) = pair;
            match outcome {
                Ok(_) => {
                    self.certificates_revoked = self.certificates_revoked + 1;
                },
                Err(detail) => {
                    let message = revoke_failure_message(name.as_str(), detail.as_str());
                    self.errors.push(message);
                    proof {
                        assert(error_texts(self.errors@) =~= error_texts(errors_prev).push(
                            revoke_failure_text(name@, detail@),
                        ));
                        assert(error_texts(self.errors@) + revoke_failure_texts(
                            all.skip(i as int + 1),
                        ) =~= error_texts(errors_prev) + revoke_failure_texts(all.skip(i as int)));
                    }
                },
            }
            i += 1;
        }
        proof {
            assert(all.skip(i as int) =~= Seq::<(String, Result<(), String>)>::empty());
            assert(error_texts(self.errors@) + revoke_failure_texts(all.skip(i as int))
                =~= error_texts(self.errors@));
        }
    }

    /// Applies the delete phase's per-entity outcomes to the ledger, the
    /// same way the revoke phase is applied. The delete phase always runs
    /// after the revoke phase, whatever the revoke phase recorded.
    pub fn apply_delete_outcomes(&mut self, outcomes: Vec<(String, Result<(), String>)>)
        requires
            old(self).app_ids_deleted + ok_count(outcomes@) <= u32::MAX,
        ensures
            final(self).app_ids_deleted == old(self).app_ids_deleted + ok_count(outcomes@),
            final(self).certificates_revoked == old(self).certificates_revoked,
            error_texts(final(self).errors@) == error_texts(old(self).errors@)
                + delete_failure_texts(outcomes@),
    {
        let mut rest = outcomes;
        let ghost all = rest@;
        let total = rest.len();
        let ghost count0 = self.app_ids_deleted;
        let ghost errors0 = self.errors@;
        let mut i: usize = 0;
        proof {
            assert(all.skip(0) =~= all);
        }
        while rest.len() > 0
            invariant
                total as int == all.len(),
                i + rest@.len() == all.len(),
                rest@ == all.skip(i as int),
                self.app_ids_deleted + ok_count(all.skip(i as int)) == count0 + ok_count(all),
                count0 + ok_count(all) <= u32::MAX,
                self.certificates_revoked == old(self).certificates_revoked,
                error_texts(self.errors@) + delete_failure_texts(all.skip(i as int)) == error_texts(
                    errors0,
                ) + delete_failure_texts(all),
            decreases rest@.len(),
        {
            let pair = rest.remove(0);
            let ghost errors_prev = self.errors@;
            proof {
                assert(pair == all[i as int]);
                assert(rest@ =~= all.skip(i as int + 1));
                assert(all.skip(i as int)[0] == all[i as int]);
                assert(all.skip(i as int).skip(1) =~= all.skip(i as int + 1));
            }
            let (name, outcome) = pair;
            match outcome {
                Ok(_) => {
                    self.app_ids_deleted = self.app_ids_deleted + 1;
                },
                Err(detail) => {
                    let message = delete_failure_message(name.as_str(), detail.as_str());
                    self.errors.push(message);
                    proof {
                        assert(error_texts(self.errors@) =~= error_texts(errors_prev).push(
                            delete_failure_text(name@, detail@),
                        ));
                        assert(error_texts(self.errors@) + delete_failure_texts(
                            all.skip(i as int + 1),
                        ) =~= error_texts(errors_prev) + delete_failure_texts(all.skip(i as int)));
                    }
                },
            }
            i += 1;
        }
        proof {
            assert(all.skip(i as int) =~= Seq::<(String, Result<(), String>)>::empty());
            assert(error_texts(self.errors@) + delete_failure_texts(all.skip(i as int))
                =~= error_texts(self.errors@));
        }
    }
}

} // verus!
