use iloader::cache::{TtlCache, CERTIFICATE_CACHE_TTL_SECS};
use iloader::certs::{
    certificate_fetch_error_message, certificate_fetch_failure_message, certificate_from_parts,
    certificate_parse_fault_message, detect_transient_parse_fault, filter_valid_certificates,
    normalize_certificate, process_certificates, CertificateInfo,
};
use iloader::cleanup::{
    app_ids_fetch_fatal_message, certificates_fetch_fatal_message, CleanupResult,
};
use iloader::resolver::{ProviderError, SessionError, TeamContext, resolve_team};
use iloader::session::{AccountError, Session, SessionManager};

fn cert(name: &str, id: &str, serial: &str, machine: &str, machine_id: &str) -> CertificateInfo {
    CertificateInfo {
        name: name.to_string(),
        certificate_id: id.to_string(),
        serial_number: serial.to_string(),
        machine_name: machine.to_string(),
        machine_id: machine_id.to_string(),
    }
}

#[test]
fn fresh_cache_entry_means_no_fetch() {
    let mut cache: TtlCache<u32> = TtlCache::new();
    assert!(cache.needs_fetch(1000, CERTIFICATE_CACHE_TTL_SECS));
    cache.commit_fetch::<String>(Ok(17), 1000).unwrap();
    assert!(!cache.needs_fetch(1299, 300));
    assert_eq!(cache.lookup(1299, 300), Some(&17));
}

#[test]
fn stale_cache_entry_means_fetch_and_timestamp_overwrite() {
    let mut cache: TtlCache<u32> = TtlCache::new();
    cache.commit_fetch::<String>(Ok(17), 1000).unwrap();
    assert!(cache.needs_fetch(1300, 300));
    assert_eq!(cache.lookup(1300, 300), None);
    cache.commit_fetch::<String>(Ok(18), 1300).unwrap();
    assert_eq!(cache.entry.as_ref().unwrap().captured_at, 1300);
    assert_eq!(cache.lookup(1599, 300), Some(&18));
}

#[test]
fn failed_fetch_caches_nothing() {
    let mut cache: TtlCache<u32> = TtlCache::new();
    cache.commit_fetch::<String>(Ok(17), 1000).unwrap();
    let err = cache.commit_fetch::<String>(Err("offline".to_string()), 1300);
    assert_eq!(err, Err("offline".to_string()));
    assert_eq!(cache.entry.as_ref().unwrap().captured_at, 1000);
}

#[test]
fn zero_ttl_is_always_stale() {
    let mut cache: TtlCache<u32> = TtlCache::new();
    cache.commit_fetch::<String>(Ok(17), 1000).unwrap();
    assert!(cache.needs_fetch(1000, 0));
}

#[test]
fn future_capture_time_counts_as_age_zero() {
    let mut cache: TtlCache<u32> = TtlCache::new();
    cache.commit_fetch::<String>(Ok(17), 2000).unwrap();
    assert_eq!(cache.lookup(1000, 300), Some(&17));
}

#[test]
fn records_with_empty_id_or_serial_are_dropped() {
    let certs = vec![
        cert("one", "ID1", "S1", "m", "mid"),
        cert("two", "", "S2", "m", "mid"),
        cert("three", "ID3", "", "m", "mid"),
    ];
    let kept = filter_valid_certificates(certs);
    assert_eq!(kept.len(), 1);
    assert_eq!(kept[0].name, "one");
}

#[test]
fn normalization_defaults_name_and_trims_machine_id() {
    let n = normalize_certificate(cert("", "ID1", "S1", "mac", "  mid-1 \n"));
    assert_eq!(n.name, "Unknown Certificate");
    assert_eq!(n.certificate_id, "ID1");
    assert_eq!(n.serial_number, "S1");
    assert_eq!(n.machine_name, "mac");
    assert_eq!(n.machine_id, "mid-1");
}

#[test]
fn empty_machine_id_is_kept_as_empty() {
    let n = normalize_certificate(cert("a", "ID1", "S1", "mac", ""));
    assert_eq!(n.machine_id, "");
}

#[test]
fn from_parts_defaults_missing_machine_id() {
    let r = certificate_from_parts(
        "n".to_string(),
        "id".to_string(),
        "s".to_string(),
        "m".to_string(),
        None,
    );
    assert_eq!(r.machine_id, "");
    let r = certificate_from_parts(
        "n".to_string(),
        "id".to_string(),
        "s".to_string(),
        "m".to_string(),
        Some("mid".to_string()),
    );
    assert_eq!(r.machine_id, "mid");
}

#[test]
fn processing_normalizes_then_filters() {
    let raw = vec![
        cert("", "ID1", "S1", "mac", " mid "),
        cert("two", "", "S2", "mac", "mid"),
    ];
    let out = process_certificates(raw);
    assert_eq!(out.len(), 1);
    assert_eq!(out[0].name, "Unknown Certificate");
    assert_eq!(out[0].machine_id, "mid");
}

#[test]
fn transient_fault_markers_are_detected() {
    assert!(detect_transient_parse_fault("missing machineId in payload"));
    assert!(detect_transient_parse_fault("Parse error at line 3"));
    assert!(detect_transient_parse_fault("bad machineld value"));
    assert!(!detect_transient_parse_fault("connection timed out"));
    assert!(!detect_transient_parse_fault("parse error"));
}

#[test]
fn certificate_fetch_messages_are_exact() {
    assert_eq!(
        certificate_fetch_error_message("boom"),
        "Failed to get development certificates: boom"
    );
    let msg = certificate_parse_fault_message("bad machineId");
    assert!(msg.starts_with("Failed to parse certificates from Apple API"));
    assert!(msg.contains("Error details: bad machineId"));
    assert!(msg.contains("1. Log out and log back in to refresh your session"));
}

#[test]
fn fetch_failure_message_picks_remediation_only_for_transient_fault() {
    let transient = certificate_fetch_failure_message("bad machineId");
    assert!(transient.starts_with("Failed to parse certificates from Apple API"));
    let plain = certificate_fetch_failure_message("network down");
    assert_eq!(plain, "Failed to get development certificates: network down");
}

#[test]
fn cleanup_counts_successes_and_records_failures_then_continues() {
    let mut ledger = CleanupResult::new();
    ledger.apply_revoke_outcomes(vec![
        ("certA".to_string(), Ok(())),
        ("certB".to_string(), Err("denied".to_string())),
        ("certC".to_string(), Ok(())),
    ]);
    assert_eq!(ledger.certificates_revoked, 2);
    assert_eq!(ledger.errors.len(), 1);
    assert_eq!(ledger.errors[0], "Failed to revoke certificate certB: denied");

    ledger.apply_delete_outcomes(vec![
        ("app.one".to_string(), Ok(())),
        ("app.two".to_string(), Err("in use".to_string())),
    ]);
    assert_eq!(ledger.app_ids_deleted, 1);
    assert_eq!(ledger.certificates_revoked, 2);
    assert_eq!(ledger.errors.len(), 2);
    assert_eq!(ledger.errors[1], "Failed to delete App ID app.two: in use");
}

#[test]
fn transient_fetch_failure_degrades_to_partial_result() {
    let mut ledger = CleanupResult::new();
    let partial = ledger.note_certificate_fetch_failure("machineId drifted");
    assert!(partial);
    assert_eq!(ledger.errors.len(), 1);
    assert!(ledger.errors[0]
        .starts_with("Failed to fetch certificates for cleanup due to parsing error: "));
    assert!(ledger.errors[0]
        .ends_with(". You may need to manually revoke certificates through Apple Developer Portal."));
}

#[test]
fn other_fetch_failure_is_fatal_for_cleanup() {
    let mut ledger = CleanupResult::new();
    let partial = ledger.note_certificate_fetch_failure("500 from provider");
    assert!(!partial);
    assert!(ledger.errors.is_empty());
    assert_eq!(
        certificates_fetch_fatal_message("500 from provider"),
        "Failed to get certificates: 500 from provider"
    );
    assert_eq!(
        app_ids_fetch_fatal_message("listing broke"),
        "Failed to list App IDs: listing broke"
    );
}

#[test]
fn expired_code_invalidates_session_and_reports_expiry() {
    let mut mgr = SessionManager::new();
    mgr.install(Session { apple_id: "user@example.com".to_string(), token: 1 });
    let r = resolve_team(&mut mgr, Err(ProviderError::Auth(-22411, "aged out".to_string())));
    assert_eq!(r, Err(SessionError::Expired("aged out".to_string())));
    assert_eq!(mgr.acquire(), Err(AccountError::NotLoggedIn));
}

#[test]
fn expired_code_on_session_variant_also_invalidates() {
    let mut mgr = SessionManager::new();
    mgr.install(Session { apple_id: "user@example.com".to_string(), token: 1 });
    let r = resolve_team(
        &mut mgr,
        Err(ProviderError::DeveloperSession(-22411, "aged out".to_string())),
    );
    assert_eq!(r, Err(SessionError::Expired("aged out".to_string())));
    assert_eq!(mgr.acquire(), Err(AccountError::NotLoggedIn));
}

#[test]
fn other_provider_error_keeps_session() {
    let mut mgr = SessionManager::new();
    mgr.install(Session { apple_id: "user@example.com".to_string(), token: 1 });
    let r = resolve_team(&mut mgr, Err(ProviderError::Other("downstream".to_string())));
    assert_eq!(r, Err(SessionError::Provider("downstream".to_string())));
    assert!(mgr.acquire().is_ok());
}

#[test]
fn other_code_is_not_expiry() {
    let mut mgr = SessionManager::new();
    mgr.install(Session { apple_id: "user@example.com".to_string(), token: 1 });
    let r = resolve_team(&mut mgr, Err(ProviderError::Auth(-36607, "denied".to_string())));
    assert_eq!(r, Err(SessionError::Provider("denied".to_string())));
    assert!(mgr.acquire().is_ok());
}

#[test]
fn empty_team_list_is_no_teams() {
    let mut mgr = SessionManager::new();
    mgr.install(Session { apple_id: "user@example.com".to_string(), token: 1 });
    let r = resolve_team(&mut mgr, Ok(vec![]));
    assert_eq!(r, Err(SessionError::NoTeams));
    assert!(mgr.acquire().is_ok());
}

#[test]
fn first_team_in_provider_order_is_selected() {
    let mut mgr = SessionManager::new();
    mgr.install(Session { apple_id: "user@example.com".to_string(), token: 1 });
    let teams = vec![
        TeamContext { team_id: "TEAM1".to_string() },
        TeamContext { team_id: "TEAM2".to_string() },
    ];
    let r = resolve_team(&mut mgr, Ok(teams));
    assert_eq!(r, Ok(TeamContext { team_id: "TEAM1".to_string() }));
}

#[test]
fn session_error_messages_are_exact() {
    assert_eq!(SessionError::NotLoggedIn.message(), "Not logged in");
    assert_eq!(
        SessionError::Expired("e".to_string()).message(),
        "Session timed out, please try again: e"
    );
    assert_eq!(
        SessionError::NoTeams.message(),
        "No developer teams found for this account"
    );
    assert_eq!(
        SessionError::Provider("d".to_string()).message(),
        "Failed to list teams: d"
    );
}
