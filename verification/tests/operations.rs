use iloader::operation::{EventStatus, OperationOutcome, StagedOperation, StageStatus};
use iloader::sideload::{sideload_failure_message, sidestore_artifact, SideloadFailure};

#[test]
fn start_then_fail_emits_two_events_and_ends_operation() {
    let mut op = StagedOperation::new("sideload".to_string());
    op.start("install".to_string()).unwrap();
    let err = op.fail("install".to_string(), "boom".to_string());
    assert_eq!(err, Err("boom".to_string()));

    assert_eq!(op.events.len(), 2);
    assert_eq!(op.events[0].stage, "install");
    assert_eq!(op.events[0].status, EventStatus::Started);
    assert_eq!(op.events[0].message, None);
    assert_eq!(op.events[1].stage, "install");
    assert_eq!(op.events[1].status, EventStatus::Failed);
    assert_eq!(op.events[1].message, Some("boom".to_string()));
    assert_eq!(op.outcome, OperationOutcome::Failed);
    assert_eq!(op.stages.len(), 1);
    assert_eq!(op.stages[0].status, StageStatus::Failed);
}

#[test]
fn three_stage_chain_emits_six_ordered_events() {
    let mut op = StagedOperation::new("install_sidestore".to_string());
    op.start("download".to_string()).unwrap();
    op.move_on("download".to_string(), "install".to_string()).unwrap();
    op.move_on("install".to_string(), "pairing".to_string()).unwrap();
    op.complete("pairing".to_string()).unwrap();

    let expect = [
        ("download", EventStatus::Started),
        ("download", EventStatus::Completed),
        ("install", EventStatus::Started),
        ("install", EventStatus::Completed),
        ("pairing", EventStatus::Started),
        ("pairing", EventStatus::Completed),
    ];
    assert_eq!(op.events.len(), expect.len());
    for (event, (stage, status)) in op.events.iter().zip(expect.iter()) {
        assert_eq!(event.operation, "install_sidestore");
        assert_eq!(&event.stage, stage);
        assert_eq!(&event.status, status);
    }
    assert_eq!(op.outcome, OperationOutcome::Succeeded);
    assert_eq!(op.stages.len(), 3);
    assert!(op.stages.iter().all(|s| s.status == StageStatus::Completed));
}

#[test]
fn fail_if_err_passes_success_through_silently() {
    let mut op = StagedOperation::new("sideload".to_string());
    op.start("install".to_string()).unwrap();
    let out = op.fail_if_err("install".to_string(), Ok::<u32, String>(42));
    assert_eq!(out, Ok(42));
    assert_eq!(op.events.len(), 1);
    assert_eq!(op.outcome, OperationOutcome::Active);
}

#[test]
fn fail_if_err_fails_the_stage_on_error() {
    let mut op = StagedOperation::new("sideload".to_string());
    op.start("install".to_string()).unwrap();
    let out = op.fail_if_err("install".to_string(), Err::<u32, String>("no device".to_string()));
    assert_eq!(out, Err("no device".to_string()));
    assert_eq!(op.events.len(), 2);
    assert_eq!(op.events[1].status, EventStatus::Failed);
    assert_eq!(op.events[1].message, Some("no device".to_string()));
    assert_eq!(op.outcome, OperationOutcome::Failed);
}

#[test]
fn too_many_certificates_gets_remediation_message() {
    let e = SideloadFailure::Certificate("You have too many certificates!".to_string());
    assert_eq!(
        sideload_failure_message(e),
        "You have too many certificates. Revoke one by clicking \"Certificates\" and \"Revoke\"."
    );
}

#[test]
fn transient_parse_fault_gets_explained_message() {
    let e = SideloadFailure::Other("bad machineId field".to_string());
    let msg = sideload_failure_message(e);
    assert!(msg.starts_with("Failed to parse certificate data from Apple API"));
    assert!(msg.ends_with("Technical details: bad machineId field"));
}

#[test]
fn other_sideload_failures_pass_through() {
    let e = SideloadFailure::Other("device unplugged".to_string());
    assert_eq!(sideload_failure_message(e), "device unplugged");
}

#[test]
fn certificate_failure_without_marker_is_checked_for_transient_fault() {
    let e = SideloadFailure::Certificate("could not Parse response".to_string());
    let msg = sideload_failure_message(e);
    assert!(msg.starts_with("Failed to parse certificate data from Apple API"));
}

#[test]
fn artifact_selection_covers_all_flavours() {
    let (file, url) = sidestore_artifact(false, false);
    assert_eq!(file, "SideStore.ipa");
    assert_eq!(url, "https://github.com/SideStore/SideStore/releases/latest/download/SideStore.ipa");

    let (file, url) = sidestore_artifact(true, false);
    assert_eq!(file, "SideStore-Nightly.ipa");
    assert_eq!(url, "https://github.com/SideStore/SideStore/releases/download/nightly/SideStore.ipa");

    let (file, url) = sidestore_artifact(false, true);
    assert_eq!(file, "LiveContainerSideStore.ipa");
    assert_eq!(
        url,
        "https://github.com/LiveContainer/LiveContainer/releases/latest/download/LiveContainer+SideStore.ipa"
    );

    let (file, url) = sidestore_artifact(true, true);
    assert_eq!(file, "LiveContainerSideStore-Nightly.ipa");
    assert_eq!(
        url,
        "https://github.com/LiveContainer/LiveContainer/releases/download/nightly/LiveContainer+SideStore.ipa"
    );
}
