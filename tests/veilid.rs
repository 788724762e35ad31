use roselite::error::{RoseliteError, VeilidError};
use roselite::veilid::connection_failed;
use roselite::veilid::{
    attach_step, protected_store_settings, should_open_and_retry, wait_step, AttachStep, AttachmentState,
    ConnectionState, NetworkStateInfo, StateUpdate, VeilidConfig, WaitStep, ATTACH_TIMEOUT_MS,
};

#[test]
fn waiting_goes_on_only_once_attached() {
    assert_eq!(wait_step(AttachmentState::AttachedWeak, 0, ATTACH_TIMEOUT_MS), WaitStep::Ready);
    assert_eq!(wait_step(AttachmentState::OverAttached, 99_999, ATTACH_TIMEOUT_MS), WaitStep::Ready);
    assert_eq!(wait_step(AttachmentState::Attaching, 30_000, ATTACH_TIMEOUT_MS), WaitStep::Poll);
    assert_eq!(wait_step(AttachmentState::Attaching, 30_001, ATTACH_TIMEOUT_MS), WaitStep::Fail);
    assert_eq!(wait_step(AttachmentState::Detached, 0, ATTACH_TIMEOUT_MS), WaitStep::Fail);
    assert_eq!(wait_step(AttachmentState::Detaching, 0, ATTACH_TIMEOUT_MS), WaitStep::Fail);
    assert!(AttachmentState::AttachedGood.is_attached());
    assert!(!AttachmentState::Attaching.is_attached());
}

#[test]
fn attaching_is_tried_three_times() {
    assert_eq!(attach_step(1, true), AttachStep::Done);
    assert_eq!(attach_step(1, false), AttachStep::Retry);
    assert_eq!(attach_step(2, false), AttachStep::Retry);
    assert_eq!(attach_step(3, false), AttachStep::GiveUp);
}

#[test]
fn updates_move_the_connection_state() {
    let mut s = ConnectionState::default();
    assert_eq!(s.attachment_state, AttachmentState::Detached);
    s.begin_connect();
    assert_eq!(s.attachment_state, AttachmentState::Attaching);
    s.apply(StateUpdate::Attachment(AttachmentState::AttachedGood));
    s.apply(StateUpdate::Network { started: true });
    s.finish_connect("node".to_string());
    assert!(s.is_connected && s.network_started);
    s.apply(StateUpdate::Observed);
    assert_eq!(s.attachment_state, AttachmentState::AttachedGood);
    s.apply(StateUpdate::Shutdown);
    assert!(!s.is_connected && !s.network_started);
    assert_eq!(s.attachment_state, AttachmentState::Detached);
    let info = NetworkStateInfo::fallback(&s);
    assert_eq!(info.mode, "Fallback Storage");
    assert_eq!(info.node_id, Some("node".to_string()));
}

#[test]
fn record_not_open_errors_are_retried() {
    assert!(should_open_and_retry("Generic(\"record not open\")"));
    assert!(!should_open_and_retry("timeout"));
}

#[test]
fn empty_password_selects_insecure_storage() {
    let s = protected_store_settings("");
    assert!(s.insecure);
    assert_eq!(s.password, "roselite-dev");
    let s = protected_store_settings("hunter2");
    assert!(!s.insecure);
    assert_eq!(s.password, "hunter2");
}

#[test]
fn default_config_values() {
    let c = VeilidConfig::default();
    assert_eq!(c.program_name, "roselite");
    assert_eq!(c.table_name, "roselite_sites");
    assert_eq!(c.network.max_connections, 64);
    assert_eq!(c.storage.data_directory, Some(".roselite".to_string()));
    assert!(c.development_mode);
}

#[test]
fn failed_wait_is_connection_failed() {
    assert_eq!(connection_failed(), RoseliteError::Veilid(VeilidError::ConnectionFailed));
}
