use bolt_bridge::transport::{error_action, BridgeError, ErrorAction, Operation, Transport, CLI_BACKEND};

#[test]
fn control_plane_urls() {
    assert_eq!(Operation::SendRequest.control_plane_url(), "http://0.0.0.0:4458/send_request");
    assert_eq!(Operation::SaveState.control_plane_url(), "http://0.0.0.0:4458/save_state");
    assert_eq!(Operation::RestoreState.control_plane_url(), "http://0.0.0.0:4458/restore_state");
    assert_eq!(Operation::OpenLink.control_plane_url(), "http://0.0.0.0:4458/open_link");
    assert_eq!(Operation::Log.name(), "bolt_log");
    assert_eq!(Operation::ReportFatal.name(), "bolt_panic");
    assert_eq!(CLI_BACKEND, "http://0.0.0.0:4458/");
}

#[test]
fn dispatch_reply_routing() {
    assert_eq!(
        Transport::LocalControlPlane.route_dispatch_reply("HTTP body".to_string()),
        Some("HTTP body".to_string())
    );
    assert_eq!(Transport::EmbeddedBridge.route_dispatch_reply("ack".to_string()), None);
    assert!(Transport::EmbeddedBridge.has_subscription());
    assert!(!Transport::LocalControlPlane.has_subscription());
}

#[test]
fn error_policy() {
    assert_eq!(
        error_action(Operation::SendRequest, BridgeError::TransportUnavailable),
        ErrorAction::LogAndContinue
    );
    assert_eq!(error_action(Operation::SaveState, BridgeError::MalformedReply), ErrorAction::LogAndContinue);
    assert_eq!(error_action(Operation::RestoreState, BridgeError::MalformedReply), ErrorAction::AbortRestore);
    assert_eq!(
        error_action(Operation::RestoreState, BridgeError::TransportUnavailable),
        ErrorAction::AbortRestore
    );
    assert_eq!(error_action(Operation::SendRequest, BridgeError::UserInputError), ErrorAction::ReportFatal);
    assert_eq!(error_action(Operation::Log, BridgeError::TransportUnavailable), ErrorAction::LogAndContinue);
}
