use vstd::prelude::*;
use vstd::string::*;

verus! {

/// Base address of the local control plane.
pub const CLI_BACKEND: &'static str = "http://0.0.0.0:4458/";

/// The two interchangeable ways to reach the backend.
#[derive(Clone, Copy, Debug, PartialEq, Eq, Structural)]
pub enum Transport {
    /// In-process command calls plus a push-event subscription.
    EmbeddedBridge,
    /// POST calls to a fixed local address.
    LocalControlPlane,
}

/// The backend operations both transports offer.
#[derive(Clone, Copy, Debug, PartialEq, Eq, Structural)]
pub enum Operation {
    SendRequest,
    SaveState,
    RestoreState,
    OpenLink,
    Log,
    ReportFatal,
}

/// The operation's name: the command name of the embedded bridge and the path
/// segment of the control plane.
pub open spec fn operation_name(op: Operation) -> Seq<char> {
    match op {
        Operation::SendRequest => "send_request"@,
        Operation::SaveState => "save_state"@,
        Operation::RestoreState => "restore_state"@,
        Operation::OpenLink => "open_link"@,
        Operation::Log => "bolt_log"@,
        Operation::ReportFatal => "bolt_panic"@,
    }
}

impl Operation {
    /// The operation's name.
    pub fn name(&self) -> (r: &'static str)
        ensures
            r@ == operation_name(*self),
    {
        match self {
            Operation::SendRequest => "send_request",
            Operation::SaveState => "save_state",
            Operation::RestoreState => "restore_state",
            Operation::OpenLink => "open_link",
            Operation::Log => "bolt_log",
            Operation::ReportFatal => "bolt_panic",
        }
    }

    /// The address the control plane serves the operation at.
    pub fn control_plane_url(&self) -> (r: String)
        ensures
            r@ == CLI_BACKEND@ + operation_name(*self),
    {
        String::from_str(CLI_BACKEND).concat(self.name())
    }
}

impl Transport {
    /// Where the reply to a dispatched request goes: the control plane's reply
    /// is the response itself and is handed to the ingress; the embedded
    /// bridge's reply is an acknowledgement, and the response comes later on
    /// the subscription.
    pub fn route_dispatch_reply(&self, reply: String) -> (r: Option<String>)
        ensures
            *self == Transport::LocalControlPlane ==> r == Some(reply),
            *self == Transport::EmbeddedBridge ==> r.is_none(),
    {
        match self {
            Transport::LocalControlPlane => Some(reply),
            Transport::EmbeddedBridge => None,
        }
    }

    /// Whether responses arrive on a long-lived subscription.
    pub fn has_subscription(&self) -> (r: bool)
        ensures
            r == (*self == Transport::EmbeddedBridge),
    {
        match self {
            Transport::EmbeddedBridge => true,
            Transport::LocalControlPlane => false,
        }
    }
}

/// The kinds of failure the bridge tells apart.
#[derive(Clone, Copy, Debug, PartialEq, Eq, Structural)]
pub enum BridgeError {
    /// The backend call could not be made, or the network or process call failed.
    TransportUnavailable,
    /// A reply could not be read in the expected shape.
    MalformedReply,
    /// The user gave a value the bridge does not know (an unknown method).
    UserInputError,
}

/// What the bridge does about a failure. No failure is retried.
#[derive(Clone, Copy, Debug, PartialEq, Eq, Structural)]
pub enum ErrorAction {
    /// Write a log line and go on; the UI is not blocked.
    LogAndContinue,
    /// Log, and end the restore without touching the workspace.
    AbortRestore,
    /// Report on the fatal-log path, then go on with a safe default.
    ReportFatal,
}

/// The action for a failure of kind `err` met during `op`: unknown user input
/// is reported as fatal; any other failure aborts a restore and is only logged
/// elsewhere.
pub open spec fn action_for(op: Operation, err: BridgeError) -> ErrorAction {
    match err {
        BridgeError::UserInputError => ErrorAction::ReportFatal,
        _ => if op == Operation::RestoreState {
            ErrorAction::AbortRestore
        } else {
            ErrorAction::LogAndContinue
        },
    }
}

/// The action for a failure of kind `err` met during `op`.
pub fn error_action(op: Operation, err: BridgeError) -> (r: ErrorAction)
    ensures
        r == action_for(op, err),
{
    match err {
        BridgeError::UserInputError => ErrorAction::ReportFatal,
        _ => match op {
            Operation::RestoreState => ErrorAction::AbortRestore,
            _ => ErrorAction::LogAndContinue,
        },
    }
}

} // verus!
