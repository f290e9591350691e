/// Correlation indices of dispatched requests awaiting their response.
pub mod correlation;
/// Building the wire payload of a composed request.
pub mod dispatch;
/// Decisions of the response subscription loop.
pub mod ingress;
/// The HTTP method and the editor's method selector.
pub mod method;
/// The workspace store: save, and all-or-nothing restore.
pub mod state;
/// The two transports, their operations and the failure policy.
pub mod transport;
/// Composition of a URL from a base and query parameters.
pub mod url;
