use vstd::prelude::*;

verus! {

/// The ways an operation of this library can fail.
#[derive(PartialEq, Eq, Structural, Clone, Copy, Debug)]
pub enum PsmError {
    /// No server record carries the given name.
    NotFound,
    /// A server record with the given name already exists.
    Conflict,
    /// The server is not in the `Running` state.
    NotRunning,
    /// The server is already running.
    AlreadyRunning,
    /// No candidate region, zone and instance shape could be created.
    ProvisioningExhausted,
    /// The remote session refused authentication.
    AuthError,
    /// The remote host could not be reached.
    ConnectError,
    /// The registry could not be read, parsed or written.
    StorageError,
    /// A blob could not be copied between the local and the remote root.
    TransferError,
    /// A request to the cloud provider failed.
    CloudError,
    /// An action was answered with an event of another kind.
    UnexpectedEvent,
}

} // verus!
