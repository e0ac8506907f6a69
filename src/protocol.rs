use vstd::prelude::*;
use crate::error::PsmError;
use crate::local_storage::Script;
use crate::provision::{PriceQuote, SecurityGroup};
use crate::server_status::InstanceShape;

verus! {

/// Outside work that a state machine of this library asks its caller to do.
/// Each action is answered by the event named beside it, or by `Event::Failed`.
#[derive(Debug)]
pub enum Action {
    /// Spot prices of every shape in every region: `Event::Prices`.
    QuerySpotPrices { regions: Vec<String>, shapes: Vec<InstanceShape> },
    /// The key pair ids of the account: `Event::KeyPairs`.
    ListKeyPairs { region: String },
    /// The security groups of a region: `Event::SecurityGroups`.
    ListSecurityGroups { region: String },
    /// Create an instance: `Event::Created` or `Event::CreateFailed`.
    RunInstance {
        region: String,
        zone: String,
        shape: InstanceShape,
        key_ids: Vec<String>,
        security_group_ids: Vec<String>,
    },
    /// The network address of an instance: `Event::Address`.
    QueryAddress { region: String, instance_id: String },
    /// Rewrite the registry file with the whole collection: `Event::Done`.
    Persist,
    /// Wait this many seconds: `Event::Done`.
    Sleep(u64),
    /// Copy the maintenance scripts to the host: `Event::Done`.
    UploadScripts { ip: String },
    /// Copy a save blob to the host: `Event::Done`.
    UploadSave { save: String, ip: String },
    /// Copy a save blob from the host: `Event::Done`.
    DownloadSave { save: String, ip: String },
    /// Run a maintenance script to completion: `Event::ScriptOutput`.
    RunScript { ip: String, script: Script },
    /// Check whether the host accepts a session: `Event::Alive`.
    Probe { ip: String },
    /// Terminate an instance: `Event::Done`.
    Terminate { region: String, instance_id: String },
    /// The operation is over, with this outcome; nothing more is to be done.
    Finish(Result<(), PsmError>),
}

/// What the caller reports back after carrying out an action.
#[derive(Debug)]
pub enum Event {
    Prices(Vec<PriceQuote>),
    KeyPairs(Vec<String>),
    SecurityGroups(Vec<SecurityGroup>),
    Created(String),
    CreateFailed,
    Address(String),
    Alive(bool),
    ScriptOutput(String),
    Done,
    Failed(PsmError),
}

} // verus!
