//! Configuration of the local Fornax trace bridge and its failures.
use vstd::prelude::*;

use crate::integrations::environment::CliEnvironment;
use crate::integrations::fornax::bridge_protocol::RetryDisposition;
use crate::integrations::process::is_absolute;
use crate::integrations::process::spec_is_absolute;
use crate::text::owned;

verus! {

/// Environment handed to the bridge lifecycle command, and the values that
/// must never appear in its diagnostics.
pub type FornaxBridgeEnvironment = CliEnvironment;

#[derive(Clone, Debug)]
pub struct FornaxBridgeConfig {
    pub executable: String,
    pub cwd: String,
    pub state_dir: String,
    pub environment: FornaxBridgeEnvironment,
    pub lifecycle_timeout_ms: u64,
    pub connect_timeout_ms: u64,
    pub request_timeout_ms: u64,
}

/// Failures of the trace bridge. Operation ids are UUIDs as 128-bit values.
#[derive(Clone, Debug, PartialEq, Eq)]
pub enum FornaxBridgeError {
    InvalidConfiguration(String),
    Lifecycle(String),
    VersionMismatch,
    InsecureDescriptor,
    InvalidResponse,
    Transport,
    AmbiguousMutation { operation_id: u128 },
    LocalAuthentication,
    QueueFull,
    UnknownSpan,
    UnknownContext,
    OrphanedSpan,
    SdkAuthentication,
    SdkRejected,
    ShuttingDown,
    LiveDeliveryNotApproved,
    Remote { code: String, operation_id: Option<u128>, retry: RetryDisposition },
}

pub open spec fn spec_bridge_config_error(config: FornaxBridgeConfig) -> Option<Seq<char>> {
    if !spec_is_absolute(config.executable@) {
        Some("bridge lifecycle executable must be absolute"@)
    } else if !spec_is_absolute(config.cwd@) {
        Some("bridge working directory must be absolute"@)
    } else if !spec_is_absolute(config.state_dir@) {
        Some("bridge state directory must be absolute"@)
    } else {
        None
    }
}

pub open spec fn spec_invalid_configuration(r: Result<(), FornaxBridgeError>, e: Option<Seq<char>>) -> bool {
    match e {
        None => r is Ok,
        Some(m) => r matches Err(FornaxBridgeError::InvalidConfiguration(x)) && x@ == m,
    }
}

impl FornaxBridgeConfig {
    /// The executable, working directory and state directory are absolute.
    pub fn validate(&self) -> (r: Result<(), FornaxBridgeError>)
        ensures
            spec_invalid_configuration(r, spec_bridge_config_error(*self)),
    {
        if !is_absolute(self.executable.as_str()) {
            return Err(FornaxBridgeError::InvalidConfiguration(owned("bridge lifecycle executable must be absolute")));
        }
        if !is_absolute(self.cwd.as_str()) {
            return Err(FornaxBridgeError::InvalidConfiguration(owned("bridge working directory must be absolute")));
        }
        if !is_absolute(self.state_dir.as_str()) {
            return Err(FornaxBridgeError::InvalidConfiguration(owned("bridge state directory must be absolute")));
        }
        Ok(())
    }
}

} // verus!
