//! Starting the local Fornax trace bridge: the lifecycle command, and what
//! its discovery answer must say before the bridge is trusted.
use vstd::prelude::*;

use crate::integrations::fornax::bridge_config::FornaxBridgeConfig;
use crate::integrations::fornax::bridge_config::FornaxBridgeError;
use crate::integrations::fornax::bridge_config::spec_bridge_config_error;
use crate::integrations::fornax::bridge_config::spec_invalid_configuration;
use crate::integrations::fornax::bridge_protocol::FORNAX_BRIDGE_PROTOCOL;
use crate::integrations::fornax::bridge_protocol::fornax_bridge_version;
use crate::integrations::fornax::bridge_protocol::fornax_sdk_version;
use crate::integrations::fornax::bridge_protocol::spec_bridge_version;
use crate::integrations::fornax::bridge_protocol::spec_sdk_version;
use crate::integrations::process::ProcessRequest;
use crate::integrations::process::ProcessRunner;
use crate::integrations::process::is_absolute;
use crate::integrations::process::spec_is_absolute;
use crate::text::copy_pairs;
use crate::text::copy_strings;
use crate::text::owned;
use crate::text::spec_pairs;
use crate::text::spec_strs;
use crate::text::str_eq;

verus! {

#[derive(Clone, Copy, Debug, PartialEq, Eq, Structural)]
pub enum DiscoveryStatus {
    Started,
    AlreadyRunning,
}

/// A running bridge, as its lifecycle command described it.
#[derive(Clone, Debug, PartialEq, Eq)]
pub struct FornaxBridgeDiscovery {
    pub status: DiscoveryStatus,
    pub protocol_version: u32,
    pub bridge_version: String,
    pub sdk_version: String,
    pub instance_id: String,
    pub pid: u32,
    pub endpoint: String,
    pub credential_file: String,
}

/// The decoded answer of `daemon ensure`.
#[derive(Clone, Debug, PartialEq, Eq)]
pub struct EnsureResponse {
    pub status: DiscoveryStatus,
    pub protocol_version: u32,
    pub bridge_version: String,
    pub sdk_version: String,
    pub instance_id: String,
    pub pid: u32,
    pub endpoint: String,
    pub credential_file: String,
}

/// Captured output of the lifecycle command is bounded to 64 KiB of stdout
/// and 16 KiB of stderr.
pub const ENSURE_STDOUT_LIMIT: usize = 65536;

pub const ENSURE_STDERR_LIMIT: usize = 16384;

pub open spec fn spec_ensure_args(config: FornaxBridgeConfig) -> Seq<Seq<char>> {
    seq!["daemon"@, "ensure"@, "--state-dir"@, config.state_dir@, "--format"@, "json"@]
}

/// The lifecycle command of a valid configuration, and the runner it runs
/// under.
pub fn ensure_command(config: &FornaxBridgeConfig) -> (r: Result<(ProcessRequest, ProcessRunner), FornaxBridgeError>)
    ensures
        spec_bridge_config_error(*config) is Some ==> spec_invalid_configuration(
            match r { Ok(_) => Ok(()), Err(e) => Err(e) },
            spec_bridge_config_error(*config),
        ),
        r is Ok <==> spec_bridge_config_error(*config) is None,
        r matches Ok((request, runner)) ==> {
            &&& request.executable@ == config.executable@
            &&& request.cwd@ == config.cwd@
            &&& spec_strs(request.args@) == spec_ensure_args(*config)
            &&& spec_pairs(request.env@) == spec_pairs(config.environment.values@)
            &&& spec_strs(request.redactions@) == spec_strs(config.environment.redactions@)
            &&& runner.spec_timeout_ms() == config.lifecycle_timeout_ms
            &&& runner.spec_stdout_limit() == ENSURE_STDOUT_LIMIT
            &&& runner.spec_stderr_limit() == ENSURE_STDERR_LIMIT
        },
{
    match config.validate() {
        Ok(()) => {},
        Err(e) => return Err(e),
    }
    let mut args: Vec<String> = Vec::new();
    args.push(owned("daemon"));
    args.push(owned("ensure"));
    args.push(owned("--state-dir"));
    args.push(config.state_dir.clone());
    args.push(owned("--format"));
    args.push(owned("json"));
    assert(spec_strs(args@) =~= spec_ensure_args(*config));
    let request = ProcessRequest {
        executable: config.executable.clone(),
        args,
        cwd: config.cwd.clone(),
        env: copy_pairs(&config.environment.values),
        redactions: copy_strings(&config.environment.redactions),
    };
    let runner = ProcessRunner::new(config.lifecycle_timeout_ms, ENSURE_STDOUT_LIMIT, ENSURE_STDERR_LIMIT);
    Ok((request, runner))
}

pub open spec fn spec_versions_match(protocol: u32, bridge: Seq<char>, sdk: Seq<char>) -> bool {
    protocol == FORNAX_BRIDGE_PROTOCOL && bridge == spec_bridge_version() && sdk == spec_sdk_version()
}

/// A discovery answer is trusted only when it speaks the pinned protocol,
/// bridge and SDK versions and names its credential file by an absolute path.
pub fn check_ensure_response(response: EnsureResponse) -> (r: Result<FornaxBridgeDiscovery, FornaxBridgeError>)
    ensures
        !spec_versions_match(response.protocol_version, response.bridge_version@, response.sdk_version@)
            ==> r == Err::<FornaxBridgeDiscovery, FornaxBridgeError>(FornaxBridgeError::VersionMismatch),
        spec_versions_match(response.protocol_version, response.bridge_version@, response.sdk_version@)
            && !spec_is_absolute(response.credential_file@) ==> r == Err::<FornaxBridgeDiscovery, FornaxBridgeError>(
            FornaxBridgeError::InsecureDescriptor,
        ),
        r is Ok <==> spec_versions_match(response.protocol_version, response.bridge_version@, response.sdk_version@)
            && spec_is_absolute(response.credential_file@),
        r matches Ok(d) ==> d == (FornaxBridgeDiscovery {
            status: response.status,
            protocol_version: response.protocol_version,
            bridge_version: response.bridge_version,
            sdk_version: response.sdk_version,
            instance_id: response.instance_id,
            pid: response.pid,
            endpoint: response.endpoint,
            credential_file: response.credential_file,
        }),
{
    if response.protocol_version != FORNAX_BRIDGE_PROTOCOL || !str_eq(
        response.bridge_version.as_str(),
        fornax_bridge_version(),
    ) || !str_eq(response.sdk_version.as_str(), fornax_sdk_version()) {
        return Err(FornaxBridgeError::VersionMismatch);
    }
    if !is_absolute(response.credential_file.as_str()) {
        return Err(FornaxBridgeError::InsecureDescriptor);
    }
    Ok(FornaxBridgeDiscovery {
        status: response.status,
        protocol_version: response.protocol_version,
        bridge_version: response.bridge_version,
        sdk_version: response.sdk_version,
        instance_id: response.instance_id,
        pid: response.pid,
        endpoint: response.endpoint,
        credential_file: response.credential_file,
    })
}

} // verus!
