//! The pinned `fornax-cli` client's configuration and the process requests
//! it makes: version checks, and JSON commands under `--format json`.
use vstd::prelude::*;

use crate::integrations::environment::CliEnvironment;
use crate::integrations::fornax::cli_version::FornaxCliCapabilities;
use crate::integrations::fornax::cli_version::FornaxCliVersion;
use crate::integrations::fornax::error::FornaxCliError;
use crate::integrations::process::ProcessRequest;
use crate::integrations::version::spec_read_version;
use crate::integrations::version::spec_version_text;
use crate::integrations::process::ProcessRunner;
use crate::text::copy_pairs;
use crate::text::copy_strings;
use crate::text::owned;
use crate::text::spec_pairs;
use crate::text::spec_strs;

verus! {

/// Explicit allow-listed environment for `fornax-cli`.
pub type FornaxCliEnvironment = CliEnvironment;

/// Safe process configuration for the pinned CLI.
#[derive(Clone, Debug)]
pub struct FornaxCliConfig {
    pub executable: String,
    pub cwd: String,
    pub environment: FornaxCliEnvironment,
    pub timeout_ms: u64,
    pub stdout_limit: usize,
    pub stderr_limit: usize,
}

/// The request of `config` running `args`.
pub open spec fn spec_request_is(request: ProcessRequest, config: FornaxCliConfig, args: Seq<Seq<char>>) -> bool {
    &&& request.executable@ == config.executable@
    &&& request.cwd@ == config.cwd@
    &&& spec_strs(request.args@) == args
    &&& spec_pairs(request.env@) == spec_pairs(config.environment.values@)
    &&& spec_strs(request.redactions@) == spec_strs(config.environment.redactions@)
}

/// Typed version-pinned `fornax-cli` client.
#[derive(Clone, Debug)]
pub struct FornaxCli {
    config: FornaxCliConfig,
    runner: ProcessRunner,
}

impl FornaxCli {
    pub closed spec fn spec_config(&self) -> FornaxCliConfig {
        self.config
    }

    pub closed spec fn spec_runner(&self) -> ProcessRunner {
        self.runner
    }

    /// A client whose runner has the configured deadline and output bounds.
    /// Call `verify_output` on the version command's output before any
    /// capability operation.
    pub fn new(config: FornaxCliConfig) -> (r: Self)
        ensures
            r.spec_config() == config,
            r.spec_runner().spec_timeout_ms() == config.timeout_ms,
            r.spec_runner().spec_stdout_limit() == config.stdout_limit,
            r.spec_runner().spec_stderr_limit() == config.stderr_limit,
    {
        let runner = ProcessRunner::new(config.timeout_ms, config.stdout_limit, config.stderr_limit);
        FornaxCli { config, runner }
    }

    pub fn runner(&self) -> (r: &ProcessRunner)
        ensures
            *r == self.spec_runner(),
    {
        &self.runner
    }

    /// The request running `args` as they are.
    pub fn raw_request(&self, args: Vec<String>) -> (r: ProcessRequest)
        ensures
            spec_request_is(r, self.spec_config(), spec_strs(args@)),
    {
        ProcessRequest {
            executable: self.config.executable.clone(),
            args,
            cwd: self.config.cwd.clone(),
            env: copy_pairs(&self.config.environment.values),
            redactions: copy_strings(&self.config.environment.redactions),
        }
    }

    /// The request of a JSON command: `--format json` first, then `args`.
    pub fn json_request(&self, args: Vec<String>) -> (r: ProcessRequest)
        ensures
            spec_request_is(r, self.spec_config(), seq!["--format"@, "json"@] + spec_strs(args@)),
    {
        let mut all: Vec<String> = Vec::new();
        all.push(owned("--format"));
        all.push(owned("json"));
        let mut i: usize = 0;
        while i < args.len()
            invariant
                i <= args@.len(),
                spec_strs(all@) == seq!["--format"@, "json"@] + spec_strs(args@.take(i as int)),
            decreases args.len() - i,
        {
            let ghost before = all@;
            all.push(args[i].clone());
            assert(spec_strs(all@) =~= spec_strs(before).push(args@[i as int]@));
            assert(spec_strs(args@.take(i + 1)) =~= spec_strs(args@.take(i as int)).push(args@[i as int]@));
            assert(spec_strs(all@) =~= seq!["--format"@, "json"@] + spec_strs(args@.take(i + 1)));
            i += 1;
        }
        assert(args@.take(args@.len() as int) =~= args@);
        self.raw_request(all)
    }

    /// The request of the version command.
    pub fn version_request(&self) -> (r: ProcessRequest)
        ensures
            spec_request_is(r, self.spec_config(), seq!["version"@]),
    {
        let mut args: Vec<String> = Vec::new();
        args.push(owned("version"));
        assert(spec_strs(args@) =~= seq!["version"@]);
        self.raw_request(args)
    }

    /// The pinned version read from the version command's output, with its
    /// fixed capabilities.
    pub fn verify_output(stdout: &[u8]) -> (r: Result<(FornaxCliVersion, FornaxCliCapabilities), FornaxCliError>)
        ensures
            match spec_read_version(stdout@, "fornax-cli v"@) {
                None => r == Err::<(FornaxCliVersion, FornaxCliCapabilities), FornaxCliError>(
                    FornaxCliError::MalformedVersion,
                ),
                Some(p) => if p == (0u64, 0u64, 51u64, Seq::<char>::empty(), Seq::<char>::empty()) {
                    r matches Ok((v, c)) && v.parts() == p && c.prompt_read && c.prompt_draft_save
                        && c.skill_read_and_stage && c.trace_read && !c.trace_write
                } else {
                    r matches Err(FornaxCliError::UnsupportedVersion { actual, expected }) && actual@
                        == spec_version_text(p) && expected@ == "0.0.51"@
                },
            },
    {
        let version = match FornaxCliVersion::parse(stdout) {
            Ok(v) => v,
            Err(e) => {
                return Err(e);
            },
        };
        let capabilities = FornaxCliCapabilities::for_version(&version);
        Ok((version, capabilities))
    }
}

} // verus!
