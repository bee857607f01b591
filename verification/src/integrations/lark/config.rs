//! The pinned `lark-cli` client's configuration and the process requests it
//! makes, with the content of each request added to what is redacted.
use vstd::prelude::*;

use crate::integrations::environment::CliEnvironment;
use crate::integrations::lark::cli::LarkCliVersion;
use crate::integrations::lark::error::LarkCliError;
use crate::integrations::lark::types::LarkCliCapabilities;
use crate::integrations::lark::subscriber::spec_subscriber_args;
use crate::integrations::lark::subscriber::subscriber_args;
use crate::integrations::process::ProcessRequest;
use crate::integrations::process::ProcessRunner;
use crate::integrations::version::spec_read_version;
use crate::integrations::version::spec_version_text;
use crate::text::copy_pairs;
use crate::text::copy_strings;
use crate::text::owned;
use crate::text::spec_pairs;
use crate::text::spec_strs;

verus! {

/// Explicit allow-listed environment for `lark-cli`.
pub type LarkCliEnvironment = CliEnvironment;

/// Safe process configuration for the pinned Lark CLI.
#[derive(Clone, Debug)]
pub struct LarkCliConfig {
    pub executable: String,
    pub cwd: String,
    pub environment: LarkCliEnvironment,
    pub timeout_ms: u64,
    pub stdout_limit: usize,
    pub stderr_limit: usize,
}

/// Typed version-pinned `lark-cli` client.
#[derive(Clone, Debug)]
pub struct LarkCli {
    config: LarkCliConfig,
    runner: ProcessRunner,
}

impl LarkCli {
    pub closed spec fn spec_config(&self) -> LarkCliConfig {
        self.config
    }

    pub closed spec fn spec_runner(&self) -> ProcessRunner {
        self.runner
    }

    pub fn new(config: LarkCliConfig) -> (r: Self)
        ensures
            r.spec_config() == config,
            r.spec_runner().spec_timeout_ms() == config.timeout_ms,
            r.spec_runner().spec_stdout_limit() == config.stdout_limit,
            r.spec_runner().spec_stderr_limit() == config.stderr_limit,
    {
        let runner = ProcessRunner::new(config.timeout_ms, config.stdout_limit, config.stderr_limit);
        LarkCli { config, runner }
    }

    pub fn runner(&self) -> (r: &ProcessRunner)
        ensures
            *r == self.spec_runner(),
    {
        &self.runner
    }

    pub fn cwd(&self) -> (r: &str)
        ensures
            r@ == self.spec_config().cwd@,
    {
        self.config.cwd.as_str()
    }

    /// The request running `args`; the environment's secrets and
    /// `content_redactions` are redacted from its diagnostics.
    pub fn request(&self, args: Vec<String>, content_redactions: &Vec<String>) -> (r: ProcessRequest)
        ensures
            r.executable@ == self.spec_config().executable@,
            r.cwd@ == self.spec_config().cwd@,
            r.args == args,
            spec_pairs(r.env@) == spec_pairs(self.spec_config().environment.values@),
            spec_strs(r.redactions@) == spec_strs(self.spec_config().environment.redactions@) + spec_strs(
                content_redactions@,
            ),
    {
        let mut redactions = copy_strings(&self.config.environment.redactions);
        let ghost base = spec_strs(redactions@);
        let mut i: usize = 0;
        while i < content_redactions.len()
            invariant
                i <= content_redactions@.len(),
                spec_strs(redactions@) == base + spec_strs(content_redactions@.take(i as int)),
            decreases content_redactions.len() - i,
        {
            let ghost before = redactions@;
            redactions.push(content_redactions[i].clone());
            assert(spec_strs(redactions@) =~= spec_strs(before).push(content_redactions@[i as int]@));
            assert(spec_strs(content_redactions@.take(i + 1)) =~= spec_strs(content_redactions@.take(i as int)).push(
                content_redactions@[i as int]@,
            ));
            assert(spec_strs(redactions@) =~= base + spec_strs(content_redactions@.take(i + 1)));
            i += 1;
        }
        assert(content_redactions@.take(content_redactions@.len() as int) =~= content_redactions@);
        ProcessRequest {
            executable: self.config.executable.clone(),
            args,
            cwd: self.config.cwd.clone(),
            env: copy_pairs(&self.config.environment.values),
            redactions,
        }
    }

    /// The request of `--version`.
    pub fn version_request(&self) -> (r: ProcessRequest)
        ensures
            r.executable@ == self.spec_config().executable@,
            spec_strs(r.args@) == seq!["--version"@],
            spec_strs(r.redactions@) == spec_strs(self.spec_config().environment.redactions@),
    {
        let mut args: Vec<String> = Vec::new();
        args.push(owned("--version"));
        assert(spec_strs(args@) =~= seq!["--version"@]);
        let none: Vec<String> = Vec::new();
        let r = self.request(args, &none);
        assert(spec_strs(none@) =~= Seq::<Seq<char>>::empty());
        assert(spec_strs(r.redactions@) =~= spec_strs(self.spec_config().environment.redactions@));
        r
    }

    /// The pinned version read from `--version`, with its verified capabilities.
    pub fn verify_output(stdout: &[u8]) -> (r: Result<(LarkCliVersion, LarkCliCapabilities), LarkCliError>)
        ensures
            match spec_read_version(stdout@, "lark-cli version "@) {
                None => r == Err::<(LarkCliVersion, LarkCliCapabilities), LarkCliError>(LarkCliError::MalformedVersion),
                Some(p) => if p == (1u64, 0u64, 0u64, Seq::<char>::empty(), Seq::<char>::empty()) {
                    r matches Ok((v, c)) && v.parts() == p && c.spec_all()
                } else {
                    r matches Err(LarkCliError::UnsupportedVersion { actual }) && actual@ == spec_version_text(p)
                },
            },
    {
        let version = match LarkCliVersion::parse(stdout) {
            Ok(v) => v,
            Err(e) => {
                return Err(e);
            },
        };
        Ok((version, LarkCliCapabilities::verified()))
    }
}

/// The singleton subscription process: the CLI's executable, directory and
/// environment, running `event +subscribe` as the bot.
#[derive(Clone, Debug)]
pub struct LarkSubscriberSpec {
    pub executable: String,
    pub args: Vec<String>,
    pub cwd: String,
    pub environment: Vec<(String, String)>,
}

impl LarkSubscriberSpec {
    pub fn from_cli(cli: &LarkCli) -> (r: Self)
        ensures
            r.executable@ == cli.spec_config().executable@,
            spec_strs(r.args@) == spec_subscriber_args(),
            r.cwd@ == cli.spec_config().cwd@,
            spec_pairs(r.environment@) == spec_pairs(cli.spec_config().environment.values@),
    {
        LarkSubscriberSpec {
            executable: cli.config.executable.clone(),
            args: subscriber_args(),
            cwd: cli.config.cwd.clone(),
            environment: copy_pairs(&cli.config.environment.values),
        }
    }
}

} // verus!
