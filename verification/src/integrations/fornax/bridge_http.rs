//! The decisions of the local bridge's HTTP client: which endpoint and
//! credential are trusted, which responses are too large, the request paths,
//! and what a failed request means.
use vstd::prelude::*;

use crate::ids::spec_uuid_text;
use crate::ids::uuid_text;
use crate::integrations::fornax::bridge_config::FornaxBridgeError;
use crate::integrations::fornax::bridge_protocol::RetryDisposition;
use crate::text::owned;
use crate::text::push_str;
use crate::text::str_eq;
use vstd::string::StrSliceExecFns;

verus! {

/// Responses above 256 KiB are refused.
pub const MAX_RESPONSE_BYTES: usize = 262144;

/// The `error` member of a failed bridge response.
#[derive(Clone, Debug, PartialEq, Eq)]
pub struct BridgeRemoteError {
    pub code: String,
    pub message: String,
    pub operation_id: Option<u128>,
    pub retry: RetryDisposition,
}

#[derive(Clone, Debug, PartialEq, Eq)]
pub struct BridgeErrorEnvelope {
    pub error: BridgeRemoteError,
}

/// The parts of a URL that the endpoint check reads.
#[derive(Clone, Debug, PartialEq, Eq)]
pub struct UrlParts {
    pub scheme: String,
    pub username: String,
    pub password: Option<String>,
    pub host: Option<String>,
    pub port: Option<u16>,
    pub path: String,
    pub query: Option<String>,
    pub fragment: Option<String>,
}

pub open spec fn spec_opt_view(o: Option<String>) -> Option<Seq<char>> {
    match o {
        Some(s) => Some(s@),
        None => None,
    }
}

/// The parts as plain values.
pub open spec fn spec_url_view(p: UrlParts) -> (
    Seq<char>,
    Seq<char>,
    Option<Seq<char>>,
    Option<Seq<char>>,
    Option<u16>,
    Seq<char>,
    Option<Seq<char>>,
    Option<Seq<char>>,
) {
    (
        p.scheme@,
        p.username@,
        spec_opt_view(p.password),
        spec_opt_view(p.host),
        p.port,
        p.path@,
        spec_opt_view(p.query),
        spec_opt_view(p.fragment),
    )
}

/// What `url::Url::parse` gives for `text`, by its parts.
pub uninterp spec fn url_parse(text: Seq<char>) -> Option<
    (
        Seq<char>,
        Seq<char>,
        Option<Seq<char>>,
        Option<Seq<char>>,
        Option<u16>,
        Seq<char>,
        Option<Seq<char>>,
        Option<Seq<char>>,
    ),
>;

/// `url::Url::parse`: the parsed URL's scheme, user name, password, host,
/// explicit port, path, query and fragment, or `None` where it is refused.
#[verifier::external_body]
fn parse_url(text: &str) -> (r: Option<UrlParts>)
    ensures
        match r {
            Some(p) => url_parse(text@) == Some(spec_url_view(p)),
            None => url_parse(text@) is None,
        },
{
    match url::Url::parse(text) {
        Ok(u) => Some(
            UrlParts {
                scheme: u.scheme().to_string(),
                username: u.username().to_string(),
                password: u.password().map(|s| s.to_string()),
                host: u.host_str().map(|s| s.to_string()),
                port: u.port(),
                path: u.path().to_string(),
                query: u.query().map(|s| s.to_string()),
                fragment: u.fragment().map(|s| s.to_string()),
            },
        ),
        Err(_) => None,
    }
}

/// A trusted endpoint is plain HTTP to the loopback address on an explicit
/// port, at the root path, without credentials, query or fragment.
pub open spec fn spec_endpoint_port(p: (
    Seq<char>,
    Seq<char>,
    Option<Seq<char>>,
    Option<Seq<char>>,
    Option<u16>,
    Seq<char>,
    Option<Seq<char>>,
    Option<Seq<char>>,
)) -> Option<u16> {
    if p.0 == "http"@ && p.1.len() == 0 && p.2 is None && p.6 is None && p.7 is None && p.5 == "/"@
        && p.3 == Some("127.0.0.1"@) && p.4 is Some {
        p.4
    } else {
        None
    }
}

/// The port of a trusted endpoint; anything else is an insecure descriptor.
pub fn check_endpoint(parts: &UrlParts) -> (r: Result<u16, FornaxBridgeError>)
    ensures
        match spec_endpoint_port(spec_url_view(*parts)) {
            Some(port) => r == Ok::<u16, FornaxBridgeError>(port),
            None => r == Err::<u16, FornaxBridgeError>(FornaxBridgeError::InsecureDescriptor),
        },
{
    let host_ok = match &parts.host {
        Some(h) => str_eq(h.as_str(), "127.0.0.1"),
        None => false,
    };
    if !str_eq(parts.scheme.as_str(), "http") || parts.username.as_str().unicode_len() != 0
        || parts.password.is_some() || parts.query.is_some() || parts.fragment.is_some() || !str_eq(
        parts.path.as_str(),
        "/",
    ) || !host_ok {
        return Err(FornaxBridgeError::InsecureDescriptor);
    }
    match parts.port {
        Some(port) => Ok(port),
        None => Err(FornaxBridgeError::InsecureDescriptor),
    }
}

/// The bridge endpoint named in a discovery record, checked; the client
/// talks to `http://127.0.0.1:<port>/`.
pub fn validate_endpoint(value: &str) -> (r: Result<u16, FornaxBridgeError>)
    ensures
        match url_parse(value@) {
            None => r == Err::<u16, FornaxBridgeError>(FornaxBridgeError::InsecureDescriptor),
            Some(p) => match spec_endpoint_port(p) {
                Some(port) => r == Ok::<u16, FornaxBridgeError>(port),
                None => r == Err::<u16, FornaxBridgeError>(FornaxBridgeError::InsecureDescriptor),
            },
        },
{
    match parse_url(value) {
        Some(parts) => check_endpoint(&parts),
        None => Err(FornaxBridgeError::InsecureDescriptor),
    }
}

/// What is known of the credential file named by a discovery record.
#[derive(Clone, Debug, PartialEq, Eq)]
pub struct CredentialFile {
    /// Its resolved directory is the resolved state directory.
    pub in_state_dir: bool,
    pub file_name: Option<String>,
    pub is_file: bool,
    pub is_symlink: bool,
    pub mode: u32,
    pub uid: u32,
    pub state_dir_uid: u32,
    /// The `token` member of its JSON, when it could be read.
    pub token: Option<String>,
}

pub open spec fn spec_credential_ok(c: CredentialFile) -> bool {
    &&& c.in_state_dir
    &&& c.file_name matches Some(n) && n@ == "credential.json"@
    &&& c.is_file && !c.is_symlink
    &&& c.mode & 0o77 == 0
    &&& c.uid == c.state_dir_uid
    &&& c.token matches Some(t) && vstd::utf8::encode_utf8(t@).len() >= 43
}

/// The bearer token, from a private regular file named `credential.json` in
/// the state directory, owned by the state directory's owner, holding at
/// least 43 bytes of token.
pub fn check_credential(c: CredentialFile) -> (r: Result<String, FornaxBridgeError>)
    ensures
        spec_credential_ok(c) ==> (r matches Ok(t) && c.token == Some(t)),
        !spec_credential_ok(c) ==> r == Err::<String, FornaxBridgeError>(FornaxBridgeError::InsecureDescriptor),
{
    let name_ok = match &c.file_name {
        Some(n) => str_eq(n.as_str(), "credential.json"),
        None => false,
    };
    if !c.in_state_dir || !name_ok || !c.is_file || c.is_symlink || c.mode & 0o77 != 0 || c.uid
        != c.state_dir_uid {
        return Err(FornaxBridgeError::InsecureDescriptor);
    }
    match c.token {
        Some(t) => {
            if t.as_str().as_bytes_vec().len() < 43 {
                Err(FornaxBridgeError::InsecureDescriptor)
            } else {
                Ok(t)
            }
        },
        None => Err(FornaxBridgeError::InsecureDescriptor),
    }
}

/// A declared content length over the bound.
pub fn declared_too_large(content_length: Option<u64>) -> (r: bool)
    ensures
        r == (content_length matches Some(n) && n > MAX_RESPONSE_BYTES),
{
    match content_length {
        Some(n) => n > 262144,
        None => false,
    }
}

/// A request that failed in transport: a mutation may have happened, so it
/// is ambiguous when it carried an operation id.
pub fn transport_error(operation_id: Option<u128>) -> (r: FornaxBridgeError)
    ensures
        r == match operation_id {
            Some(o) => FornaxBridgeError::AmbiguousMutation { operation_id: o },
            None => FornaxBridgeError::Transport,
        },
{
    match operation_id {
        Some(o) => FornaxBridgeError::AmbiguousMutation { operation_id: o },
        None => FornaxBridgeError::Transport,
    }
}

/// The failure a named bridge error code stands for.
pub open spec fn spec_named_failure(code: Seq<char>) -> Option<FornaxBridgeError> {
    if code == "localAuthentication"@ {
        Some(FornaxBridgeError::LocalAuthentication)
    } else if code == "unsupportedVersion"@ {
        Some(FornaxBridgeError::VersionMismatch)
    } else if code == "queueFull"@ {
        Some(FornaxBridgeError::QueueFull)
    } else if code == "unknownSpan"@ {
        Some(FornaxBridgeError::UnknownSpan)
    } else if code == "unknownContext"@ {
        Some(FornaxBridgeError::UnknownContext)
    } else if code == "orphanedSpan"@ {
        Some(FornaxBridgeError::OrphanedSpan)
    } else if code == "sdkAuthentication"@ {
        Some(FornaxBridgeError::SdkAuthentication)
    } else if code == "sdkRejected"@ {
        Some(FornaxBridgeError::SdkRejected)
    } else if code == "shuttingDown"@ {
        Some(FornaxBridgeError::ShuttingDown)
    } else {
        None
    }
}

fn named_failure(code: &str) -> (r: Option<FornaxBridgeError>)
    ensures
        r == spec_named_failure(code@),
{
    if str_eq(code, "localAuthentication") {
        Some(FornaxBridgeError::LocalAuthentication)
    } else if str_eq(code, "unsupportedVersion") {
        Some(FornaxBridgeError::VersionMismatch)
    } else if str_eq(code, "queueFull") {
        Some(FornaxBridgeError::QueueFull)
    } else if str_eq(code, "unknownSpan") {
        Some(FornaxBridgeError::UnknownSpan)
    } else if str_eq(code, "unknownContext") {
        Some(FornaxBridgeError::UnknownContext)
    } else if str_eq(code, "orphanedSpan") {
        Some(FornaxBridgeError::OrphanedSpan)
    } else if str_eq(code, "sdkAuthentication") {
        Some(FornaxBridgeError::SdkAuthentication)
    } else if str_eq(code, "sdkRejected") {
        Some(FornaxBridgeError::SdkRejected)
    } else if str_eq(code, "shuttingDown") {
        Some(FornaxBridgeError::ShuttingDown)
    } else {
        None
    }
}

/// What a failed response with HTTP `status` means, given its decoded error
/// envelope (`None` when it was not one) and the operation id the request
/// carried.
pub open spec fn spec_classify_remote(
    status: u16,
    envelope: Option<BridgeErrorEnvelope>,
    expected_operation_id: Option<u128>,
) -> FornaxBridgeError {
    match envelope {
        None => FornaxBridgeError::InvalidResponse,
        Some(env) => {
            let op = match env.error.operation_id {
                Some(x) => Some(x),
                None => expected_operation_id,
            };
            if env.error.code@ == "ambiguousMutation"@ || env.error.retry == RetryDisposition::AfterStatusCheck {
                match op {
                    Some(o) => FornaxBridgeError::AmbiguousMutation { operation_id: o },
                    None => FornaxBridgeError::InvalidResponse,
                }
            } else {
                match spec_named_failure(env.error.code@) {
                    Some(e) => e,
                    None => FornaxBridgeError::Remote {
                        code: env.error.code,
                        operation_id: op,
                        retry: if status == 408 { RetryDisposition::AfterStatusCheck } else { env.error.retry },
                    },
                }
            }
        },
    }
}

pub fn classify_remote(
    status: u16,
    envelope: Option<BridgeErrorEnvelope>,
    expected_operation_id: Option<u128>,
) -> (r: FornaxBridgeError)
    ensures
        r == spec_classify_remote(status, envelope, expected_operation_id),
{
    let env = match envelope {
        None => return FornaxBridgeError::InvalidResponse,
        Some(env) => env,
    };
    let op = match env.error.operation_id {
        Some(x) => Some(x),
        None => expected_operation_id,
    };
    if str_eq(env.error.code.as_str(), "ambiguousMutation") || env.error.retry == RetryDisposition::AfterStatusCheck {
        return match op {
            Some(o) => FornaxBridgeError::AmbiguousMutation { operation_id: o },
            None => FornaxBridgeError::InvalidResponse,
        };
    }
    match named_failure(env.error.code.as_str()) {
        Some(e) => e,
        None => {
            let retry = if status == 408 {
                RetryDisposition::AfterStatusCheck
            } else {
                env.error.retry
            };
            FornaxBridgeError::Remote { code: env.error.code, operation_id: op, retry }
        },
    }
}

/// `v1/spans/<id>` followed by `suffix`.
fn span_path(span_handle_id: u128, suffix: &str) -> (r: String)
    ensures
        r@ == "v1/spans/"@ + spec_uuid_text(span_handle_id) + suffix@,
{
    let mut p = owned("v1/spans/");
    push_str(&mut p, uuid_text(span_handle_id).as_str());
    push_str(&mut p, suffix);
    p
}

pub fn records_path(span_handle_id: u128) -> (r: String)
    ensures
        r@ == "v1/spans/"@ + spec_uuid_text(span_handle_id) + "/records"@,
{
    span_path(span_handle_id, "/records")
}

pub fn finish_path(span_handle_id: u128) -> (r: String)
    ensures
        r@ == "v1/spans/"@ + spec_uuid_text(span_handle_id) + "/finish"@,
{
    span_path(span_handle_id, "/finish")
}

pub fn span_status_path(span_handle_id: u128) -> (r: String)
    ensures
        r@ == "v1/spans/"@ + spec_uuid_text(span_handle_id),
{
    let r = span_path(span_handle_id, "");
    proof {
        reveal_strlit("");
        assert(r@ =~= "v1/spans/"@ + spec_uuid_text(span_handle_id));
    }
    r
}

pub fn operation_path(operation_id: u128) -> (r: String)
    ensures
        r@ == "v1/operations/"@ + spec_uuid_text(operation_id),
{
    let mut p = owned("v1/operations/");
    push_str(&mut p, uuid_text(operation_id).as_str());
    p
}

} // verus!
