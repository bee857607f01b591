//! Bounded structured process invocations: request checks, output bounds,
//! the wait-loop decisions, and how outcomes and diagnostics are reported.
use vstd::prelude::*;

use crate::integrations::fornax::redaction::spec_redact;
use crate::integrations::fornax::redaction::Redactor;
use crate::integrations::fornax::redaction::spec_prepare_secrets;
use crate::integrations::fornax::redaction_law::lemma_subrange_free;
use crate::integrations::fornax::redaction_law::law_redaction_removes_secrets;
use crate::integrations::fornax::redaction_law::spec_free_of;
use crate::integrations::fornax::redaction_law::spec_mask_safe;
use crate::text::chars_of;
use crate::text::owned;
use crate::text::spec_blank;
use crate::text::string_of;
use crate::text::is_whitespace;

verus! {

/// Failures of one bounded external process invocation.
#[derive(Clone, Debug, PartialEq, Eq)]
pub enum ProcessError {
    ExecutableIsNotAbsolute,
    WorkingDirectoryIsNotAbsolute,
    Spawn { message: String },
    Collect { message: String },
    Exit { status_code: i32, diagnostic: String },
    Timeout,
    Cancelled,
    OutputLimit { stream: &'static str, limit: usize },
}

/// One bounded, structured process invocation.
#[derive(Clone, Debug)]
pub struct ProcessRequest {
    pub executable: String,
    pub args: Vec<String>,
    pub cwd: String,
    pub env: Vec<(String, String)>,
    pub redactions: Vec<String>,
}

/// Successful bounded process output.
#[derive(Clone, Debug, PartialEq, Eq)]
pub struct ProcessOutput {
    pub status_code: i32,
    pub stdout: Vec<u8>,
    pub stderr_diagnostic: String,
}

/// Runs external commands with controlled environment, output, and lifetime.
#[derive(Clone, Debug)]
pub struct ProcessRunner {
    timeout_ms: u64,
    poll_interval_ms: u64,
    stdout_limit: usize,
    stderr_limit: usize,
}

/// What the wait loop does next.
#[derive(Clone, Copy, Debug, PartialEq, Eq, Structural)]
pub enum PollAction {
    /// Kill the process group and report cancellation.
    Cancel,
    /// Kill the process group and report the timeout.
    TimeOut,
    /// The child exited: collect its output.
    Collect,
    /// Sleep one poll interval and look again.
    Wait,
}

/// The bytes kept from one output stream and whether any were dropped.
#[derive(Clone, Debug, PartialEq, Eq)]
pub struct BoundedRead {
    pub bytes: Vec<u8>,
    pub exceeded: bool,
}

/// `String::from_utf8_lossy`: the text of `bytes`, with invalid sequences replaced.
pub uninterp spec fn utf8_lossy(bytes: Seq<u8>) -> Seq<char>;

/// `String::from_utf8_lossy(bytes).into_owned()`; on valid UTF-8 it decodes exactly.
#[verifier::external_body]
pub(crate) fn from_utf8_lossy(bytes: &[u8]) -> (r: String)
    ensures
        r@ == utf8_lossy(bytes@),
        vstd::utf8::valid_utf8(bytes@) ==> r@ == vstd::utf8::decode_utf8(bytes@),
{
    String::from_utf8_lossy(bytes).into_owned()
}

/// An absolute Unix path starts at the root.
pub open spec fn spec_is_absolute(path: Seq<char>) -> bool {
    path.len() > 0 && path[0] == '/'
}

pub fn is_absolute(path: &str) -> (r: bool)
    ensures
        r == spec_is_absolute(path@),
{
    let cs = chars_of(path);
    cs.len() > 0 && cs[0] == '/'
}

impl BoundedRead {
    pub fn new() -> (r: Self)
        ensures
            r.bytes@.len() == 0,
            !r.exceeded,
    {
        BoundedRead { bytes: Vec::new(), exceeded: false }
    }

    /// Keeps as much of `chunk` as fits under `limit`; notes what was dropped.
    pub fn accept(&mut self, chunk: &[u8], limit: usize)
        ensures
            ({
                let remaining = if old(self).bytes@.len() >= limit {
                    0
                } else {
                    limit - old(self).bytes@.len()
                };
                let kept = if chunk@.len() <= remaining {
                    chunk@.len() as int
                } else {
                    remaining
                };
                &&& final(self).bytes@ == old(self).bytes@ + chunk@.take(kept)
                &&& final(self).exceeded == (old(self).exceeded || chunk@.len() > remaining)
            }),
    {
        let remaining: usize = if self.bytes.len() >= limit {
            0
        } else {
            limit - self.bytes.len()
        };
        let kept = if chunk.len() <= remaining {
            chunk.len()
        } else {
            remaining
        };
        let ghost before = self.bytes@;
        let ghost old_exceeded = self.exceeded;
        let mut i: usize = 0;
        while i < kept
            invariant
                i <= kept <= chunk@.len(),
                self.bytes@ == before + chunk@.take(i as int),
                self.exceeded == old_exceeded,
            decreases kept - i,
        {
            self.bytes.push(chunk[i]);
            assert(chunk@.take(i + 1) == chunk@.take(i as int).push(chunk@[i as int]));
            i += 1;
        }
        self.exceeded = self.exceeded || chunk.len() > remaining;
    }
}

/// Where the line that starts at `i` ends: the next `\n`, else the end.
pub open spec fn spec_line_end(d: Seq<char>, i: int) -> int
    decreases d.len() - i,
{
    if i < 0 || i >= d.len() {
        d.len() as int
    } else if d[i] == '\n' {
        i
    } else {
        spec_line_end(d, i + 1)
    }
}

pub proof fn lemma_line_end(d: Seq<char>, i: int)
    requires
        0 <= i <= d.len(),
    ensures
        i <= spec_line_end(d, i) <= d.len(),
    decreases d.len() - i,
{
    if i < d.len() && d[i] != '\n' {
        lemma_line_end(d, i + 1);
    }
}

/// A line without the `\r` that may end it.
pub open spec fn spec_strip_cr(raw: Seq<char>) -> Seq<char> {
    if raw.len() > 0 && raw.last() == '\r' {
        raw.drop_last()
    } else {
        raw
    }
}

/// The first non-blank line from position `i` on, as `str::lines` splits.
pub open spec fn spec_first_line(d: Seq<char>, i: int) -> Option<Seq<char>>
    decreases d.len() + 1 - i,
{
    if i < 0 || i >= d.len() {
        None
    } else {
        let k = spec_line_end(d, i);
        let line = spec_strip_cr(d.subrange(i, k));
        proof {
            lemma_line_end(d, i);
        }
        if !spec_blank(line) {
            Some(line)
        } else {
            spec_first_line(d, k + 1)
        }
    }
}

/// One short diagnostic line: the first non-blank line, at most 512 characters.
pub open spec fn spec_bounded_line(d: Seq<char>) -> Seq<char> {
    let line = match spec_first_line(d, 0) {
        Some(l) => l,
        None => "no diagnostic was returned"@,
    };
    if line.len() > 512 {
        line.take(512)
    } else {
        line
    }
}

fn blank_range(cs: &Vec<char>, lo: usize, hi: usize) -> (r: bool)
    requires
        lo <= hi <= cs.len(),
    ensures
        r == spec_blank(cs@.subrange(lo as int, hi as int)),
{
    let mut i = lo;
    while i < hi
        invariant
            lo <= i <= hi <= cs.len(),
            forall|j: int| lo <= j < i ==> crate::text::spec_whitespace(#[trigger] cs@[j]),
        decreases hi - i,
    {
        if !is_whitespace(cs[i]) {
            assert(!crate::text::spec_whitespace(cs@.subrange(lo as int, hi as int)[i - lo]));
            return false;
        }
        i += 1;
    }
    assert forall|j: int| 0 <= j < hi - lo implies crate::text::spec_whitespace(
        #[trigger] cs@.subrange(lo as int, hi as int)[j],
    ) by {
        assert(cs@.subrange(lo as int, hi as int)[j] == cs@[lo + j]);
    }
    true
}

fn line_end(cs: &Vec<char>, i: usize) -> (r: usize)
    requires
        i <= cs.len(),
    ensures
        r == spec_line_end(cs@, i as int),
{
    let mut k = i;
    while k < cs.len()
        invariant
            i <= k <= cs.len(),
            spec_line_end(cs@, i as int) == spec_line_end(cs@, k as int),
        decreases cs.len() - k,
    {
        if cs[k] == '\n' {
            return k;
        }
        k += 1;
    }
    k
}

/// The first non-blank line, as a range of `cs`.
fn first_line(cs: &Vec<char>) -> (r: Option<(usize, usize)>)
    ensures
        match r {
            Some((a, b)) => a <= b <= cs.len() && spec_first_line(cs@, 0) == Some(
                cs@.subrange(a as int, b as int),
            ),
            None => spec_first_line(cs@, 0) is None,
        },
{
    let mut start: usize = 0;
    while start < cs.len()
        invariant
            start <= cs.len(),
            spec_first_line(cs@, 0) == spec_first_line(cs@, start as int),
        decreases cs.len() - start,
    {
        let k = line_end(cs, start);
        proof {
            lemma_line_end(cs@, start as int);
        }
        let mut end = k;
        if end > start && cs[end - 1] == '\r' {
            end -= 1;
        }
        assert(cs@.subrange(start as int, end as int) == spec_strip_cr(cs@.subrange(start as int, k as int)));
        if !blank_range(cs, start, end) {
            return Some((start, end));
        }
        assert(spec_first_line(cs@, start as int) == spec_first_line(cs@, k + 1));
        if k >= cs.len() {
            assert(spec_first_line(cs@, k + 1) is None);
            return None;
        }
        start = k + 1;
    }
    None
}

/// The diagnostic reported for a failed command.
pub fn bounded_line(diagnostic: &str) -> (r: String)
    ensures
        r@ == spec_bounded_line(diagnostic@),
{
    let cs = chars_of(diagnostic);
    let line: Vec<char> = match first_line(&cs) {
        Some((a, b)) => {
            let mut out: Vec<char> = Vec::new();
            let mut i = a;
            while i < b
                invariant
                    a <= i <= b <= cs.len(),
                    out@ == cs@.subrange(a as int, i as int),
                decreases b - i,
            {
                out.push(cs[i]);
                assert(cs@.subrange(a as int, i + 1) == cs@.subrange(a as int, i as int).push(cs@[i as int]));
                i += 1;
            }
            out
        },
        None => chars_of("no diagnostic was returned"),
    };
    if line.len() > 512 {
        let mut out: Vec<char> = Vec::new();
        let mut i: usize = 0;
        while i < 512
            invariant
                i <= 512 <= line.len(),
                out@ == line@.take(i as int),
            decreases 512 - i,
        {
            out.push(line[i]);
            assert(line@.take(i + 1) == line@.take(i as int).push(line@[i as int]));
            i += 1;
        }
        string_of(&out)
    } else {
        string_of(&line)
    }
}

/// How an exited child is reported: over-long output first, then a failed
/// exit (`code` is `None` when a signal ended it), else the output; stderr is
/// decoded lossily and redacted.
pub open spec fn spec_finished(
    stdout_limit: usize,
    stderr_limit: usize,
    secrets: Seq<Seq<char>>,
    success: bool,
    code: Option<i32>,
    stdout: BoundedRead,
    stderr: BoundedRead,
    r: Result<ProcessOutput, ProcessError>,
) -> bool {
    let diagnostic = spec_redact(secrets, utf8_lossy(stderr.bytes@))->0;
    let status_code: i32 = match code {
        Some(c) => c,
        None => -1i32,
    };
    if stdout.exceeded {
        r matches Err(ProcessError::OutputLimit { stream, limit }) && stream@ == "stdout"@ && limit
            == stdout_limit
    } else if stderr.exceeded {
        r matches Err(ProcessError::OutputLimit { stream, limit }) && stream@ == "stderr"@ && limit
            == stderr_limit
    } else if !success {
        r matches Err(ProcessError::Exit { status_code: c, diagnostic: d }) && c == status_code && d@
            == spec_bounded_line(diagnostic)
    } else {
        r matches Ok(out) && out.status_code == status_code && out.stdout@ == stdout.bytes@
            && out.stderr_diagnostic@ == diagnostic
    }
}

impl ProcessRunner {
    /// Creates a production runner with explicit hard bounds; it polls every 5 ms.
    pub fn new(timeout_ms: u64, stdout_limit: usize, stderr_limit: usize) -> (r: Self)
        ensures
            r.spec_timeout_ms() == timeout_ms,
            r.spec_poll_interval_ms() == 5,
            r.spec_stdout_limit() == stdout_limit,
            r.spec_stderr_limit() == stderr_limit,
    {
        ProcessRunner { timeout_ms, poll_interval_ms: 5, stdout_limit, stderr_limit }
    }

    pub closed spec fn spec_timeout_ms(&self) -> u64 {
        self.timeout_ms
    }

    pub closed spec fn spec_poll_interval_ms(&self) -> u64 {
        self.poll_interval_ms
    }

    pub closed spec fn spec_stdout_limit(&self) -> usize {
        self.stdout_limit
    }

    pub closed spec fn spec_stderr_limit(&self) -> usize {
        self.stderr_limit
    }

    pub fn poll_interval_ms(&self) -> (r: u64)
        ensures
            r == self.spec_poll_interval_ms(),
    {
        self.poll_interval_ms
    }

    pub fn stdout_limit(&self) -> (r: usize)
        ensures
            r == self.spec_stdout_limit(),
    {
        self.stdout_limit
    }

    pub fn stderr_limit(&self) -> (r: usize)
        ensures
            r == self.spec_stderr_limit(),
    {
        self.stderr_limit
    }

    /// The executable and the working directory must be absolute.
    pub fn check_request(&self, request: &ProcessRequest) -> (r: Result<(), ProcessError>)
        ensures
            !spec_is_absolute(request.executable@) ==> r == Err::<(), ProcessError>(
                ProcessError::ExecutableIsNotAbsolute,
            ),
            spec_is_absolute(request.executable@) && !spec_is_absolute(request.cwd@) ==> r == Err::<
                (),
                ProcessError,
            >(ProcessError::WorkingDirectoryIsNotAbsolute),
            r is Ok <==> spec_is_absolute(request.executable@) && spec_is_absolute(request.cwd@),
    {
        if !is_absolute(request.executable.as_str()) {
            return Err(ProcessError::ExecutableIsNotAbsolute);
        }
        if !is_absolute(request.cwd.as_str()) {
            return Err(ProcessError::WorkingDirectoryIsNotAbsolute);
        }
        Ok(())
    }

    /// One turn of the wait loop: cancellation wins, then the deadline, then the exit.
    pub fn poll_action(&self, cancelled: bool, elapsed_ms: u64, exited: bool) -> (r: PollAction)
        ensures
            r == (if cancelled {
                PollAction::Cancel
            } else if elapsed_ms >= self.spec_timeout_ms() {
                PollAction::TimeOut
            } else if exited {
                PollAction::Collect
            } else {
                PollAction::Wait
            }),
    {
        if cancelled {
            PollAction::Cancel
        } else if elapsed_ms >= self.timeout_ms {
            PollAction::TimeOut
        } else if exited {
            PollAction::Collect
        } else {
            PollAction::Wait
        }
    }

    /// Reports an exited child: over-long output first, then a failed exit
    /// (`code` is `None` when a signal ended it), else the output.
    pub fn finish(
        &self,
        redactor: &Redactor,
        success: bool,
        code: Option<i32>,
        stdout: BoundedRead,
        stderr: BoundedRead,
    ) -> (r: Result<ProcessOutput, ProcessError>)
        ensures
            spec_finished(
                self.spec_stdout_limit(),
                self.spec_stderr_limit(),
                redactor.secrets(),
                success,
                code,
                stdout,
                stderr,
                r,
            ),
    {
        proof {
            reveal_strlit("stdout");
            reveal_strlit("stderr");
        }
        if stdout.exceeded {
            return Err(ProcessError::OutputLimit { stream: "stdout", limit: self.stdout_limit });
        }
        if stderr.exceeded {
            return Err(ProcessError::OutputLimit { stream: "stderr", limit: self.stderr_limit });
        }
        let text = from_utf8_lossy(stderr.bytes.as_slice());
        let diagnostic = redactor.redact(text.as_str());
        let status_code = match code {
            Some(c) => c,
            None => -1,
        };
        if !success {
            return Err(ProcessError::Exit { status_code, diagnostic: bounded_line(diagnostic.as_str()) });
        }
        Ok(ProcessOutput { status_code, stdout: stdout.bytes, stderr_diagnostic: diagnostic })
    }
}

proof fn lemma_first_line_free(d: Seq<char>, i: int, s: Seq<char>)
    requires
        spec_free_of(d, s),
    ensures
        spec_first_line(d, i) matches Some(l) ==> spec_free_of(l, s),
    decreases d.len() + 1 - i,
{
    if 0 <= i < d.len() {
        let k = spec_line_end(d, i);
        lemma_line_end(d, i);
        let raw = d.subrange(i, k);
        lemma_subrange_free(d, s, i, k);
        if raw.len() > 0 && raw.last() == '\r' {
            lemma_subrange_free(raw, s, 0, raw.len() - 1);
            assert(raw.drop_last() =~= raw.subrange(0, raw.len() - 1));
        }
        lemma_first_line_free(d, k + 1, s);
    }
}

/// Diagnostics hold no configured secret: when every non-empty value a
/// request asks to redact holds no bracket, does not occur inside
/// `[REDACTED]` and does not occur in the text reported for an empty
/// diagnostic, neither the redacted standard error nor the one-line
/// diagnostic of a failed exit holds any of them.
pub proof fn law_diagnostics_hold_no_secret(configured: Seq<Seq<char>>, stderr: Seq<char>)
    requires
        forall|k: int|
            0 <= k < configured.len() && configured[k].len() > 0 ==> spec_mask_safe(#[trigger] configured[k])
                && spec_free_of("no diagnostic was returned"@, configured[k]),
    ensures
        spec_redact(spec_prepare_secrets(configured), stderr) matches Some(d) ==> forall|k: int|
            0 <= k < configured.len() && configured[k].len() > 0 ==> spec_free_of(d, #[trigger] configured[k])
                && spec_free_of(spec_bounded_line(d), configured[k]),
{
    law_redaction_removes_secrets(configured, stderr);
    if let Some(d) = spec_redact(spec_prepare_secrets(configured), stderr) {
        assert forall|k: int| 0 <= k < configured.len() && configured[k].len() > 0 implies spec_free_of(
            d,
            #[trigger] configured[k],
        ) && spec_free_of(spec_bounded_line(d), configured[k]) by {
            let c = configured[k];
            lemma_first_line_free(d, 0, c);
            let line = match spec_first_line(d, 0) {
                Some(l) => l,
                None => "no diagnostic was returned"@,
            };
            if line.len() > 512 {
                lemma_subrange_free(line, c, 0, 512);
                assert(line.take(512) =~= line.subrange(0, 512));
            }
        }
    }
}

} // verus!
