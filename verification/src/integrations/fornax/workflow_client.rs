//! The facade a workflow sees of Fornax: read and save through the CLI, and
//! trace writing only where a durable writer was configured.
use vstd::prelude::*;

verus! {

#[derive(Clone, Copy, Debug, PartialEq, Eq, Structural)]
pub enum FornaxCapabilityError {
    TraceWriteUnavailable,
}

/// A CLI handle `C` and, optionally, a durable trace writer `W`.
#[derive(Clone)]
pub struct FornaxWorkflowClient<C, W> {
    cli: C,
    trace_writer: Option<W>,
}

impl<C, W> FornaxWorkflowClient<C, W> {
    pub closed spec fn spec_cli(&self) -> C {
        self.cli
    }

    pub closed spec fn spec_trace_writer(&self) -> Option<W> {
        self.trace_writer
    }

    pub fn new(cli: C, trace_writer: Option<W>) -> (r: Self)
        ensures
            r.spec_cli() == cli,
            r.spec_trace_writer() == trace_writer,
    {
        FornaxWorkflowClient { cli, trace_writer }
    }

    pub fn prompts(&self) -> (r: &C)
        ensures
            *r == self.spec_cli(),
    {
        &self.cli
    }

    pub fn skills(&self) -> (r: &C)
        ensures
            *r == self.spec_cli(),
    {
        &self.cli
    }

    pub fn trace_reader(&self) -> (r: &C)
        ensures
            *r == self.spec_cli(),
    {
        &self.cli
    }

    /// The trace writer, refused when none was configured.
    pub fn trace_writer(&self) -> (r: Result<&W, FornaxCapabilityError>)
        ensures
            match self.spec_trace_writer() {
                Some(w) => r == Ok::<&W, FornaxCapabilityError>(&w),
                None => r == Err::<&W, FornaxCapabilityError>(FornaxCapabilityError::TraceWriteUnavailable),
            },
    {
        match &self.trace_writer {
            Some(w) => Ok(w),
            None => Err(FornaxCapabilityError::TraceWriteUnavailable),
        }
    }
}

} // verus!
