//! The one error type of the pipeline: where it failed, and why.

use vstd::prelude::*;

verus! {

/// The step of the pipeline at which an input was rejected.
#[derive(Debug, Clone, Copy, PartialEq, Eq, Structural)]
pub enum ErrorKind {
    /// The payload is not a string of hexadecimal digit pairs.
    HexDecode,
    /// The payload bytes are not an ABI tuple of three strings.
    AbiShape,
    /// The content store did not deliver a text.
    ContentFetch,
    /// The delivered text is not a list of ownership records.
    Structure,
}

/// A failure of the pipeline: the step that failed and the cause it gave.
#[derive(Debug, Clone, PartialEq, Eq)]
pub struct PipelineError {
    pub kind: ErrorKind,
    pub cause: String,
}

/// A `PipelineError` as a mathematical value.
pub struct Fault {
    pub kind: ErrorKind,
    pub cause: Seq<char>,
}

impl View for PipelineError {
    type V = Fault;

    open spec fn view(&self) -> Fault {
        Fault { kind: self.kind, cause: self.cause@ }
    }
}

/// The words that name a step in an error message.
pub open spec fn kind_label(kind: ErrorKind) -> Seq<char> {
    match kind {
        ErrorKind::HexDecode => "invalid hex payload"@,
        ErrorKind::AbiShape => "payload does not match the ABI schema"@,
        ErrorKind::ContentFetch => "content fetch failed"@,
        ErrorKind::Structure => "invalid dataset structure"@,
    }
}

/// The message of a fault: the step's label, a colon, and the cause.
pub open spec fn fault_message(fault: Fault) -> Seq<char> {
    kind_label(fault.kind) + ": "@ + fault.cause
}

/// No fault has an empty message.
pub proof fn lemma_fault_message_nonempty(fault: Fault)
    ensures
        fault_message(fault).len() > 0,
{
    reveal_strlit(": ");
}

impl PipelineError {
    /// A failure of the given kind.
    pub fn new(kind: ErrorKind, cause: String) -> (res: PipelineError)
        ensures
            res@ == (Fault { kind, cause: cause@ }),
    {
        PipelineError { kind, cause }
    }

    /// The message that is reported for this failure.
    pub fn message(&self) -> (res: String)
        ensures
            res@ == fault_message(self@),
            res@.len() > 0,
    {
        let label: &'static str = match self.kind {
            ErrorKind::HexDecode => "invalid hex payload",
            ErrorKind::AbiShape => "payload does not match the ABI schema",
            ErrorKind::ContentFetch => "content fetch failed",
            ErrorKind::Structure => "invalid dataset structure",
        };
        proof {
            lemma_fault_message_nonempty(self@);
        }
        String::from_str(label).concat(": ").concat(self.cause.as_str())
    }
}

} // verus!
