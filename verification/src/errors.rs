//! The pipeline's error taxonomy and the user-facing outcome messages.
//!
//! Every failure of the pipeline is recovered and turned into a descriptive
//! message; the service never aborts on a bad request.

use vstd::prelude::*;

verus! {

/// The kinds of failure one request can run into.
#[derive(Clone, Copy, Debug, PartialEq, Eq, Structural)]
pub enum ErrorKind {
    /// Malformed command text.
    Validation,
    /// The image could not be downloaded.
    Fetch,
    /// The staging file could not be written or protected.
    Io,
    /// The emoji endpoint could not be reached.
    UploadTransport,
    /// The endpoint's reply was not JSON, or had an unexpected shape.
    Parse,
    /// A well-formed reply that reports failure.
    SlackApi,
}

/// A recovered failure: its kind, and a human-readable detail string.
#[derive(Clone, Debug)]
pub struct PipelineError {
    pub kind: ErrorKind,
    pub detail: String,
}

/// The label under which each error kind appears in messages.
pub open spec fn kind_label(k: ErrorKind) -> Seq<char> {
    match k {
        ErrorKind::Validation => "validation error"@,
        ErrorKind::Fetch => "fetch error"@,
        ErrorKind::Io => "io error"@,
        ErrorKind::UploadTransport => "upload transport error"@,
        ErrorKind::Parse => "parse error"@,
        ErrorKind::SlackApi => "slack api error"@,
    }
}

/// Executable mirror of `kind_label`.
pub fn kind_label_str(k: ErrorKind) -> (r: &'static str)
    ensures
        r@ == kind_label(k),
{
    match k {
        ErrorKind::Validation => "validation error",
        ErrorKind::Fetch => "fetch error",
        ErrorKind::Io => "io error",
        ErrorKind::UploadTransport => "upload transport error",
        ErrorKind::Parse => "parse error",
        ErrorKind::SlackApi => "slack api error",
    }
}

/// The failure message shown to the caller: the error kind and its detail.
pub open spec fn failure_message_spec(k: ErrorKind, detail: Seq<char>) -> Seq<char> {
    "emoji upload failed ("@ + kind_label(k) + "): "@ + detail
}

/// The success message shown to the caller, embedding the emoji name.
pub open spec fn success_message_spec(name: Seq<char>) -> Seq<char> {
    "emoji upload succeeded: :"@ + name + ":"@
}

/// Builds the failure message for `k` with the given detail.
pub fn failure_message(k: ErrorKind, detail: &str) -> (m: String)
    ensures
        m@ == failure_message_spec(k, detail@),
{
    let s = String::from_str("emoji upload failed (");
    let s = s.concat(kind_label_str(k));
    let s = s.concat("): ");
    let s = s.concat(detail);
    proof {
        assert(s@ =~= failure_message_spec(k, detail@));
    }
    s
}

/// Builds the success message for a registered emoji name.
pub fn success_message(name: &str) -> (m: String)
    ensures
        m@ == success_message_spec(name@),
{
    let s = String::from_str("emoji upload succeeded: :");
    let s = s.concat(name);
    let s = s.concat(":");
    proof {
        assert(s@ =~= success_message_spec(name@));
    }
    s
}

/// The detail reported for malformed command text.
pub open spec fn validation_detail() -> Seq<char> {
    "the command text must be two words: an image url and an emoji name"@
}

/// The validation failure itself.
pub fn validation_error() -> (e: PipelineError)
    ensures
        e.kind == ErrorKind::Validation,
        e.detail@ == validation_detail(),
{
    PipelineError {
        kind: ErrorKind::Validation,
        detail: String::from_str(
            "the command text must be two words: an image url and an emoji name",
        ),
    }
}

} // verus!
