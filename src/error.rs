//! The ways a user action can fail, and the status text each one shows.

use vstd::prelude::*;
use vstd::string::StringExecFns;

verus! {

/// A selection that an action needs before it may touch the hardware.
#[derive(Clone, Copy, Debug, PartialEq, Eq, Structural)]
pub enum Selection {
    Probe,
    Target,
    File,
}

/// Why an action did not complete.
#[derive(Debug)]
pub enum ActionError {
    /// A required selection is missing; no hardware call was made.
    MissingSelection(Selection),
    /// The selected probe is not in the current enumeration.
    ProbeNotFound,
    /// The transport refused to open the probe.
    ProbeOpenFailed,
    /// The target was not recognised or did not answer.
    AttachFailed,
    /// Erasing the flash failed.
    EraseFailed,
    /// Downloading the image failed, with the cause reported by the flash layer.
    FlashFailed(String),
    /// Resetting core 0 failed; `written` tells whether firmware had been written.
    ResetFailed { written: bool },
    /// The chosen file has no supported image format.
    UnsupportedFormat,
}

/// The status text shown for a failure.
pub open spec fn error_text(e: ActionError) -> Seq<char> {
    match e {
        ActionError::MissingSelection(Selection::Probe) => "select a probe"@,
        ActionError::MissingSelection(Selection::Target) => "select a target"@,
        ActionError::MissingSelection(Selection::File) => "select a firmware file"@,
        ActionError::ProbeNotFound => "probe not found"@,
        ActionError::ProbeOpenFailed => "probe could not be opened"@,
        ActionError::AttachFailed => "could not attach to the target"@,
        ActionError::EraseFailed => "erase failed"@,
        ActionError::FlashFailed(cause) => "flash failed: "@ + cause@,
        ActionError::ResetFailed { written } => if written {
            "firmware written, but reset failed"@
        } else {
            "reset failed"@
        },
        ActionError::UnsupportedFormat => "unsupported file format"@,
    }
}

impl ActionError {
    /// The status text for this failure.
    pub fn message(&self) -> (r: String)
        ensures
            r@ == error_text(*self),
    {
        match self {
            ActionError::MissingSelection(Selection::Probe) => String::from_str("select a probe"),
            ActionError::MissingSelection(Selection::Target) => String::from_str("select a target"),
            ActionError::MissingSelection(Selection::File) => String::from_str(
                "select a firmware file",
            ),
            ActionError::ProbeNotFound => String::from_str("probe not found"),
            ActionError::ProbeOpenFailed => String::from_str("probe could not be opened"),
            ActionError::AttachFailed => String::from_str("could not attach to the target"),
            ActionError::EraseFailed => String::from_str("erase failed"),
            ActionError::FlashFailed(cause) => String::from_str("flash failed: ").concat(
                cause.as_str(),
            ),
            ActionError::ResetFailed { written } => if *written {
                String::from_str("firmware written, but reset failed")
            } else {
                String::from_str("reset failed")
            },
            ActionError::UnsupportedFormat => String::from_str("unsupported file format"),
        }
    }
}

} // verus!
