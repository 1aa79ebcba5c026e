//! One user action on the hardware as an ordered run of steps:
//! open the probe, attach to the target, then erase, download or reset.
//!
//! The caller performs each step and reports how it went; the run says what
//! comes next and, at the end, the one outcome of the action.

use vstd::prelude::*;
use vstd::string::StringExecFns;
use crate::error::ActionError;
use crate::format::{FirmwareImage, ImageFormat};

verus! {

/// A user action that needs the hardware.
#[derive(Clone, Copy, Debug, PartialEq, Eq, Structural)]
pub enum ActionKind {
    Erase,
    Flash,
    Reset,
}

/// How the flash layer is told to read an image.
#[derive(Clone, Copy, Debug, PartialEq, Eq, Structural)]
pub enum DownloadFormat {
    /// A raw image, written at `base_address` (none: the flash start) after
    /// skipping `skip` bytes of the file.
    Bin { base_address: Option<u64>, skip: u32 },
    Hex,
    Elf,
}

/// The download options for a detected format: no base-address override and
/// no skipped bytes for raw images.
pub open spec fn download_format(f: ImageFormat) -> DownloadFormat {
    match f {
        ImageFormat::Bin => DownloadFormat::Bin { base_address: None, skip: 0 },
        ImageFormat::Hex => DownloadFormat::Hex,
        ImageFormat::Elf => DownloadFormat::Elf,
    }
}

/// One hardware call.
#[derive(Clone, Copy, Debug, PartialEq, Eq, Structural)]
pub enum HwStep {
    /// Open the probe at this index of a fresh enumeration.
    Open(usize),
    /// Attach a session to the run's target.
    Attach,
    /// Erase the whole flash.
    EraseAll,
    /// Download the run's image.
    Download(DownloadFormat),
    /// Reset core 0.
    ResetCore0,
}

/// How a step went, as the caller saw it.
#[derive(Debug)]
pub enum StepResult {
    Done,
    /// The thing to act on is gone (the probe left the enumeration).
    NotFound,
    /// The call failed, with the cause the hardware layer gave.
    Failed(String),
}

/// The steps of an action on the probe at index `probe`: open, attach, then
/// the action's own steps. A flash erases, downloads the image of format
/// `format` and resets, in that order.
pub open spec fn plan(kind: ActionKind, probe: usize, format: Option<ImageFormat>) -> Seq<HwStep> {
    match kind {
        ActionKind::Erase => seq![HwStep::Open(probe), HwStep::Attach, HwStep::EraseAll],
        ActionKind::Flash => seq![
            HwStep::Open(probe),
            HwStep::Attach,
            HwStep::EraseAll,
            HwStep::Download(download_format(format->0)),
            HwStep::ResetCore0,
        ],
        ActionKind::Reset => seq![HwStep::Open(probe), HwStep::Attach, HwStep::ResetCore0],
    }
}

/// The cause carried into a download failure.
pub open spec fn cause_text(result: StepResult) -> Seq<char> {
    match result {
        StepResult::Failed(c) => c@,
        _ => "not found"@,
    }
}

/// The error that ends an action of kind `kind` whose step `step` failed with `result`.
pub open spec fn failure_is(e: ActionError, kind: ActionKind, step: HwStep, result: StepResult) -> bool {
    match step {
        HwStep::Open(_) => if result is NotFound {
            e is ProbeNotFound
        } else {
            e is ProbeOpenFailed
        },
        HwStep::Attach => e is AttachFailed,
        HwStep::EraseAll => e is EraseFailed,
        HwStep::Download(_) => e matches ActionError::FlashFailed(c) && c@ == cause_text(result),
        HwStep::ResetCore0 => e == ActionError::ResetFailed { written: kind == ActionKind::Flash },
    }
}

/// The steps that are attempted when the `k`-th attempted step succeeds
/// exactly when `ok[k]` holds: each step only after all before it succeeded,
/// and none after the first failure.
pub open spec fn attempted(steps: Seq<HwStep>, ok: Seq<bool>) -> Seq<HwStep>
    decreases steps.len(),
{
    if steps.len() == 0 {
        Seq::empty()
    } else if ok.len() > 0 && ok[0] {
        seq![steps[0]] + attempted(steps.drop_first(), ok.drop_first())
    } else {
        seq![steps[0]]
    }
}

/// An action in progress: what it is, what it acts on, its steps and how
/// many of them have succeeded.
pub struct Run {
    pub kind: ActionKind,
    pub probe: usize,
    pub target: String,
    pub image: Option<FirmwareImage>,
    pub steps: Vec<HwStep>,
    pub done: usize,
}

/// Where an action stands after a step.
pub enum Progress {
    /// More steps to go.
    Next(Run),
    /// The action is over: what succeeded, or why it failed.
    Finished(Result<ActionKind, ActionError>),
}

impl Run {
    /// The format of the image, if there is one.
    pub open spec fn image_format(&self) -> Option<ImageFormat> {
        match self.image {
            Some(img) => Some(img.format),
            None => None,
        }
    }

    /// A flash has an image, the steps are the action's plan and the count of
    /// succeeded steps stays below their number.
    pub open spec fn wf(&self) -> bool {
        &&& self.kind == ActionKind::Flash ==> self.image is Some
        &&& self.steps@ == plan(self.kind, self.probe, self.image_format())
        &&& self.done < self.steps@.len()
    }

    /// A run of `kind` on the probe at index `probe`, attaching to `target`.
    /// `image` is downloaded by a flash and not used by the other actions.
    pub fn new(kind: ActionKind, probe: usize, target: String, image: Option<FirmwareImage>) -> (r: Run)
        requires
            kind == ActionKind::Flash ==> image is Some,
        ensures
            r.wf(),
            r.done == 0,
            r.kind == kind,
            r.probe == probe,
            r.target == target,
            r.image == image,
    {
        let mut steps: Vec<HwStep> = Vec::new();
        steps.push(HwStep::Open(probe));
        steps.push(HwStep::Attach);
        match kind {
            ActionKind::Erase => {
                steps.push(HwStep::EraseAll);
            },
            ActionKind::Flash => {
                let format = match &image {
                    Some(img) => img.format,
                    None => ImageFormat::Elf,
                };
                steps.push(HwStep::EraseAll);
                steps.push(HwStep::Download(to_download_format(format)));
                steps.push(HwStep::ResetCore0);
            },
            ActionKind::Reset => {
                steps.push(HwStep::ResetCore0);
            },
        }
        let r = Run { kind, probe, target, image, steps, done: 0 };
        assert(r.steps@ =~= plan(kind, probe, r.image_format()));
        r
    }

    /// The step to perform now.
    pub fn next_step(&self) -> (r: HwStep)
        requires
            self.wf(),
        ensures
            r == self.steps@[self.done as int],
    {
        self.steps[self.done]
    }

    /// Takes the result of the current step: a success moves on to the next
    /// step or, after the last, finishes with success; any failure finishes
    /// the action at once with the step's own error.
    pub fn advance(self, result: StepResult) -> (r: Progress)
        requires
            self.wf(),
        ensures
            match result {
                StepResult::Done => if self.done + 1 < self.steps@.len() {
                    r matches Progress::Next(n) && n.wf() && n.done == self.done + 1 && n.kind
                        == self.kind && n.probe == self.probe && n.target == self.target
                        && n.image == self.image
                } else {
                    r matches Progress::Finished(Ok(k)) && k == self.kind
                },
                _ => r matches Progress::Finished(Err(e)) && failure_is(
                    e,
                    self.kind,
                    self.steps@[self.done as int],
                    result,
                ),
            },
    {
        let step = self.steps[self.done];
        match result {
            StepResult::Done => {
                if self.done + 1 < self.steps.len() {
                    Progress::Next(Run { done: self.done + 1, ..self })
                } else {
                    Progress::Finished(Ok(self.kind))
                }
            },
            StepResult::NotFound => Progress::Finished(
                Err(step_error(self.kind, step, StepResult::NotFound)),
            ),
            StepResult::Failed(cause) => Progress::Finished(
                Err(step_error(self.kind, step, StepResult::Failed(cause))),
            ),
        }
    }
}

/// The download options for a detected format.
pub fn to_download_format(f: ImageFormat) -> (r: DownloadFormat)
    ensures
        r == download_format(f),
{
    match f {
        ImageFormat::Bin => DownloadFormat::Bin { base_address: None, skip: 0 },
        ImageFormat::Hex => DownloadFormat::Hex,
        ImageFormat::Elf => DownloadFormat::Elf,
    }
}

/// What is attempted is a prefix of the plan: no step is ever attempted out
/// of order.
pub proof fn attempted_is_prefix(steps: Seq<HwStep>, ok: Seq<bool>)
    ensures
        attempted(steps, ok).len() <= steps.len(),
        steps.len() > 0 ==> attempted(steps, ok).len() > 0,
        forall|k: int| 0 <= k < attempted(steps, ok).len() ==> #[trigger] attempted(steps, ok)[k] == steps[k],
    decreases steps.len(),
{
    if steps.len() > 0 && ok.len() > 0 && ok[0] {
        attempted_is_prefix(steps.drop_first(), ok.drop_first());
        let rest = attempted(steps.drop_first(), ok.drop_first());
        assert(attempted(steps, ok) == seq![steps[0]] + rest);
        assert(attempted(steps, ok).len() == rest.len() + 1);
        assert forall|k: int| 0 < k < attempted(steps, ok).len() implies #[trigger] attempted(steps, ok)[k] == steps[k] by {
            assert(attempted(steps, ok)[k] == rest[k - 1]);
        }
    } else {
        assert(attempted(steps, ok).len() <= 1);
    }
}

/// A flash erases before it downloads and downloads before it resets core 0;
/// when the erase fails, neither the download nor the reset is attempted.
pub proof fn flash_sequence(probe: usize, format: ImageFormat, ok: Seq<bool>)
    ensures
        ({
            let s = plan(ActionKind::Flash, probe, Some(format));
            &&& s.len() == 5
            &&& s[2] == HwStep::EraseAll
            &&& s[3] == HwStep::Download(download_format(format))
            &&& s[4] == HwStep::ResetCore0
            &&& (ok.len() >= 3 && ok[0] && ok[1] && !ok[2]) ==> attempted(s, ok) == s.take(3)
        }),
{
    let s = plan(ActionKind::Flash, probe, Some(format));
    if ok.len() >= 3 && ok[0] && ok[1] && !ok[2] {
        let s1 = s.drop_first();
        let s2 = s1.drop_first();
        let o1 = ok.drop_first();
        let o2 = o1.drop_first();
        assert(attempted(s2, o2) == seq![s2[0]]);
        assert(attempted(s1, o1) =~= seq![s1[0]] + attempted(s2, o2));
        assert(attempted(s, ok) =~= s.take(3));
    }
}

/// The error for a failed step.
fn step_error(kind: ActionKind, step: HwStep, result: StepResult) -> (e: ActionError)
    requires
        !(result is Done),
    ensures
        failure_is(e, kind, step, result),
{
    match step {
        HwStep::Open(_) => match result {
            StepResult::NotFound => ActionError::ProbeNotFound,
            _ => ActionError::ProbeOpenFailed,
        },
        HwStep::Attach => ActionError::AttachFailed,
        HwStep::EraseAll => ActionError::EraseFailed,
        HwStep::Download(_) => match result {
            StepResult::Failed(cause) => ActionError::FlashFailed(cause),
            _ => ActionError::FlashFailed(String::from_str("not found")),
        },
        HwStep::ResetCore0 => ActionError::ResetFailed {
            written: match kind {
                ActionKind::Flash => true,
                _ => false,
            },
        },
    }
}

} // verus!
