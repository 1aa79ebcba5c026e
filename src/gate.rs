//! The selection gate: what the user has chosen, which actions that permits,
//! and the status line shown after each event.

use vstd::prelude::*;
use vstd::string::StringExecFns;
use crate::error::{ActionError, Selection, error_text};
use crate::format::{FirmwareImage, format_of};
use crate::probe::{MyProbe, refreshed};
use crate::session::{ActionKind, Run};

verus! {

/// Where the user stands in choosing what to act on.
#[derive(Clone, Copy, Debug, PartialEq, Eq, Structural)]
pub enum Phase {
    NoTarget,
    TargetSelected,
    TargetAndFileSelected,
}

/// The status text shown after an action succeeded.
pub open spec fn success_text(kind: ActionKind) -> Seq<char> {
    match kind {
        ActionKind::Erase => "erase complete"@,
        ActionKind::Flash => "flash complete"@,
        ActionKind::Reset => "reset complete"@,
    }
}

/// The status text shown for the outcome of an action.
pub open spec fn outcome_text(outcome: Result<ActionKind, ActionError>) -> Seq<char> {
    match outcome {
        Ok(kind) => success_text(kind),
        Err(e) => error_text(e),
    }
}

/// The user's selections and the last status line.
pub struct SelectionState {
    pub probes: MyProbe,
    pub target: Option<String>,
    pub image: Option<FirmwareImage>,
    pub status: String,
}

impl SelectionState {
    pub open spec fn wf(&self) -> bool {
        self.probes.wf()
    }

    pub open spec fn phase_of(&self) -> Phase {
        if self.target is None {
            Phase::NoTarget
        } else if self.image is Some {
            Phase::TargetAndFileSelected
        } else {
            Phase::TargetSelected
        }
    }

    /// The state at startup, with the probes found by the first enumeration.
    pub fn new(identifiers: Vec<String>) -> (r: Self)
        ensures
            r.wf(),
            r.probes@ == refreshed(identifiers@),
            r.target is None,
            r.image is None,
            r.status@ == Seq::<char>::empty(),
    {
        let mut probes = MyProbe::new();
        probes.update(identifiers);
        SelectionState { probes, target: None, image: None, status: String::new() }
    }

    /// The phase the selections put the user in.
    pub fn phase(&self) -> (r: Phase)
        ensures
            r == self.phase_of(),
    {
        match (&self.target, &self.image) {
            (None, _) => Phase::NoTarget,
            (Some(_), Some(_)) => Phase::TargetAndFileSelected,
            (Some(_), None) => Phase::TargetSelected,
        }
    }

    /// A fresh enumeration replaces the probe list; the selection moves to its
    /// first probe, or to none when it is empty. Nothing else changes.
    pub fn on_probe_refresh(&mut self, identifiers: Vec<String>)
        ensures
            final(self).wf(),
            final(self).probes@ == refreshed(identifiers@),
            final(self).target == old(self).target,
            final(self).image == old(self).image,
            final(self).status == old(self).status,
    {
        self.probes.update(identifiers);
    }

    /// Selects the probe with this identifier. When the current list has none,
    /// the selection stays and the status says so.
    pub fn on_probe_chosen(&mut self, identifier: &String)
        requires
            old(self).wf(),
        ensures
            final(self).wf(),
            final(self).probes@.0 == old(self).probes@.0,
            final(self).target == old(self).target,
            final(self).image == old(self).image,
            ({
                let names = old(self).probes@.0;
                if exists|j: int| 0 <= j < names.len() && (#[trigger] names[j])@ == identifier@ {
                    &&& final(self).probes@.1 matches Some(i)
                    &&& names[i as int]@ == identifier@
                    &&& forall|j: int| 0 <= j < i ==> (#[trigger] names[j])@ != identifier@
                    &&& final(self).status == old(self).status
                } else {
                    &&& final(self).probes@ == old(self).probes@
                    &&& final(self).status@ == error_text(ActionError::ProbeNotFound)
                }
            }),
    {
        let ghost names = self.probes@.0;
        match self.probes.select(identifier) {
            Ok(()) => {
                let ghost i = self.probes@.1->0 as int;
                assert(names[i]@ == identifier@);
            },
            Err(e) => {
                self.status = e.message();
            },
        }
    }

    /// Chooses the target chip by its canonical name; nothing else changes.
    pub fn on_target_chosen(&mut self, target: String)
        ensures
            final(self).target == Some(target),
            final(self).probes == old(self).probes,
            final(self).image == old(self).image,
            final(self).status == old(self).status,
    {
        self.target = Some(target);
    }

    /// Loads the firmware file at `path` when its format is supported. An
    /// unsupported file only sets the status: the file loaded before stays.
    pub fn on_file_selected(&mut self, path: String)
        ensures
            final(self).probes == old(self).probes,
            final(self).target == old(self).target,
            match format_of(path@) {
                None => {
                    &&& final(self).image == old(self).image
                    &&& final(self).status@ == error_text(ActionError::UnsupportedFormat)
                },
                Some(f) => {
                    &&& final(self).image matches Some(img)
                    &&& img.path@ == path@
                    &&& img.format == f
                    &&& final(self).status == old(self).status
                },
            },
    {
        match FirmwareImage::from_path(path) {
            None => {
                self.status = ActionError::UnsupportedFormat.message();
            },
            Some(img) => {
                self.image = Some(img);
            },
        }
    }

    /// Asks to perform `kind`. Without a target, without a probe, or for a
    /// flash without a loaded image, no run is started and the status names
    /// what is missing, checked in that order. Otherwise the run on the
    /// selected probe and target is returned and nothing changes.
    pub fn request(&mut self, kind: ActionKind) -> (r: Option<Run>)
        requires
            old(self).wf(),
        ensures
            final(self).probes == old(self).probes,
            final(self).target == old(self).target,
            final(self).image == old(self).image,
            old(self).target is None ==> r is None && final(self).status@ == error_text(
                ActionError::MissingSelection(Selection::Target),
            ),
            old(self).target is Some && old(self).probes@.1 is None ==> r is None
                && final(self).status@ == error_text(ActionError::MissingSelection(Selection::Probe)),
            old(self).target is Some && old(self).probes@.1 is Some && kind == ActionKind::Flash
                && old(self).image is None ==> r is None && final(self).status@ == error_text(
                ActionError::MissingSelection(Selection::File),
            ),
            old(self).target is Some && old(self).probes@.1 is Some && (kind
                == ActionKind::Flash ==> old(self).image is Some) ==> {
                &&& r matches Some(run)
                &&& run.wf()
                &&& run.done == 0
                &&& run.kind == kind
                &&& Some(run.probe) == old(self).probes@.1
                &&& Some(run.target) == old(self).target
                &&& run.image == (if kind == ActionKind::Flash { old(self).image } else { None })
                &&& final(self).status == old(self).status
            },
    {
        let target = match &self.target {
            None => {
                self.status = ActionError::MissingSelection(Selection::Target).message();
                return None;
            },
            Some(t) => t.clone(),
        };
        let probe = match self.probes.selected() {
            None => {
                self.status = ActionError::MissingSelection(Selection::Probe).message();
                return None;
            },
            Some(i) => i,
        };
        let image = match kind {
            ActionKind::Flash => match &self.image {
                None => {
                    self.status = ActionError::MissingSelection(Selection::File).message();
                    return None;
                },
                Some(img) => Some(FirmwareImage { path: img.path.clone(), format: img.format }),
            },
            _ => None,
        };
        Some(Run::new(kind, probe, target, image))
    }

    /// Asks to erase the whole flash of the target.
    pub fn on_erase(&mut self) -> (r: Option<Run>)
        requires
            old(self).wf(),
        ensures
            final(self).probes == old(self).probes,
            final(self).target == old(self).target,
            final(self).image == old(self).image,
            old(self).target is None ==> r is None && final(self).status@ == error_text(
                ActionError::MissingSelection(Selection::Target),
            ),
            old(self).target is Some && old(self).probes@.1 is None ==> r is None
                && final(self).status@ == error_text(ActionError::MissingSelection(Selection::Probe)),
            old(self).target is Some && old(self).probes@.1 is Some ==> {
                &&& r matches Some(run)
                &&& run.wf()
                &&& run.done == 0
                &&& run.kind == ActionKind::Erase
                &&& Some(run.probe) == old(self).probes@.1
                &&& Some(run.target) == old(self).target
                &&& final(self).status == old(self).status
            },
    {
        self.request(ActionKind::Erase)
    }

    /// Asks to flash the loaded image: erase, download, then reset core 0.
    pub fn on_flash(&mut self) -> (r: Option<Run>)
        requires
            old(self).wf(),
        ensures
            final(self).probes == old(self).probes,
            final(self).target == old(self).target,
            final(self).image == old(self).image,
            old(self).target is None ==> r is None && final(self).status@ == error_text(
                ActionError::MissingSelection(Selection::Target),
            ),
            old(self).target is Some && old(self).probes@.1 is None ==> r is None
                && final(self).status@ == error_text(ActionError::MissingSelection(Selection::Probe)),
            old(self).target is Some && old(self).probes@.1 is Some && old(self).image is None
                ==> r is None && final(self).status@ == error_text(
                ActionError::MissingSelection(Selection::File),
            ),
            old(self).target is Some && old(self).probes@.1 is Some && old(self).image is Some ==> {
                &&& r matches Some(run)
                &&& run.wf()
                &&& run.done == 0
                &&& run.kind == ActionKind::Flash
                &&& Some(run.probe) == old(self).probes@.1
                &&& Some(run.target) == old(self).target
                &&& run.image == old(self).image
                &&& final(self).status == old(self).status
            },
    {
        self.request(ActionKind::Flash)
    }

    /// Asks to reset core 0 of the target.
    pub fn on_reset(&mut self) -> (r: Option<Run>)
        requires
            old(self).wf(),
        ensures
            final(self).probes == old(self).probes,
            final(self).target == old(self).target,
            final(self).image == old(self).image,
            old(self).target is None ==> r is None && final(self).status@ == error_text(
                ActionError::MissingSelection(Selection::Target),
            ),
            old(self).target is Some && old(self).probes@.1 is None ==> r is None
                && final(self).status@ == error_text(ActionError::MissingSelection(Selection::Probe)),
            old(self).target is Some && old(self).probes@.1 is Some ==> {
                &&& r matches Some(run)
                &&& run.wf()
                &&& run.done == 0
                &&& run.kind == ActionKind::Reset
                &&& Some(run.probe) == old(self).probes@.1
                &&& Some(run.target) == old(self).target
                &&& final(self).status == old(self).status
            },
    {
        self.request(ActionKind::Reset)
    }

    /// Records the outcome of a finished action as the one status line;
    /// the selections stay as they were.
    pub fn finish(&mut self, outcome: Result<ActionKind, ActionError>)
        ensures
            final(self).probes == old(self).probes,
            final(self).target == old(self).target,
            final(self).image == old(self).image,
            final(self).status@ == outcome_text(outcome),
    {
        self.status = match outcome {
            Ok(ActionKind::Erase) => String::from_str("erase complete"),
            Ok(ActionKind::Flash) => String::from_str("flash complete"),
            Ok(ActionKind::Reset) => String::from_str("reset complete"),
            Err(e) => e.message(),
        };
    }

    /// The status line.
    pub fn status(&self) -> (r: &String)
        ensures
            r == &self.status,
    {
        &self.status
    }
}

} // verus!
