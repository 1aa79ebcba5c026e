//! The registry of debug probes: the latest enumeration and the user's choice in it.

use vstd::prelude::*;
use crate::error::{ActionError, Selection};

verus! {

/// The probes found by the latest enumeration, by identifier, and the index
/// of the selected one.
pub struct MyProbe {
    pub probe_name_list: Vec<String>,
    pub probe_selected: Option<usize>,
}

/// The registry after an enumeration that found `ids`: the list is replaced
/// whole, and the first probe is selected if there is one.
pub open spec fn refreshed(ids: Seq<String>) -> (Seq<String>, Option<usize>) {
    (ids, if ids.len() == 0 { None } else { Some(0usize) })
}

impl View for MyProbe {
    type V = (Seq<String>, Option<usize>);

    open spec fn view(&self) -> (Seq<String>, Option<usize>) {
        (self.probe_name_list@, self.probe_selected)
    }
}

impl MyProbe {
    /// The selection, if any, indexes the list.
    pub open spec fn wf(&self) -> bool {
        match self.probe_selected {
            None => true,
            Some(i) => i < self.probe_name_list@.len(),
        }
    }

    /// An empty registry, before the first enumeration.
    pub fn new() -> (r: Self)
        ensures
            r@ == (Seq::<String>::empty(), None::<usize>),
            r.wf(),
    {
        MyProbe { probe_name_list: Vec::new(), probe_selected: None }
    }

    /// Replaces the list with a fresh enumeration `identifiers` and selects
    /// its first probe, or none when it is empty.
    pub fn update(&mut self, identifiers: Vec<String>)
        ensures
            final(self)@ == refreshed(identifiers@),
            final(self).wf(),
    {
        let empty = identifiers.len() == 0;
        self.probe_name_list = identifiers;
        self.probe_selected = if empty { None } else { Some(0) };
    }

    /// Selects the first probe whose identifier is `identifier`; when there is
    /// none, fails with `ProbeNotFound` and changes nothing.
    pub fn select(&mut self, identifier: &String) -> (r: Result<(), ActionError>)
        requires
            old(self).wf(),
        ensures
            final(self).wf(),
            final(self).probe_name_list@ == old(self).probe_name_list@,
            match r {
                Ok(()) => {
                    &&& final(self).probe_selected matches Some(i)
                    &&& old(self).probe_name_list@[i as int]@ == identifier@
                    &&& forall|j: int|
                        0 <= j < i ==> (#[trigger] old(self).probe_name_list@[j])@ != identifier@
                },
                Err(e) => {
                    &&& e is ProbeNotFound
                    &&& final(self)@ == old(self)@
                    &&& forall|j: int|
                        0 <= j < old(self).probe_name_list@.len()
                            ==> (#[trigger] old(self).probe_name_list@[j])@ != identifier@
                },
            },
    {
        let mut i: usize = 0;
        while i < self.probe_name_list.len()
            invariant
                i <= self.probe_name_list@.len(),
                self.probe_name_list@ == old(self).probe_name_list@,
                self.probe_selected == old(self).probe_selected,
                old(self).wf(),
                forall|j: int| 0 <= j < i ==> (#[trigger] self.probe_name_list@[j])@ != identifier@,
            decreases self.probe_name_list@.len() - i,
        {
            if self.probe_name_list[i] == *identifier {
                self.probe_selected = Some(i);
                return Ok(());
            }
            i = i + 1;
        }
        Err(ActionError::ProbeNotFound)
    }

    /// The probe identifiers of the latest enumeration.
    pub fn names(&self) -> (r: &Vec<String>)
        ensures
            r@ == self@.0,
    {
        &self.probe_name_list
    }

    /// The index of the selected probe.
    pub fn selected(&self) -> (r: Option<usize>)
        ensures
            r == self@.1,
    {
        self.probe_selected
    }

    /// Resolves the selection against an enumeration of `available` probes made
    /// just now: the index to open, `MissingSelection(Probe)` when nothing is
    /// selected, and `ProbeNotFound` when the list has shrunk past it.
    pub fn open(&self, available: usize) -> (r: Result<usize, ActionError>)
        ensures
            match self.probe_selected {
                None => r matches Err(ActionError::MissingSelection(Selection::Probe)),
                Some(i) => if i < available {
                    r == Ok::<usize, ActionError>(i)
                } else {
                    r matches Err(ActionError::ProbeNotFound)
                },
            },
    {
        match self.probe_selected {
            None => Err(ActionError::MissingSelection(Selection::Probe)),
            Some(i) => if i < available {
                Ok(i)
            } else {
                Err(ActionError::ProbeNotFound)
            },
        }
    }
}

/// Refreshing leaves the selection empty for an empty list and on a valid
/// index of the fresh list otherwise.
pub proof fn refresh_selection_in_range(ids: Seq<String>)
    ensures
        refreshed(ids).1 is None <==> ids.len() == 0,
        refreshed(ids).1 matches Some(i) ==> i < ids.len(),
{
}

/// Refreshing twice with the same enumeration gives the same list and
/// selection as refreshing once, whatever the registry held before.
pub proof fn refresh_idempotent(ids: Seq<String>)
    ensures
        refreshed(refreshed(ids).0) == refreshed(ids),
{
}

} // verus!
