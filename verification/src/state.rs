//! The record shared by every check, every download and the scheduler.
//!
//! The host keeps one [`UpdaterState`] for the lifetime of the process, behind
//! a single lock. Every transition in this crate takes it by `&mut`, so a
//! transition is one atomic step and each reader sees the flags and the
//! pending release together.

use vstd::prelude::*;
use crate::clock::{rfc3339, rfc3339_text, Timestamp};
use crate::event::{copy_text, opt_view, UpdateStatus};

verus! {

/// The flags of the operations in flight and what the last check found.
#[derive(Debug)]
pub struct UpdaterState {
    is_checking: bool,
    is_downloading: bool,
    has_update: bool,
    update_version: Option<String>,
    update_body: Option<String>,
    last_check: Option<Timestamp>,
}

/// An [`UpdaterState`] as a mathematical value.
pub struct UpdaterStateView {
    /// A check is in flight.
    pub is_checking: bool,
    /// A download is in flight.
    pub is_downloading: bool,
    /// The last completed check found a release that no download has consumed.
    pub has_update: bool,
    /// The version of that release.
    pub pending_version: Option<Seq<char>>,
    /// The notes that came with it.
    pub pending_notes: Option<Seq<char>>,
    /// When the last check completed, whatever its outcome.
    pub last_check: Option<Timestamp>,
}

impl UpdaterStateView {
    /// The state of a process that has not checked yet.
    pub open spec fn idle() -> UpdaterStateView {
        UpdaterStateView {
            is_checking: false,
            is_downloading: false,
            has_update: false,
            pending_version: None,
            pending_notes: None,
            last_check: None,
        }
    }

    /// A pending version is recorded exactly while an update is known, and
    /// notes are recorded only beside a version.
    pub open spec fn wf(self) -> bool {
        &&& self.has_update <==> self.pending_version is Some
        &&& self.pending_notes is Some ==> self.has_update
    }

    /// This state with a release recorded as pending.
    pub open spec fn with_update(self, version: Seq<char>, notes: Option<Seq<char>>) -> Self {
        UpdaterStateView {
            has_update: true,
            pending_version: Some(version),
            pending_notes: notes,
            ..self
        }
    }

    /// This state with no release pending.
    pub open spec fn without_update(self) -> Self {
        UpdaterStateView { has_update: false, pending_version: None, pending_notes: None, ..self }
    }

    /// What the user is shown. A download in flight hides a check in flight,
    /// and either hides a pending release.
    pub open spec fn status(self) -> UpdateStatus {
        if self.is_downloading {
            UpdateStatus::Downloading
        } else if self.is_checking {
            UpdateStatus::Checking
        } else if self.has_update {
            UpdateStatus::Available
        } else {
            UpdateStatus::Idle
        }
    }

    /// The time of the last completed check as RFC 3339 text.
    pub open spec fn last_check_text(self) -> Option<Seq<char>> {
        match self.last_check {
            Some(t) => rfc3339_text(t.secs, t.nanos),
            None => None,
        }
    }
}

impl View for UpdaterState {
    type V = UpdaterStateView;

    closed spec fn view(&self) -> UpdaterStateView {
        UpdaterStateView {
            is_checking: self.is_checking,
            is_downloading: self.is_downloading,
            has_update: self.has_update,
            pending_version: opt_view(self.update_version),
            pending_notes: opt_view(self.update_body),
            last_check: self.last_check,
        }
    }
}

impl Default for UpdaterState {
    fn default() -> (state: Self)
        ensures
            state@ == UpdaterStateView::idle(),
            state@.wf(),
    {
        UpdaterState {
            is_checking: false,
            is_downloading: false,
            has_update: false,
            update_version: None,
            update_body: None,
            last_check: None,
        }
    }
}

impl UpdaterState {
    /// Whether a check is in flight.
    pub fn is_checking(&self) -> (b: bool)
        ensures
            b == self@.is_checking,
    {
        self.is_checking
    }

    /// Whether a download is in flight.
    pub fn is_downloading(&self) -> (b: bool)
        ensures
            b == self@.is_downloading,
    {
        self.is_downloading
    }

    /// Whether a discovered release waits to be downloaded.
    pub fn has_update(&self) -> (b: bool)
        ensures
            b == self@.has_update,
    {
        self.has_update
    }

    /// The version of the pending release.
    pub fn pending_version(&self) -> (v: Option<String>)
        ensures
            opt_view(v) == self@.pending_version,
    {
        copy_text(&self.update_version)
    }

    /// The notes of the pending release.
    pub fn pending_notes(&self) -> (v: Option<String>)
        ensures
            opt_view(v) == self@.pending_notes,
    {
        copy_text(&self.update_body)
    }

    /// When the last check completed.
    pub fn last_check(&self) -> (t: Option<Timestamp>)
        ensures
            t == self@.last_check,
    {
        self.last_check
    }

    /// Sets or clears the check flag and says what it was before.
    pub(crate) fn swap_checking(&mut self, value: bool) -> (was: bool)
        ensures
            was == old(self)@.is_checking,
            final(self)@ == (UpdaterStateView { is_checking: value, ..old(self)@ }),
    {
        let was = self.is_checking;
        self.is_checking = value;
        was
    }

    /// Sets or clears the download flag and says what it was before.
    pub(crate) fn swap_downloading(&mut self, value: bool) -> (was: bool)
        ensures
            was == old(self)@.is_downloading,
            final(self)@ == (UpdaterStateView { is_downloading: value, ..old(self)@ }),
    {
        let was = self.is_downloading;
        self.is_downloading = value;
        was
    }

    /// Records a release as pending.
    pub(crate) fn store_update(&mut self, version: String, notes: Option<String>)
        ensures
            final(self)@ == old(self)@.with_update(version@, opt_view(notes)),
    {
        self.has_update = true;
        self.update_version = Some(version);
        self.update_body = notes;
    }

    /// Forgets the pending release.
    pub(crate) fn clear_update(&mut self)
        ensures
            final(self)@ == old(self)@.without_update(),
    {
        self.has_update = false;
        self.update_version = None;
        self.update_body = None;
    }

    /// Records the time at which a check completed.
    pub(crate) fn stamp(&mut self, now: Timestamp)
        ensures
            final(self)@ == (UpdaterStateView { last_check: Some(now), ..old(self)@ }),
    {
        self.last_check = Some(now);
    }
}

/// What the user is shown of `state`.
pub fn get_update_status(state: &UpdaterState) -> (status: UpdateStatus)
    ensures
        status == state@.status(),
{
    if state.is_downloading {
        UpdateStatus::Downloading
    } else if state.is_checking {
        UpdateStatus::Checking
    } else if state.has_update {
        UpdateStatus::Available
    } else {
        UpdateStatus::Idle
    }
}

/// The time of the last completed check as RFC 3339 text. `None` before the
/// first check completes, and for a recorded instant that the calendar cannot
/// represent.
pub fn get_last_check_time(state: &UpdaterState) -> (text: Option<String>)
    ensures
        opt_view(text) == state@.last_check_text(),
{
    match state.last_check {
        Some(t) => rfc3339(t),
        None => None,
    }
}

} // verus!
