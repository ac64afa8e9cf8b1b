//! The update flow: its phases, the events it is told of and the actions it
//! asks for.

use vstd::prelude::*;

verus! {

/// Where an update attempt stands.
#[derive(Clone, Copy, Debug, PartialEq, Eq, Structural)]
pub enum Phase {
    /// Nothing has been asked for yet.
    Idle,
    /// The update source has been asked whether a newer version exists.
    Checking,
    /// A newer version is being downloaded and installed.
    Applying,
    /// The new version is installed and the user has been asked whether to
    /// restart.
    Confirming,
    /// The attempt is over: there was nothing newer.
    UpToDate,
    /// The attempt is over: checking, downloading or installing failed. The
    /// application keeps running on the version it has.
    Failed,
    /// The attempt is over: the new version is installed and the user chose to
    /// keep working.
    Declined,
    /// The attempt is over: the application is being restarted.
    Restarting,
}

impl Phase {
    /// How far an attempt in this phase has come. No event takes an attempt
    /// back to a lower rank.
    pub open spec fn rank(self) -> nat {
        match self {
            Phase::Idle => 0,
            Phase::Checking => 1,
            Phase::Applying => 2,
            Phase::Confirming => 3,
            Phase::UpToDate | Phase::Failed | Phase::Declined | Phase::Restarting => 4,
        }
    }

    /// Whether the attempt is over in this phase.
    pub open spec fn terminal(self) -> bool {
        self is UpToDate || self is Failed || self is Declined || self is Restarting
    }

    /// Whether the attempt is over in this phase.
    pub fn is_terminal(self) -> (over: bool)
        ensures
            over == self.terminal(),
    {
        match self {
            Phase::UpToDate | Phase::Failed | Phase::Declined | Phase::Restarting => true,
            Phase::Idle | Phase::Checking | Phase::Applying | Phase::Confirming => false,
        }
    }
}

/// What the flow is told of.
#[derive(Clone, Copy, Debug, PartialEq, Eq, Structural)]
pub enum Event {
    /// The application has started.
    Started,
    /// The update source answered: nothing newer exists.
    NoUpdate,
    /// The update source answered: a newer version exists.
    UpdateFound,
    /// Another piece of the download has arrived, `length` bytes long. With
    /// it comes the length of the whole download, where the source tells it.
    Chunk { length: usize, content_length: Option<u64> },
    /// The last piece of the download has arrived.
    DownloadFinished,
    /// The new version has been downloaded and installed.
    Installed,
    /// Checking, downloading or installing failed.
    Failed,
    /// The user answered the question whether to restart.
    Answered { restart: bool },
}

/// What the flow asks its host to do.
#[derive(Clone, Copy, Debug, PartialEq, Eq, Structural)]
pub enum Action {
    /// Nothing is to be done.
    Nothing,
    /// Ask the update source whether a newer version exists.
    CheckForUpdate,
    /// Download and install the version that was found.
    DownloadAndInstall,
    /// Tell how many bytes of the download have arrived so far, and of how
    /// many.
    ReportProgress,
    /// Tell that the download is complete.
    ReportDownloadFinished,
    /// Ask the user whether to restart into the new version.
    AskRestart,
    /// Restart the application.
    Restart,
    /// Tell that the attempt failed.
    ReportError,
}

/// The mathematical state of an update attempt.
pub ghost struct FlowState {
    /// The phase the attempt is in.
    pub phase: Phase,
    /// The number of bytes downloaded so far.
    pub downloaded: nat,
    /// The length of the whole download, as the latest chunk told it.
    pub content_length: Option<u64>,
}

impl FlowState {
    /// The state of an attempt that has not begun.
    pub open spec fn initial() -> FlowState {
        FlowState { phase: Phase::Idle, downloaded: 0, content_length: None }
    }

    /// The phase that follows `self.phase` on `event`. An event that the
    /// phase does not wait for changes nothing.
    pub open spec fn next_phase(self, event: Event) -> Phase {
        match (self.phase, event) {
            (Phase::Idle, Event::Started) => Phase::Checking,
            (Phase::Checking, Event::NoUpdate) => Phase::UpToDate,
            (Phase::Checking, Event::UpdateFound) => Phase::Applying,
            (Phase::Applying, Event::Installed) => Phase::Confirming,
            (Phase::Checking, Event::Failed) | (Phase::Applying, Event::Failed) => Phase::Failed,
            (Phase::Confirming, Event::Answered { restart }) => if restart {
                Phase::Restarting
            } else {
                Phase::Declined
            },
            _ => self.phase,
        }
    }

    /// The number of bytes downloaded once `event` is taken in: a chunk that
    /// arrives while a download is under way adds its length, nothing else
    /// counts.
    pub open spec fn next_downloaded(self, event: Event) -> nat {
        match (self.phase, event) {
            (Phase::Applying, Event::Chunk { length, .. }) => self.downloaded + length as nat,
            _ => self.downloaded,
        }
    }

    /// The length of the whole download once `event` is taken in: a chunk
    /// that arrives while a download is under way brings the latest word on
    /// it.
    pub open spec fn next_content_length(self, event: Event) -> Option<u64> {
        match (self.phase, event) {
            (Phase::Applying, Event::Chunk { content_length, .. }) => content_length,
            _ => self.content_length,
        }
    }

    /// The state that follows `self` on `event`.
    pub open spec fn step(self, event: Event) -> FlowState {
        FlowState {
            phase: self.next_phase(event),
            downloaded: self.next_downloaded(event),
            content_length: self.next_content_length(event),
        }
    }

    /// What the host is asked to do when `event` arrives in state `self`.
    pub open spec fn action(self, event: Event) -> Action {
        match (self.phase, event) {
            (Phase::Idle, Event::Started) => Action::CheckForUpdate,
            (Phase::Checking, Event::UpdateFound) => Action::DownloadAndInstall,
            (Phase::Applying, Event::Chunk { .. }) => Action::ReportProgress,
            (Phase::Applying, Event::DownloadFinished) => Action::ReportDownloadFinished,
            (Phase::Applying, Event::Installed) => Action::AskRestart,
            (Phase::Checking, Event::Failed) | (Phase::Applying, Event::Failed) => Action::ReportError,
            (Phase::Confirming, Event::Answered { restart }) => if restart {
                Action::Restart
            } else {
                Action::Nothing
            },
            _ => Action::Nothing,
        }
    }

    /// Whether the byte count stays within `usize` when `event` is taken in.
    /// Only a chunk that arrives while a download is under way can take it
    /// beyond.
    pub open spec fn fits(self, event: Event) -> bool {
        match (self.phase, event) {
            (Phase::Applying, Event::Chunk { length, .. }) => self.downloaded + length
                <= usize::MAX,
            _ => true,
        }
    }
}

/// An update attempt.
#[derive(Clone, Copy, Debug)]
pub struct UpdateFlow {
    phase: Phase,
    downloaded: usize,
    content_length: Option<u64>,
}

impl View for UpdateFlow {
    type V = FlowState;

    closed spec fn view(&self) -> FlowState {
        FlowState {
            phase: self.phase,
            downloaded: self.downloaded as nat,
            content_length: self.content_length,
        }
    }
}

impl UpdateFlow {
    /// An attempt that has not begun.
    pub fn new() -> (flow: UpdateFlow)
        ensures
            flow@ == FlowState::initial(),
    {
        UpdateFlow { phase: Phase::Idle, downloaded: 0, content_length: None }
    }

    /// The phase the attempt is in.
    pub fn phase(&self) -> (phase: Phase)
        ensures
            phase == self@.phase,
    {
        self.phase
    }

    /// The number of bytes downloaded so far.
    pub fn downloaded(&self) -> (bytes: usize)
        ensures
            bytes == self@.downloaded,
    {
        self.downloaded
    }

    /// The length of the whole download, as the latest chunk told it.
    pub fn content_length(&self) -> (length: Option<u64>)
        ensures
            length == self@.content_length,
    {
        self.content_length
    }

    /// Whether the attempt is over.
    pub fn is_finished(&self) -> (over: bool)
        ensures
            over == self@.phase.terminal(),
    {
        self.phase.is_terminal()
    }

    /// Whether `step` may be called with `event`: whether the byte count
    /// stays within `usize`.
    pub fn fits(&self, event: Event) -> (ok: bool)
        ensures
            ok == self@.fits(event),
    {
        match (self.phase, event) {
            (Phase::Applying, Event::Chunk { length, .. }) => length <= usize::MAX
                - self.downloaded,
            _ => true,
        }
    }

    /// Takes in `event` and returns what the host is to do next.
    ///
    /// An event that the current phase does not wait for is ignored: the
    /// attempt stays as it is and nothing is asked for.
    pub fn step(&mut self, event: Event) -> (action: Action)
        requires
            old(self)@.fits(event),
        ensures
            final(self)@ == old(self)@.step(event),
            action == old(self)@.action(event),
            old(self)@.downloaded <= final(self)@.downloaded,
    {
        match (self.phase, event) {
            (Phase::Idle, Event::Started) => {
                self.phase = Phase::Checking;
                Action::CheckForUpdate
            },
            (Phase::Checking, Event::NoUpdate) => {
                self.phase = Phase::UpToDate;
                Action::Nothing
            },
            (Phase::Checking, Event::UpdateFound) => {
                self.phase = Phase::Applying;
                Action::DownloadAndInstall
            },
            (Phase::Checking, Event::Failed) | (Phase::Applying, Event::Failed) => {
                self.phase = Phase::Failed;
                Action::ReportError
            },
            (Phase::Applying, Event::Chunk { length, content_length }) => {
                self.downloaded = self.downloaded + length;
                self.content_length = content_length;
                Action::ReportProgress
            },
            (Phase::Applying, Event::DownloadFinished) => Action::ReportDownloadFinished,
            (Phase::Applying, Event::Installed) => {
                self.phase = Phase::Confirming;
                Action::AskRestart
            },
            (Phase::Confirming, Event::Answered { restart }) => {
                if restart {
                    self.phase = Phase::Restarting;
                    Action::Restart
                } else {
                    self.phase = Phase::Declined;
                    Action::Nothing
                }
            },
            _ => Action::Nothing,
        }
    }
}

} // verus!
