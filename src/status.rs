use vstd::prelude::*;

verus! {

/// HTTP-like code of a snapshot that carries a valid state.
pub const STATUS_OK: u16 = 200;

/// Code of a snapshot refused for an expired or wrong token.
pub const STATUS_UNAUTHORIZED: u16 = 401;

/// The outcome part of a status snapshot.
#[derive(Debug)]
pub struct StatusInfo {
    pub status_code: u16,
    pub message: String,
}

/// One work item of a snapshot; only the first one is ever consulted.
#[derive(Debug)]
pub struct DataItem {
    pub did_start: bool,
    pub did_complete: bool,
    pub current_state: String,
}

/// One snapshot of the remote workflow's status.
#[derive(Debug)]
pub struct Response {
    pub status_info: StatusInfo,
    pub data: Vec<DataItem>,
}

/// What a snapshot means to the poll loop.
#[derive(Debug)]
pub enum Classification {
    /// A valid snapshot, with the state label of its first item (empty if none).
    Valid(String),
    /// The token was refused: no later poll can succeed.
    Unauthorized,
    /// Any other failure, with the message to show; transient.
    OtherError(String),
}

/// The progress line that one snapshot calls for.
#[derive(Debug)]
pub enum Progress {
    /// A valid snapshot of a workflow that has not completed.
    StillRunning,
    /// A valid snapshot of a completed workflow, with its state label.
    Finished(String),
    /// A failed query, with the snapshot's message.
    QueryFailed(String),
}

impl Response {
    /// The workflow has completed: its first item both started and completed.
    pub open spec fn complete(&self) -> bool {
        &&& self.data@.len() > 0
        &&& self.data@[0].did_start
        &&& self.data@[0].did_complete
    }

    /// The state label of the first item, or the empty label when there is none.
    pub open spec fn state_label(&self) -> Seq<char> {
        if self.data@.len() > 0 {
            self.data@[0].current_state@
        } else {
            Seq::empty()
        }
    }

    pub fn is_status_ok(&self) -> (r: bool)
        ensures
            r == (self.status_info.status_code == STATUS_OK),
    {
        self.status_info.status_code == STATUS_OK
    }

    pub fn is_unauthorized(&self) -> (r: bool)
        ensures
            r == (self.status_info.status_code == STATUS_UNAUTHORIZED),
    {
        self.status_info.status_code == STATUS_UNAUTHORIZED
    }

    pub fn is_complete(&self) -> (r: bool)
        ensures
            r == self.complete(),
            self.data@.len() == 0 ==> !r,
            self.data@.len() > 0 ==> (r <==> self.data@[0].did_start && self.data@[0].did_complete),
    {
        if self.data.len() == 0 {
            return false;
        }
        self.data[0].did_start && self.data[0].did_complete
    }

    /// The state label of the first item, or an empty string when there is none.
    pub fn current_state(&self) -> (r: String)
        ensures
            r@ == self.state_label(),
    {
        if self.data.len() == 0 {
            String::new()
        } else {
            self.data[0].current_state.clone()
        }
    }

    pub fn classify(&self) -> (r: Classification)
        ensures
            self.status_info.status_code == STATUS_OK ==> (r matches Classification::Valid(s) && s@
                == self.state_label()),
            self.status_info.status_code == STATUS_UNAUTHORIZED ==> r is Unauthorized,
            self.status_info.status_code != STATUS_OK && self.status_info.status_code
                != STATUS_UNAUTHORIZED ==> (r matches Classification::OtherError(m) && m@
                == self.status_info.message@),
    {
        if self.is_status_ok() {
            Classification::Valid(self.current_state())
        } else if self.is_unauthorized() {
            Classification::Unauthorized
        } else {
            Classification::OtherError(self.status_info.message.clone())
        }
    }

    pub fn progress(&self) -> (r: Progress)
        ensures
            self.status_info.status_code == STATUS_OK && !self.complete() ==> r is StillRunning,
            self.status_info.status_code == STATUS_OK && self.complete() ==> (r matches Progress::Finished(
                s,
            ) && s@ == self.state_label()),
            self.status_info.status_code != STATUS_OK ==> (r matches Progress::QueryFailed(m) && m@
                == self.status_info.message@),
    {
        if !self.is_status_ok() {
            Progress::QueryFailed(self.status_info.message.clone())
        } else if self.is_complete() {
            Progress::Finished(self.current_state())
        } else {
            Progress::StillRunning
        }
    }
}

} // verus!
