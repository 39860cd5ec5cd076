use vstd::prelude::*;

verus! {

/// What one pass of the connection setup concluded.
pub enum WiredConnectionStatus {
    Ready,
    NotReady(String),
}

/// The expected, transient conditions under which the connection is not
/// ready yet.
#[derive(Clone, Copy, Debug, PartialEq, Eq, Structural)]
pub enum NotReadyReason {
    NoWiredDevices,
    NoSuitableClient,
    ClientNotRunning,
    AwaitingPreLaunch,
    StartingClient,
    ClientPaused,
    AwaitingPostLaunch,
}

impl NotReadyReason {
    pub open spec fn text(self) -> Seq<char> {
        match self {
            NotReadyReason::NoWiredDevices => "No wired devices found"@,
            NotReadyReason::NoSuitableClient => "No suitable ALVR client is installed"@,
            NotReadyReason::ClientNotRunning => "ALVR client is not running"@,
            NotReadyReason::AwaitingPreLaunch => "Awaiting pre autolaunch delay"@,
            NotReadyReason::StartingClient => "Starting ALVR client"@,
            NotReadyReason::ClientPaused => "ALVR client is paused"@,
            NotReadyReason::AwaitingPostLaunch => "Awaiting post autolaunch delay"@,
        }
    }

    /// The human-readable message of this condition.
    pub fn message(&self) -> (r: String)
        ensures
            r@ == self.text(),
    {
        match self {
            NotReadyReason::NoWiredDevices => "No wired devices found".to_owned(),
            NotReadyReason::NoSuitableClient => "No suitable ALVR client is installed".to_owned(),
            NotReadyReason::ClientNotRunning => "ALVR client is not running".to_owned(),
            NotReadyReason::AwaitingPreLaunch => "Awaiting pre autolaunch delay".to_owned(),
            NotReadyReason::StartingClient => "Starting ALVR client".to_owned(),
            NotReadyReason::ClientPaused => "ALVR client is paused".to_owned(),
            NotReadyReason::AwaitingPostLaunch => "Awaiting post autolaunch delay".to_owned(),
        }
    }

    /// The `NotReady` status that carries this condition's message.
    pub fn status(&self) -> (r: WiredConnectionStatus)
        ensures
            r.reports(*self),
    {
        WiredConnectionStatus::NotReady(self.message())
    }
}

impl WiredConnectionStatus {
    /// The status is `NotReady` with the message of `reason`.
    pub open spec fn reports(&self, reason: NotReadyReason) -> bool {
        match self {
            WiredConnectionStatus::NotReady(m) => m@ == reason.text(),
            WiredConnectionStatus::Ready => false,
        }
    }

    pub fn is_ready(&self) -> (r: bool)
        ensures
            r == (*self is Ready),
    {
        match self {
            WiredConnectionStatus::Ready => true,
            WiredConnectionStatus::NotReady(_) => false,
        }
    }
}

} // verus!
