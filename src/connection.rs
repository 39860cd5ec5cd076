use crate::status::{NotReadyReason, WiredConnectionStatus};
use vstd::prelude::*;
use vstd::string::*;

verus! {

/// How long after a device first shows up the client may be launched, in
/// milliseconds.
pub const PRE_LAUNCH_DELAY_MS: u64 = 15000;

/// How long after a launch the running client is given before it counts as
/// ready, in milliseconds.
pub const POST_LAUNCH_DELAY_MS: u64 = 5000;

/// The manager of one wired connection. Times are milliseconds on a
/// monotonic clock that the caller reads.
pub struct WiredConnection {
    /// How the device bridge is invoked.
    pub adb_path: String,
    /// When a wired device was first seen in the current episode.
    pub initial_autolaunch_delay: Option<u64>,
    /// When the client was launched, until its grace period has passed.
    pub post_autolaunch_delay: Option<u64>,
}

/// Time from `start` to `now`; a clock that went back counts as no time.
pub open spec fn elapsed(start: u64, now: u64) -> int {
    if now >= start {
        now - start
    } else {
        0
    }
}

fn elapsed_ms(start: u64, now: u64) -> (r: u64)
    ensures
        r == elapsed(start, now),
{
    if now >= start {
        now - start
    } else {
        0
    }
}

pub open spec fn loopback_prefix() -> Seq<char> {
    seq!['1', '2', '7', '.', '0', '.', '0', '.', '1']
}

/// The serial names a device reached over the loopback network, not a cable.
pub open spec fn is_loopback_serial(s: Seq<char>) -> bool {
    s.len() >= loopback_prefix().len() && s.subrange(0, loopback_prefix().len() as int)
        == loopback_prefix()
}

/// The entry is a serial of a wired device.
pub open spec fn is_wired_entry(e: Option<String>) -> bool {
    e matches Some(s) && !is_loopback_serial(s@)
}

/// `i` is the first entry that is a serial of a wired device.
pub open spec fn is_first_wired(serials: Seq<Option<String>>, i: int) -> bool {
    0 <= i < serials.len() && is_wired_entry(serials[i]) && forall|j: int|
        0 <= j < i ==> !is_wired_entry(#[trigger] serials[j])
}

pub fn is_loopback(serial: &str) -> (r: bool)
    ensures
        r == is_loopback_serial(serial@),
{
    let prefix = vec!['1', '2', '7', '.', '0', '.', '0', '.', '1'];
    assert(prefix@ == loopback_prefix());
    let n = serial.unicode_len();
    if n < prefix.len() {
        return false;
    }
    let mut i: usize = 0;
    while i < prefix.len()
        invariant
            prefix@ == loopback_prefix(),
            n == serial@.len(),
            n >= prefix@.len(),
            i <= prefix@.len(),
            forall|j: int| 0 <= j < i ==> serial@[j] == prefix@[j],
        decreases prefix@.len() - i,
    {
        if serial.get_char(i) != prefix[i] {
            assert(serial@.subrange(0, 9)[i as int] != loopback_prefix()[i as int]);
            return false;
        }
        i = i + 1;
    }
    assert(serial@.subrange(0, 9) =~= loopback_prefix());
    true
}

/// The timers after device discovery: a pass that found no wired device
/// clears both; one that found one starts the initial wait unless it runs.
pub open spec fn timers_after_discovery(
    initial: Option<u64>,
    post: Option<u64>,
    found: bool,
    now: u64,
) -> (Option<u64>, Option<u64>) {
    if !found {
        (None, None)
    } else {
        (
            match initial {
                Some(t) => Some(t),
                None => Some(now),
            },
            post,
        )
    }
}

/// What to do about a client that is installed and not running.
#[derive(Clone, Copy, Debug, PartialEq, Eq, Structural)]
pub enum LaunchDecision {
    /// Start the client now.
    Launch,
    /// Do not start it; the pass ends with this condition.
    Wait(NotReadyReason),
}

pub open spec fn launch_decision_spec(
    initial: Option<u64>,
    post: Option<u64>,
    autolaunch: bool,
    now: u64,
) -> LaunchDecision {
    if !autolaunch || post is Some {
        LaunchDecision::Wait(NotReadyReason::ClientNotRunning)
    } else {
        match initial {
            Some(t) => if elapsed(t, now) < PRE_LAUNCH_DELAY_MS {
                LaunchDecision::Wait(NotReadyReason::AwaitingPreLaunch)
            } else {
                LaunchDecision::Launch
            },
            None => LaunchDecision::Wait(NotReadyReason::AwaitingPreLaunch),
        }
    }
}

/// The outcome for a running client: `None` for ready, else the condition;
/// and the post-launch timer after the pass.
pub open spec fn running_outcome_spec(post: Option<u64>, resumed: bool, now: u64) -> (
    Option<NotReadyReason>,
    Option<u64>,
) {
    if !resumed {
        (Some(NotReadyReason::ClientPaused), post)
    } else {
        match post {
            Some(t) => if elapsed(t, now) < POST_LAUNCH_DELAY_MS {
                (Some(NotReadyReason::AwaitingPostLaunch), post)
            } else {
                (None, None)
            },
            None => (None, None),
        }
    }
}

pub open spec fn status_is(s: WiredConnectionStatus, outcome: Option<NotReadyReason>) -> bool {
    match outcome {
        None => s is Ready,
        Some(reason) => s.reports(reason),
    }
}

impl WiredConnection {
    /// A manager for the bridge invoked as `adb_path`, with no episode
    /// under way.
    pub fn new(adb_path: String) -> (r: Self)
        ensures
            r.adb_path == adb_path,
            r.initial_autolaunch_delay is None,
            r.post_autolaunch_delay is None,
    {
        WiredConnection { adb_path, initial_autolaunch_delay: None, post_autolaunch_delay: None }
    }

    /// Device discovery: picks the first serial that is not a loopback one
    /// from the bridge's device list, and updates the episode timers. Where
    /// it returns `None` the pass ends with `NoWiredDevices`.
    pub fn select_device(&mut self, serials: &Vec<Option<String>>, now: u64) -> (r: Option<
        String,
    >)
        ensures
            final(self).adb_path == old(self).adb_path,
            r is None <==> forall|i: int| 0 <= i < serials@.len() ==> !is_wired_entry(serials@[i]),
            r matches Some(d) ==> exists|i: int|
                is_first_wired(serials@, i) && (serials@[i] matches Some(s) && d@ == s@),
            (final(self).initial_autolaunch_delay, final(self).post_autolaunch_delay)
                == timers_after_discovery(
                old(self).initial_autolaunch_delay,
                old(self).post_autolaunch_delay,
                r is Some,
                now,
            ),
    {
        let mut i: usize = 0;
        while i < serials.len()
            invariant
                i <= serials@.len(),
                *self == *old(self),
                forall|j: int| 0 <= j < i ==> !is_wired_entry(#[trigger] serials@[j]),
            decreases serials@.len() - i,
        {
            if let Some(s) = &serials[i] {
                if !is_loopback(s.as_str()) {
                    if self.initial_autolaunch_delay.is_none() {
                        self.initial_autolaunch_delay = Some(now);
                    }
                    assert(is_first_wired(serials@, i as int));
                    return Some(s.clone());
                }
            }
            i = i + 1;
        }
        self.initial_autolaunch_delay = None;
        self.post_autolaunch_delay = None;
        None
    }

    /// Whether to start a client that is installed and not running.
    pub fn launch_decision(&self, autolaunch: bool, now: u64) -> (r: LaunchDecision)
        ensures
            r == launch_decision_spec(
                self.initial_autolaunch_delay,
                self.post_autolaunch_delay,
                autolaunch,
                now,
            ),
    {
        if !autolaunch || self.post_autolaunch_delay.is_some() {
            return LaunchDecision::Wait(NotReadyReason::ClientNotRunning);
        }
        match self.initial_autolaunch_delay {
            Some(t) => if elapsed_ms(t, now) < PRE_LAUNCH_DELAY_MS {
                LaunchDecision::Wait(NotReadyReason::AwaitingPreLaunch)
            } else {
                LaunchDecision::Launch
            },
            None => LaunchDecision::Wait(NotReadyReason::AwaitingPreLaunch),
        }
    }

    /// Records that the client was started at `now`.
    pub fn mark_launched(&mut self, now: u64) -> (r: WiredConnectionStatus)
        ensures
            final(self).adb_path == old(self).adb_path,
            final(self).initial_autolaunch_delay == old(self).initial_autolaunch_delay,
            final(self).post_autolaunch_delay == Some(now),
            r.reports(NotReadyReason::StartingClient),
    {
        self.post_autolaunch_delay = Some(now);
        NotReadyReason::StartingClient.status()
    }

    /// The status of a running client, given whether its activity is
    /// resumed; the post-launch timer is cleared once its grace period has
    /// passed and the client is resumed.
    pub fn running_status(&mut self, resumed: bool, now: u64) -> (r: WiredConnectionStatus)
        ensures
            final(self).adb_path == old(self).adb_path,
            final(self).initial_autolaunch_delay == old(self).initial_autolaunch_delay,
            status_is(r, running_outcome_spec(old(self).post_autolaunch_delay, resumed, now).0),
            final(self).post_autolaunch_delay == running_outcome_spec(
                old(self).post_autolaunch_delay,
                resumed,
                now,
            ).1,
    {
        if !resumed {
            return NotReadyReason::ClientPaused.status();
        }
        if let Some(t) = self.post_autolaunch_delay {
            if elapsed_ms(t, now) < POST_LAUNCH_DELAY_MS {
                return NotReadyReason::AwaitingPostLaunch.status();
            }
        }
        self.post_autolaunch_delay = None;
        WiredConnectionStatus::Ready
    }
}

} // verus!
