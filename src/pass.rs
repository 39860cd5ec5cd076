use crate::connection::{
    is_first_wired, is_wired_entry, launch_decision_spec, running_outcome_spec,
    timers_after_discovery, LaunchDecision, WiredConnection,
};
use crate::install::{
    install_action_spec, install_commands, install_commands_spec, package_install_action,
    sha1_hex_of, views_of_commands, views_of_texts, InstallAction, InstallCommand,
    InstallCommandView,
};
use crate::packages::{application_ids_spec, get_application_ids, ClientFlavor};
use crate::ports::{missing_ports, missing_ports_spec};
use crate::status::{NotReadyReason, WiredConnectionStatus};
use vstd::prelude::*;

verus! {

/// A client package to keep installed; given only where the package file
/// exists.
pub struct AutoInstall {
    pub apk_path: String,
    pub permissions: Vec<String>,
}

/// What a setup pass is asked to reach.
pub struct PassConfig {
    pub control_port: u16,
    pub stream_port: u16,
    pub flavor: ClientFlavor,
    pub stable: bool,
    pub autolaunch: bool,
    pub autoinstall: Option<AutoInstall>,
}

/// Where a setup pass stands: the answer it waits for is the one to the
/// action that led there.
pub enum PassStage {
    Discover,
    Forward { device: String },
    Forwarded { device: String },
    Digest { device: String, ids: Vec<String> },
    Compare { device: String, ids: Vec<String>, installed: String },
    Install { device: String, ids: Vec<String> },
    Select { device: String, ids: Vec<String>, next: usize },
    Process { device: String, client: String },
    Resumed { device: String, client: String },
    Launch { device: String, client: String },
}

/// The answer to the last action.
pub enum PassEvent {
    /// The serials of the attached devices.
    Devices(Vec<Option<String>>),
    /// The local ports forwarded for the device.
    ForwardedPorts(Vec<u16>),
    /// The requested changes were made.
    Done,
    /// The digest of the installed package, `None` where it is not installed.
    Digest(Option<String>),
    /// The bytes of the local package file.
    Package(Vec<u8>),
    /// Whether the queried candidate is installed (a failed query is `false`).
    Installed(bool),
    /// Whether the client has a process.
    ProcessRunning(bool),
    /// Whether the client's activity is resumed.
    Resumed(bool),
}

/// What the caller must do next with the device bridge.
pub enum PassAction {
    ListDevices,
    ListForwardedPorts { device: String },
    Forward { device: String, ports: Vec<u16> },
    QueryDigest { device: String, package: String },
    ReadPackage,
    RunInstall { device: String, commands: Vec<InstallCommand> },
    QueryInstalled { device: String, package: String },
    QueryProcess { device: String, client: String },
    QueryResumed { device: String, client: String },
    StartClient { device: String, client: String },
    /// The pass is over, with this status.
    Finish(WiredConnectionStatus),
}

pub enum PassStageView {
    Discover,
    Forward { device: Seq<char> },
    Forwarded { device: Seq<char> },
    Digest { device: Seq<char>, ids: Seq<Seq<char>> },
    Compare { device: Seq<char>, ids: Seq<Seq<char>>, installed: Seq<char> },
    Install { device: Seq<char>, ids: Seq<Seq<char>> },
    Select { device: Seq<char>, ids: Seq<Seq<char>>, next: int },
    Process { device: Seq<char>, client: Seq<char> },
    Resumed { device: Seq<char>, client: Seq<char> },
    Launch { device: Seq<char>, client: Seq<char> },
}

pub enum PassActionView {
    ListDevices,
    ListForwardedPorts { device: Seq<char> },
    Forward { device: Seq<char>, ports: Seq<u16> },
    QueryDigest { device: Seq<char>, package: Seq<char> },
    ReadPackage,
    RunInstall { device: Seq<char>, commands: Seq<InstallCommandView> },
    QueryInstalled { device: Seq<char>, package: Seq<char> },
    QueryProcess { device: Seq<char>, client: Seq<char> },
    QueryResumed { device: Seq<char>, client: Seq<char> },
    StartClient { device: Seq<char>, client: Seq<char> },
    /// `None` for ready, else the message.
    Finish(Option<Seq<char>>),
}

impl View for PassStage {
    type V = PassStageView;

    open spec fn view(&self) -> PassStageView {
        match self {
            PassStage::Discover => PassStageView::Discover,
            PassStage::Forward { device } => PassStageView::Forward { device: device@ },
            PassStage::Forwarded { device } => PassStageView::Forwarded { device: device@ },
            PassStage::Digest { device, ids } => PassStageView::Digest {
                device: device@,
                ids: views_of_texts(ids@),
            },
            PassStage::Compare { device, ids, installed } => PassStageView::Compare {
                device: device@,
                ids: views_of_texts(ids@),
                installed: installed@,
            },
            PassStage::Install { device, ids } => PassStageView::Install {
                device: device@,
                ids: views_of_texts(ids@),
            },
            PassStage::Select { device, ids, next } => PassStageView::Select {
                device: device@,
                ids: views_of_texts(ids@),
                next: *next as int,
            },
            PassStage::Process { device, client } => PassStageView::Process {
                device: device@,
                client: client@,
            },
            PassStage::Resumed { device, client } => PassStageView::Resumed {
                device: device@,
                client: client@,
            },
            PassStage::Launch { device, client } => PassStageView::Launch {
                device: device@,
                client: client@,
            },
        }
    }
}

pub open spec fn status_view(s: WiredConnectionStatus) -> Option<Seq<char>> {
    match s {
        WiredConnectionStatus::Ready => None,
        WiredConnectionStatus::NotReady(m) => Some(m@),
    }
}

impl View for PassAction {
    type V = PassActionView;

    open spec fn view(&self) -> PassActionView {
        match self {
            PassAction::ListDevices => PassActionView::ListDevices,
            PassAction::ListForwardedPorts { device } => PassActionView::ListForwardedPorts {
                device: device@,
            },
            PassAction::Forward { device, ports } => PassActionView::Forward {
                device: device@,
                ports: ports@,
            },
            PassAction::QueryDigest { device, package } => PassActionView::QueryDigest {
                device: device@,
                package: package@,
            },
            PassAction::ReadPackage => PassActionView::ReadPackage,
            PassAction::RunInstall { device, commands } => PassActionView::RunInstall {
                device: device@,
                commands: views_of_commands(commands@),
            },
            PassAction::QueryInstalled { device, package } => PassActionView::QueryInstalled {
                device: device@,
                package: package@,
            },
            PassAction::QueryProcess { device, client } => PassActionView::QueryProcess {
                device: device@,
                client: client@,
            },
            PassAction::QueryResumed { device, client } => PassActionView::QueryResumed {
                device: device@,
                client: client@,
            },
            PassAction::StartClient { device, client } => PassActionView::StartClient {
                device: device@,
                client: client@,
            },
            PassAction::Finish(status) => PassActionView::Finish(status_view(*status)),
        }
    }
}

/// The pass ends with the condition `reason`.
pub open spec fn finish_with(reason: NotReadyReason) -> (PassStageView, PassActionView) {
    (PassStageView::Discover, PassActionView::Finish(Some(reason.text())))
}

/// An answer that does not fit the stage: the pass starts over.
pub open spec fn restart() -> (PassStageView, PassActionView) {
    (PassStageView::Discover, PassActionView::ListDevices)
}

/// Candidate selection from index `next` on: query it, or, past the last
/// candidate, end with no suitable client.
pub open spec fn select_from_spec(device: Seq<char>, ids: Seq<Seq<char>>, next: int) -> (
    PassStageView,
    PassActionView,
) {
    if 0 <= next < ids.len() {
        (
            PassStageView::Select { device, ids, next },
            PassActionView::QueryInstalled { device, package: ids[next] },
        )
    } else {
        finish_with(NotReadyReason::NoSuitableClient)
    }
}

pub open spec fn autoinstall_permissions(config: PassConfig) -> Seq<Seq<char>> {
    match config.autoinstall {
        Some(a) => views_of_texts(a.permissions@),
        None => Seq::empty(),
    }
}

pub open spec fn autoinstall_apk(config: PassConfig) -> Seq<char> {
    match config.autoinstall {
        Some(a) => a.apk_path@,
        None => Seq::empty(),
    }
}

/// The install requests for `action` on the first candidate.
pub open spec fn run_install_spec(
    device: Seq<char>,
    ids: Seq<Seq<char>>,
    action: InstallAction,
    config: PassConfig,
) -> (PassStageView, PassActionView) {
    (
        PassStageView::Install { device, ids },
        PassActionView::RunInstall {
            device,
            commands: install_commands_spec(
                action,
                ids[0],
                autoinstall_apk(config),
                autoinstall_permissions(config),
            ),
        },
    )
}

pub open spec fn with_timers(
    initial: Option<u64>,
    post: Option<u64>,
    next: (PassStageView, PassActionView),
) -> (Option<u64>, Option<u64>, PassStageView, PassActionView) {
    (initial, post, next.0, next.1)
}

/// One step of a setup pass: from the timers, the stage and the answer to
/// the last action, the timers after it, the next stage and the next action.
pub open spec fn pass_step_spec(
    initial: Option<u64>,
    post: Option<u64>,
    stage: PassStage,
    event: PassEvent,
    config: PassConfig,
    now: u64,
) -> (Option<u64>, Option<u64>, PassStageView, PassActionView) {
    match (stage, event) {
        (PassStage::Discover, PassEvent::Devices(serials)) => {
            let found = exists|i: int| is_first_wired(serials@, i);
            let t = timers_after_discovery(initial, post, found, now);
            if found {
                let i = choose|i: int| is_first_wired(serials@, i);
                let device = serials@[i]->Some_0@;
                with_timers(
                    t.0,
                    t.1,
                    (
                        PassStageView::Forward { device },
                        PassActionView::ListForwardedPorts { device },
                    ),
                )
            } else {
                with_timers(t.0, t.1, finish_with(NotReadyReason::NoWiredDevices))
            }
        },
        (PassStage::Forward { device }, PassEvent::ForwardedPorts(ports)) => with_timers(
            initial,
            post,
            (
                PassStageView::Forwarded { device: device@ },
                PassActionView::Forward {
                    device: device@,
                    ports: missing_ports_spec(config.control_port, config.stream_port, ports@),
                },
            ),
        ),
        (PassStage::Forwarded { device }, PassEvent::Done) => {
            let ids = application_ids_spec(config.flavor, config.stable);
            if config.autoinstall is Some && ids.len() > 0 {
                with_timers(
                    initial,
                    post,
                    (
                        PassStageView::Digest { device: device@, ids },
                        PassActionView::QueryDigest { device: device@, package: ids[0] },
                    ),
                )
            } else {
                with_timers(initial, post, select_from_spec(device@, ids, 0))
            }
        },
        (PassStage::Digest { device, ids }, PassEvent::Digest(installed)) => {
            if config.autoinstall is None || ids@.len() == 0 {
                with_timers(initial, post, restart())
            } else {
                match installed {
                    None => with_timers(
                        initial,
                        post,
                        run_install_spec(
                            device@,
                            views_of_texts(ids@),
                            InstallAction::Install,
                            config,
                        ),
                    ),
                    Some(d) => with_timers(
                        initial,
                        post,
                        (
                            PassStageView::Compare {
                                device: device@,
                                ids: views_of_texts(ids@),
                                installed: d@,
                            },
                            PassActionView::ReadPackage,
                        ),
                    ),
                }
            }
        },
        (PassStage::Compare { device, ids, installed }, PassEvent::Package(bytes)) => {
            if config.autoinstall is None || ids@.len() == 0 {
                with_timers(initial, post, restart())
            } else {
                with_timers(
                    initial,
                    post,
                    run_install_spec(
                        device@,
                        views_of_texts(ids@),
                        install_action_spec(Some(installed@), sha1_hex_of(bytes@)),
                        config,
                    ),
                )
            }
        },
        (PassStage::Install { device, ids }, PassEvent::Done) => with_timers(
            initial,
            post,
            select_from_spec(device@, views_of_texts(ids@), 0),
        ),
        (PassStage::Select { device, ids, next }, PassEvent::Installed(found)) => {
            if next < ids@.len() && found {
                let client = ids@[next as int]@;
                with_timers(
                    initial,
                    post,
                    (
                        PassStageView::Process { device: device@, client },
                        PassActionView::QueryProcess { device: device@, client },
                    ),
                )
            } else {
                with_timers(
                    initial,
                    post,
                    select_from_spec(device@, views_of_texts(ids@), next + 1),
                )
            }
        },
        (PassStage::Process { device, client }, PassEvent::ProcessRunning(running)) => {
            if running {
                with_timers(
                    initial,
                    post,
                    (
                        PassStageView::Resumed { device: device@, client: client@ },
                        PassActionView::QueryResumed { device: device@, client: client@ },
                    ),
                )
            } else {
                match launch_decision_spec(initial, post, config.autolaunch, now) {
                    LaunchDecision::Launch => with_timers(
                        initial,
                        post,
                        (
                            PassStageView::Launch { device: device@, client: client@ },
                            PassActionView::StartClient { device: device@, client: client@ },
                        ),
                    ),
                    LaunchDecision::Wait(reason) => with_timers(initial, post, finish_with(reason)),
                }
            }
        },
        (PassStage::Launch { .. }, PassEvent::Done) => with_timers(
            initial,
            Some(now),
            finish_with(NotReadyReason::StartingClient),
        ),
        (PassStage::Resumed { .. }, PassEvent::Resumed(resumed)) => {
            let (outcome, after) = running_outcome_spec(post, resumed, now);
            match outcome {
                Some(reason) => with_timers(initial, after, finish_with(reason)),
                None => (initial, after, PassStageView::Discover, PassActionView::Finish(None)),
            }
        },
        _ => with_timers(initial, post, restart()),
    }
}

proof fn lemma_first_wired_unique(serials: Seq<Option<String>>, i: int, j: int)
    requires
        is_first_wired(serials, i),
        is_first_wired(serials, j),
    ensures
        i == j,
{
    if i < j {
        assert(!is_wired_entry(serials[i]));
    } else if j < i {
        assert(!is_wired_entry(serials[j]));
    }
}

fn finish(reason: NotReadyReason) -> (r: (PassStage, PassAction))
    ensures
        (r.0@, r.1@) == finish_with(reason),
{
    let status = reason.status();
    (PassStage::Discover, PassAction::Finish(status))
}

fn select_from(device: String, ids: Vec<String>, next: usize) -> (r: (PassStage, PassAction))
    ensures
        (r.0@, r.1@) == select_from_spec(device@, views_of_texts(ids@), next as int),
{
    if next < ids.len() {
        let package = ids[next].clone();
        let d = device.clone();
        (PassStage::Select { device, ids, next }, PassAction::QueryInstalled { device: d, package })
    } else {
        finish(NotReadyReason::NoSuitableClient)
    }
}

fn run_install(device: String, ids: Vec<String>, action: InstallAction, install: &AutoInstall) -> (r: (
    PassStage,
    PassAction,
))
    requires
        ids@.len() > 0,
    ensures
        r.0@ == (PassStageView::Install { device: device@, ids: views_of_texts(ids@) }),
        r.1@ == (PassActionView::RunInstall {
            device: device@,
            commands: install_commands_spec(
                action,
                ids@[0]@,
                install.apk_path@,
                views_of_texts(install.permissions@),
            ),
        }),
{
    let commands = install_commands(action, &ids[0], &install.apk_path, &install.permissions);
    let d = device.clone();
    (PassStage::Install { device, ids }, PassAction::RunInstall { device: d, commands })
}

/// A pass whose device list holds only loopback serials, or none, ends at
/// once with no wired device found and clears both timers.
pub proof fn lemma_no_wired_device(
    initial: Option<u64>,
    post: Option<u64>,
    serials: Vec<Option<String>>,
    config: PassConfig,
    now: u64,
)
    requires
        forall|i: int| 0 <= i < serials@.len() ==> !is_wired_entry(#[trigger] serials@[i]),
    ensures
        pass_step_spec(initial, post, PassStage::Discover, PassEvent::Devices(serials), config, now)
            == with_timers(None, None, finish_with(NotReadyReason::NoWiredDevices)),
{
    assert(!exists|i: int| is_first_wired(serials@, i));
}

/// A step taken again, with the timers that it left and the same answer,
/// gives the same next stage and action and leaves the timers as they are.
/// With the settling of forwards and installs, this makes a repeated pass on
/// an unchanged device report the same status.
pub proof fn lemma_step_idempotent(
    initial: Option<u64>,
    post: Option<u64>,
    stage: PassStage,
    event: PassEvent,
    config: PassConfig,
    now: u64,
)
    ensures
        ({
            let first = pass_step_spec(initial, post, stage, event, config, now);
            pass_step_spec(first.0, first.1, stage, event, config, now) == first
        }),
{
}

/// The client is not started before the pre-launch delay has passed since
/// the device was first seen; from then on it is started, the launch records
/// the post-launch timer, and a later pass that again finds no process does
/// not start it again.
pub proof fn lemma_pre_launch_debounce(
    start: u64,
    stage: PassStage,
    config: PassConfig,
    now: u64,
    later: u64,
)
    requires
        stage is Process,
        config.autolaunch,
    ensures
        crate::connection::elapsed(start, now) < crate::connection::PRE_LAUNCH_DELAY_MS
            ==> pass_step_spec(Some(start), None, stage, PassEvent::ProcessRunning(false), config, now)
            == with_timers(Some(start), None, finish_with(NotReadyReason::AwaitingPreLaunch)),
        crate::connection::elapsed(start, now) >= crate::connection::PRE_LAUNCH_DELAY_MS
            ==> pass_step_spec(
            Some(start),
            None,
            stage,
            PassEvent::ProcessRunning(false),
            config,
            now,
        ).3 is StartClient,
        stage matches PassStage::Process { device, client } ==> pass_step_spec(
            Some(start),
            None,
            PassStage::Launch { device, client },
            PassEvent::Done,
            config,
            now,
        ) == with_timers(Some(start), Some(now), finish_with(NotReadyReason::StartingClient)),
        pass_step_spec(Some(start), Some(now), stage, PassEvent::ProcessRunning(false), config, later)
            == with_timers(Some(start), Some(now), finish_with(NotReadyReason::ClientNotRunning)),
{
}

/// After a launch, a running client whose activity is resumed is held back
/// until the post-launch delay has passed; then the pass ends ready and the
/// post-launch timer is cleared.
pub proof fn lemma_post_launch_debounce(
    initial: Option<u64>,
    launched: u64,
    stage: PassStage,
    config: PassConfig,
    now: u64,
)
    requires
        stage is Resumed,
    ensures
        crate::connection::elapsed(launched, now) < crate::connection::POST_LAUNCH_DELAY_MS
            ==> pass_step_spec(initial, Some(launched), stage, PassEvent::Resumed(true), config, now)
            == with_timers(initial, Some(launched), finish_with(NotReadyReason::AwaitingPostLaunch)),
        crate::connection::elapsed(launched, now) >= crate::connection::POST_LAUNCH_DELAY_MS
            ==> pass_step_spec(initial, Some(launched), stage, PassEvent::Resumed(true), config, now)
            == (initial, None::<u64>, PassStageView::Discover, PassActionView::Finish(None)),
{
}

/// The steps of a pass on a device where all is in place: both ports are
/// forwarded, so none is forwarded again; the installed digest matches the
/// local one, so nothing is installed; an installed candidate leads to the
/// process query; a running process to the activity query; and a resumed
/// activity with no launch pending ends the pass ready.
pub proof fn lemma_all_in_place(
    initial: Option<u64>,
    post: Option<u64>,
    stage: PassStage,
    ports: Vec<u16>,
    bytes: Vec<u8>,
    config: PassConfig,
    now: u64,
)
    ensures
        (stage is Forward && ports@.contains(config.control_port) && ports@.contains(config.stream_port))
            ==> (pass_step_spec(initial, post, stage, PassEvent::ForwardedPorts(ports), config, now).3
            matches PassActionView::Forward { ports: p, .. } && p.len() == 0),
        (stage matches PassStage::Compare { ids, installed, .. } && config.autoinstall is Some
            && ids@.len() > 0 && installed@ == sha1_hex_of(bytes@)) ==> (pass_step_spec(
            initial,
            post,
            stage,
            PassEvent::Package(bytes),
            config,
            now,
        ).3 matches PassActionView::RunInstall { commands: c, .. } && c.len() == 0),
        (stage matches PassStage::Select { ids, next, .. } && next < ids@.len()) ==> pass_step_spec(
            initial,
            post,
            stage,
            PassEvent::Installed(true),
            config,
            now,
        ).3 is QueryProcess,
        stage is Process ==> pass_step_spec(
            initial,
            post,
            stage,
            PassEvent::ProcessRunning(true),
            config,
            now,
        ).3 is QueryResumed,
        stage is Resumed ==> pass_step_spec(initial, None, stage, PassEvent::Resumed(true), config, now)
            == (initial, None::<u64>, PassStageView::Discover, PassActionView::Finish(None)),
{
}

/// Where a candidate is not installed, the timers stay as they are and the
/// next candidate is queried; past the last one the pass ends with no
/// suitable client.
pub proof fn lemma_no_client_installed(
    initial: Option<u64>,
    post: Option<u64>,
    device: String,
    ids: Vec<String>,
    next: usize,
    config: PassConfig,
    now: u64,
)
    ensures
        next + 1 < ids@.len() ==> pass_step_spec(
            initial,
            post,
            PassStage::Select { device, ids, next },
            PassEvent::Installed(false),
            config,
            now,
        ) == with_timers(
            initial,
            post,
            (
                PassStageView::Select { device: device@, ids: views_of_texts(ids@), next: next + 1 },
                PassActionView::QueryInstalled { device: device@, package: ids@[next + 1]@ },
            ),
        ),
        next + 1 >= ids@.len() ==> pass_step_spec(
            initial,
            post,
            PassStage::Select { device, ids, next },
            PassEvent::Installed(false),
            config,
            now,
        ) == with_timers(initial, post, finish_with(NotReadyReason::NoSuitableClient)),
{
}

impl WiredConnection {
    /// One step of a setup pass. A pass starts at `PassStage::Discover` with
    /// the answer to `PassAction::ListDevices`; the caller carries out each
    /// action it is given and hands back the answer, until `Finish`.
    pub fn pass_step(&mut self, stage: PassStage, event: PassEvent, config: &PassConfig, now: u64) -> (r: (
        PassStage,
        PassAction,
    ))
        ensures
            final(self).adb_path == old(self).adb_path,
            pass_step_spec(
                old(self).initial_autolaunch_delay,
                old(self).post_autolaunch_delay,
                stage,
                event,
                *config,
                now,
            ) == (final(self).initial_autolaunch_delay, final(self).post_autolaunch_delay, r.0@, r.1@),
    {
        match (stage, event) {
            (PassStage::Discover, PassEvent::Devices(serials)) => {
                match self.select_device(&serials, now) {
                    Some(device) => {
                        proof {
                            let i = choose|i: int|
                                is_first_wired(serials@, i) && (serials@[i] matches Some(s) && device@ == s@);
                            let k = choose|k: int| is_first_wired(serials@, k);
                            lemma_first_wired_unique(serials@, i, k);
                        }
                        let d = device.clone();
                        (PassStage::Forward { device }, PassAction::ListForwardedPorts { device: d })
                    },
                    None => {
                        assert(!exists|i: int| is_first_wired(serials@, i));
                        finish(NotReadyReason::NoWiredDevices)
                    },
                }
            },
            (PassStage::Forward { device }, PassEvent::ForwardedPorts(ports)) => {
                let missing = missing_ports(config.control_port, config.stream_port, &ports);
                let d = device.clone();
                (PassStage::Forwarded { device }, PassAction::Forward { device: d, ports: missing })
            },
            (PassStage::Forwarded { device }, PassEvent::Done) => {
                let ids = get_application_ids(&config.flavor, config.stable);
                assert(views_of_texts(ids@) =~= application_ids_spec(config.flavor, config.stable));
                if config.autoinstall.is_some() && ids.len() > 0 {
                    let package = ids[0].clone();
                    let d = device.clone();
                    (PassStage::Digest { device, ids }, PassAction::QueryDigest { device: d, package })
                } else {
                    select_from(device, ids, 0)
                }
            },
            (PassStage::Digest { device, ids }, PassEvent::Digest(installed)) => {
                match &config.autoinstall {
                    Some(install) => {
                        if ids.len() == 0 {
                            (PassStage::Discover, PassAction::ListDevices)
                        } else {
                            match installed {
                                None => run_install(device, ids, InstallAction::Install, install),
                                Some(d) => (
                                    PassStage::Compare { device, ids, installed: d },
                                    PassAction::ReadPackage,
                                ),
                            }
                        }
                    },
                    None => (PassStage::Discover, PassAction::ListDevices),
                }
            },
            (PassStage::Compare { device, ids, installed }, PassEvent::Package(bytes)) => {
                match &config.autoinstall {
                    Some(install) => {
                        if ids.len() == 0 {
                            (PassStage::Discover, PassAction::ListDevices)
                        } else {
                            let action = package_install_action(&Some(installed), &bytes);
                            run_install(device, ids, action, install)
                        }
                    },
                    None => (PassStage::Discover, PassAction::ListDevices),
                }
            },
            (PassStage::Install { device, ids }, PassEvent::Done) => select_from(device, ids, 0),
            (PassStage::Select { device, ids, next }, PassEvent::Installed(found)) => {
                if next < ids.len() && found {
                    let client = ids[next].clone();
                    let c = client.clone();
                    let d = device.clone();
                    (PassStage::Process { device, client }, PassAction::QueryProcess { device: d, client: c })
                } else if next < ids.len() {
                    select_from(device, ids, next + 1)
                } else {
                    finish(NotReadyReason::NoSuitableClient)
                }
            },
            (PassStage::Process { device, client }, PassEvent::ProcessRunning(running)) => {
                let d = device.clone();
                let c = client.clone();
                if running {
                    (PassStage::Resumed { device, client }, PassAction::QueryResumed { device: d, client: c })
                } else {
                    match self.launch_decision(config.autolaunch, now) {
                        LaunchDecision::Launch => (
                            PassStage::Launch { device, client },
                            PassAction::StartClient { device: d, client: c },
                        ),
                        LaunchDecision::Wait(reason) => finish(reason),
                    }
                }
            },
            (PassStage::Launch { .. }, PassEvent::Done) => {
                let status = self.mark_launched(now);
                (PassStage::Discover, PassAction::Finish(status))
            },
            (PassStage::Resumed { .. }, PassEvent::Resumed(resumed)) => {
                let status = self.running_status(resumed, now);
                (PassStage::Discover, PassAction::Finish(status))
            },
            _ => (PassStage::Discover, PassAction::ListDevices),
        }
    }
}

} // verus!
