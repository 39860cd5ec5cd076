use alvr_adb::connection::{is_loopback, LaunchDecision, WiredConnection};
use alvr_adb::install::{
    decide_install, digests_match, install_commands, package_digest, package_install_action,
    InstallAction, InstallCommand,
};
use alvr_adb::packages::{get_application_ids, get_process_name, ClientFlavor};
use alvr_adb::ports::{missing_ports, parse_tcp_port};
use alvr_adb::status::{NotReadyReason, WiredConnectionStatus};

fn message(status: &WiredConnectionStatus) -> Option<String> {
    match status {
        WiredConnectionStatus::Ready => None,
        WiredConnectionStatus::NotReady(m) => Some(m.clone()),
    }
}

fn strings(v: &[&str]) -> Vec<String> {
    v.iter().map(|s| s.to_string()).collect()
}

#[test]
fn reason_messages() {
    assert_eq!(NotReadyReason::NoWiredDevices.message(), "No wired devices found");
    assert_eq!(NotReadyReason::NoSuitableClient.message(), "No suitable ALVR client is installed");
    assert_eq!(NotReadyReason::ClientNotRunning.message(), "ALVR client is not running");
    assert_eq!(NotReadyReason::AwaitingPreLaunch.message(), "Awaiting pre autolaunch delay");
    assert_eq!(NotReadyReason::StartingClient.message(), "Starting ALVR client");
    assert_eq!(NotReadyReason::ClientPaused.message(), "ALVR client is paused");
    assert_eq!(NotReadyReason::AwaitingPostLaunch.message(), "Awaiting post autolaunch delay");
    assert!(!NotReadyReason::ClientPaused.status().is_ready());
    assert!(WiredConnectionStatus::Ready.is_ready());
}

#[test]
fn loopback_serials_are_not_wired() {
    assert!(is_loopback("127.0.0.1:5555"));
    assert!(is_loopback("127.0.0.1"));
    assert!(!is_loopback("127.0.0.2:5555"));
    assert!(!is_loopback("1WMHH815K10123"));
    assert!(!is_loopback("127.0"));
    assert!(!is_loopback(""));
}

#[test]
fn only_loopback_devices_clear_timers() {
    let mut c = WiredConnection::new("adb".to_string());
    c.initial_autolaunch_delay = Some(10);
    c.post_autolaunch_delay = Some(20);
    let serials = vec![Some("127.0.0.1:5555".to_string()), None, Some("127.0.0.1:7777".to_string())];
    assert_eq!(c.select_device(&serials, 100), None);
    assert_eq!(c.initial_autolaunch_delay, None);
    assert_eq!(c.post_autolaunch_delay, None);
    assert_eq!(c.adb_path, "adb");
    assert_eq!(c.select_device(&Vec::new(), 200), None);
}

#[test]
fn first_wired_device_starts_episode_once() {
    let mut c = WiredConnection::new("adb".to_string());
    let serials = vec![None, Some("127.0.0.1:5555".to_string()), Some("ABC123".to_string()), Some("XYZ".to_string())];
    assert_eq!(c.select_device(&serials, 1000), Some("ABC123".to_string()));
    assert_eq!(c.initial_autolaunch_delay, Some(1000));
    assert_eq!(c.select_device(&serials, 4000), Some("ABC123".to_string()));
    assert_eq!(c.initial_autolaunch_delay, Some(1000));
    assert_eq!(c.post_autolaunch_delay, None);
}

#[test]
fn missing_ports_counts() {
    assert_eq!(missing_ports(9943, 9944, &vec![]), vec![9943, 9944]);
    assert_eq!(missing_ports(9943, 9944, &vec![9944, 9943]), Vec::<u16>::new());
    assert_eq!(missing_ports(9943, 9944, &vec![1234, 9944]), vec![9943]);
    assert_eq!(missing_ports(9943, 9944, &vec![9943, 5000]), vec![9944]);
    assert_eq!(missing_ports(9943, 9943, &vec![]), vec![9943]);
}

#[test]
fn application_ids_by_flavor() {
    assert_eq!(get_application_ids(&ClientFlavor::Store, true), strings(&["alvr.client", "alvr.client.stable"]));
    assert_eq!(get_application_ids(&ClientFlavor::Store, false), strings(&["alvr.client.dev"]));
    assert_eq!(get_application_ids(&ClientFlavor::Github, true), strings(&["alvr.client.stable", "alvr.client"]));
    assert_eq!(get_application_ids(&ClientFlavor::Github, false), strings(&["alvr.client.dev"]));
    let custom = ClientFlavor::Custom("my.client".to_string());
    assert_eq!(get_application_ids(&custom, true), strings(&["my.client", "alvr.client", "alvr.client.stable"]));
    assert_eq!(get_application_ids(&custom, false), strings(&["my.client", "alvr.client.dev"]));
}

#[test]
fn process_name_is_first_installed() {
    let ids = strings(&["a", "b", "c"]);
    assert_eq!(get_process_name(&ids, &vec![false, true, true]), Some("b".to_string()));
    assert_eq!(get_process_name(&ids, &vec![true, true, false]), Some("a".to_string()));
    assert_eq!(get_process_name(&ids, &vec![false, false, false]), None);
    assert_eq!(get_process_name(&Vec::new(), &Vec::new()), None);
}

#[test]
fn digest_compare_ignores_case() {
    assert!(digests_match("A9993E36", "a9993e36"));
    assert!(!digests_match("a9993e36", "a9993e37"));
    assert!(!digests_match("a9993e36", "a9993e3"));
    assert!(digests_match("", ""));
}

#[test]
fn package_digest_is_sha1_hex() {
    assert_eq!(package_digest(&b"abc".to_vec()), "a9993e364706816aba3e25717850c26c9cd0d89d");
    assert_eq!(package_digest(&Vec::new()), "da39a3ee5e6b4b0d3255bfef95601890afd80709");
}

#[test]
fn install_decision_table() {
    let local = "a9993e364706816aba3e25717850c26c9cd0d89d".to_string();
    assert_eq!(decide_install(&None, &local), InstallAction::Install);
    assert_eq!(decide_install(&Some("A9993E364706816ABA3E25717850C26C9CD0D89D".to_string()), &local), InstallAction::Keep);
    assert_eq!(decide_install(&Some("0000".to_string()), &local), InstallAction::Reinstall);
    let data = b"abc".to_vec();
    assert_eq!(package_install_action(&None, &data), InstallAction::Install);
    assert_eq!(package_install_action(&Some(local.clone()), &data), InstallAction::Keep);
    assert_eq!(package_install_action(&Some(local.clone()), &b"abd".to_vec()), InstallAction::Reinstall);
}

fn describe(c: &InstallCommand) -> String {
    match c {
        InstallCommand::Uninstall { package } => format!("uninstall {package}"),
        InstallCommand::Install { apk_path } => format!("install {apk_path}"),
        InstallCommand::GrantPermission { package, permission } => format!("grant {package} {permission}"),
    }
}

#[test]
fn install_commands_per_action() {
    let pkg = "alvr.client".to_string();
    let apk = "/res/client.apk".to_string();
    let perms = strings(&["android.permission.RECORD_AUDIO", "android.permission.CAMERA"]);
    let install: Vec<String> = install_commands(InstallAction::Install, &pkg, &apk, &perms).iter().map(describe).collect();
    assert_eq!(install, strings(&[
        "install /res/client.apk",
        "grant alvr.client android.permission.RECORD_AUDIO",
        "grant alvr.client android.permission.CAMERA",
    ]));
    let reinstall: Vec<String> = install_commands(InstallAction::Reinstall, &pkg, &apk, &perms).iter().map(describe).collect();
    assert_eq!(reinstall, strings(&[
        "uninstall alvr.client",
        "install /res/client.apk",
        "grant alvr.client android.permission.RECORD_AUDIO",
        "grant alvr.client android.permission.CAMERA",
    ]));
    assert!(install_commands(InstallAction::Keep, &pkg, &apk, &perms).is_empty());
    assert_eq!(install_commands(InstallAction::Install, &pkg, &apk, &Vec::new()).len(), 1);
}

#[test]
fn pre_launch_debounce() {
    let mut c = WiredConnection::new("adb".to_string());
    let serials = vec![Some("HEADSET".to_string())];
    c.select_device(&serials, 1000);
    assert_eq!(c.launch_decision(true, 1000), LaunchDecision::Wait(NotReadyReason::AwaitingPreLaunch));
    assert_eq!(c.launch_decision(true, 15999), LaunchDecision::Wait(NotReadyReason::AwaitingPreLaunch));
    assert_eq!(c.launch_decision(false, 20000), LaunchDecision::Wait(NotReadyReason::ClientNotRunning));
    assert_eq!(c.launch_decision(true, 16000), LaunchDecision::Launch);
    let s = c.mark_launched(16000);
    assert_eq!(message(&s).as_deref(), Some("Starting ALVR client"));
    assert_eq!(c.post_autolaunch_delay, Some(16000));
    assert_eq!(c.launch_decision(true, 17000), LaunchDecision::Wait(NotReadyReason::ClientNotRunning));
}

#[test]
fn post_launch_debounce() {
    let mut c = WiredConnection::new("adb".to_string());
    c.initial_autolaunch_delay = Some(0);
    c.post_autolaunch_delay = Some(16000);
    let s = c.running_status(false, 30000);
    assert_eq!(message(&s).as_deref(), Some("ALVR client is paused"));
    let s = c.running_status(true, 20999);
    assert_eq!(message(&s).as_deref(), Some("Awaiting post autolaunch delay"));
    assert_eq!(c.post_autolaunch_delay, Some(16000));
    let s = c.running_status(true, 21000);
    assert!(s.is_ready());
    assert_eq!(c.post_autolaunch_delay, None);
    assert_eq!(c.initial_autolaunch_delay, Some(0));
    assert!(c.running_status(true, 21001).is_ready());
}

#[test]
fn ready_when_everything_is_in_place() {
    let mut c = WiredConnection::new("adb".to_string());
    let device = c.select_device(&vec![Some("HEADSET".to_string())], 500).unwrap();
    assert_eq!(device, "HEADSET");
    assert!(missing_ports(9943, 9944, &vec![9943, 9944]).is_empty());
    let ids = get_application_ids(&ClientFlavor::Github, true);
    let data = b"abc".to_vec();
    let installed = Some("a9993e364706816aba3e25717850c26c9cd0d89d".to_string());
    let action = package_install_action(&installed, &data);
    assert!(install_commands(action, &ids[0], &"/x.apk".to_string(), &strings(&["p"])).is_empty());
    let name = get_process_name(&ids, &vec![true, false]).unwrap();
    assert_eq!(name, "alvr.client.stable");
    assert!(c.running_status(true, 600).is_ready());
}

#[test]
fn no_suitable_client_installed() {
    let mut c = WiredConnection::new("adb".to_string());
    assert!(c.select_device(&vec![Some("HEADSET".to_string())], 500).is_some());
    let ids = get_application_ids(&ClientFlavor::Store, true);
    assert_eq!(get_process_name(&ids, &vec![false, false]), None);
    let s = NotReadyReason::NoSuitableClient.status();
    assert_eq!(message(&s).as_deref(), Some("No suitable ALVR client is installed"));
    assert_eq!(c.initial_autolaunch_delay, Some(500));
}

#[test]
fn repeated_pass_is_stable() {
    let mut c = WiredConnection::new("adb".to_string());
    let serials = vec![Some("HEADSET".to_string())];
    c.select_device(&serials, 100);
    let forwarded = vec![9943];
    let missing = missing_ports(9943, 9944, &forwarded);
    assert_eq!(missing, vec![9944]);
    let mut after = forwarded.clone();
    after.extend(missing);
    assert!(missing_ports(9943, 9944, &after).is_empty());
    c.select_device(&serials, 200);
    assert_eq!(c.initial_autolaunch_delay, Some(100));
    let first = c.launch_decision(true, 300);
    let second = c.launch_decision(true, 300);
    assert_eq!(first, second);
    let local = package_digest(&b"apk".to_vec());
    assert_eq!(decide_install(&Some(local.clone()), &local), InstallAction::Keep);
}

#[test]
fn tcp_port_fields() {
    assert_eq!(parse_tcp_port("tcp:9943"), Some(9943));
    assert_eq!(parse_tcp_port("tcp:0"), Some(0));
    assert_eq!(parse_tcp_port("tcp:65535"), Some(65535));
    assert_eq!(parse_tcp_port("tcp:65536"), None);
    assert_eq!(parse_tcp_port("tcp:99999999999999999999"), None);
    assert_eq!(parse_tcp_port("tcp:"), None);
    assert_eq!(parse_tcp_port("tcp:12a"), None);
    assert_eq!(parse_tcp_port("udp:9943"), None);
    assert_eq!(parse_tcp_port("localabstract:x"), None);
    assert_eq!(parse_tcp_port(""), None);
}
