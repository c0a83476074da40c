use local_sent_bridge::errors::BridgeError;
use local_sent_bridge::launcher::bundled_cli_binary_name_candidates;
use local_sent_bridge::launcher::bundled_cli_binary_path;
use local_sent_bridge::launcher::host_release_binary_name;
use local_sent_bridge::launcher::node_cli_script_path;
use local_sent_bridge::launcher::release_cli_binary_path;
use local_sent_bridge::launcher::HostArch;
use local_sent_bridge::launcher::HostOs;

#[test]
fn linux_candidates_start_with_plain_name() {
    let names = bundled_cli_binary_name_candidates(HostOs::Linux);
    assert_eq!(names.len(), 5);
    assert_eq!(names[0], "local_sent_cli");
    assert_eq!(names[1], "local_sent_cli-x86_64-unknown-linux-gnu");
}

#[test]
fn windows_candidates_use_exe_suffix() {
    let names = bundled_cli_binary_name_candidates(HostOs::Windows);
    assert_eq!(names.len(), 3);
    assert_eq!(names[0], "local_sent_cli.exe");
}

#[test]
fn unknown_platform_has_one_candidate() {
    let names = bundled_cli_binary_name_candidates(HostOs::OtherOs);
    assert_eq!(names, vec!["local_sent_cli"]);
}

#[test]
fn release_names_follow_platform_and_arch() {
    assert_eq!(host_release_binary_name(HostOs::MacOs, HostArch::Arm64), "local_sent-macos-arm64");
    assert_eq!(host_release_binary_name(HostOs::Windows, HostArch::X64), "local_sent-win-x64.exe");
    assert_eq!(host_release_binary_name(HostOs::Linux, HostArch::Arm64), "local_sent-linux-arm64");
    assert_eq!(host_release_binary_name(HostOs::OtherOs, HostArch::X64), "local_sent");
}

#[test]
fn first_existing_candidate_is_picked() {
    assert_eq!(bundled_cli_binary_path(&vec![false, true, true]), Some(1));
    assert_eq!(bundled_cli_binary_path(&vec![true, false]), Some(0));
    assert_eq!(bundled_cli_binary_path(&vec![false, false]), None);
    assert_eq!(bundled_cli_binary_path(&Vec::new()), None);
}

#[test]
fn release_path_is_joined_from_root() {
    let path = release_cli_binary_path("/repo", HostOs::Linux, HostArch::X64, true);
    assert_eq!(path.as_deref(), Some("/repo/release/local_sent-linux-x64"));
    assert_eq!(release_cli_binary_path("/repo", HostOs::Linux, HostArch::X64, false), None);
}

#[test]
fn node_script_path_requires_the_build() {
    assert_eq!(node_cli_script_path("/repo", true).as_deref().ok(), Some("/repo/dist/cli.js"));
    assert_eq!(node_cli_script_path("/repo", false), Err(BridgeError::MissingWorker));
}
