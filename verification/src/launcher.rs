//! Platform tables for locating the worker executable.
//!
//! Probing the file system and reading the environment happen outside the
//! library; these functions fix which binary names are tried, in which
//! order, and how the candidate paths are assembled from the probe results.

use vstd::prelude::*;
use vstd::string::StringExecFns;

use crate::errors::BridgeError;

verus! {

/// The operating system the desktop build targets.
#[derive(Debug, Clone, Copy, PartialEq, Eq, Structural)]
pub enum HostOs {
    Windows,
    Linux,
    MacOs,
    OtherOs,
}

/// The processor architecture the desktop build targets.
#[derive(Debug, Clone, Copy, PartialEq, Eq, Structural)]
pub enum HostArch {
    X64,
    Arm64,
    OtherArch,
}

/// The views of a list of string slices.
pub open spec fn str_views(v: Seq<&'static str>) -> Seq<Seq<char>> {
    v.map_values(|s: &'static str| s@)
}

/// The bundled worker binary names tried on each platform, in order.
pub open spec fn bundled_candidates_spec(os: HostOs) -> Seq<Seq<char>> {
    match os {
        HostOs::Windows => seq![
            "local_sent_cli.exe"@,
            "local_sent_cli-x86_64-pc-windows-msvc.exe"@,
            "local_sent_cli-aarch64-pc-windows-msvc.exe"@,
        ],
        HostOs::Linux => seq![
            "local_sent_cli"@,
            "local_sent_cli-x86_64-unknown-linux-gnu"@,
            "local_sent_cli-aarch64-unknown-linux-gnu"@,
            "local_sent_cli-x86_64-unknown-linux-musl"@,
            "local_sent_cli-aarch64-unknown-linux-musl"@,
        ],
        HostOs::MacOs => seq![
            "local_sent_cli"@,
            "local_sent_cli-aarch64-apple-darwin"@,
            "local_sent_cli-x86_64-apple-darwin"@,
        ],
        HostOs::OtherOs => seq!["local_sent_cli"@],
    }
}

/// The bundled worker binary names tried on the given platform, in order.
pub fn bundled_cli_binary_name_candidates(os: HostOs) -> (r: Vec<&'static str>)
    ensures
        str_views(r@) == bundled_candidates_spec(os),
{
    let mut v: Vec<&'static str> = Vec::new();
    match os {
        HostOs::Windows => {
            v.push("local_sent_cli.exe");
            v.push("local_sent_cli-x86_64-pc-windows-msvc.exe");
            v.push("local_sent_cli-aarch64-pc-windows-msvc.exe");
        },
        HostOs::Linux => {
            v.push("local_sent_cli");
            v.push("local_sent_cli-x86_64-unknown-linux-gnu");
            v.push("local_sent_cli-aarch64-unknown-linux-gnu");
            v.push("local_sent_cli-x86_64-unknown-linux-musl");
            v.push("local_sent_cli-aarch64-unknown-linux-musl");
        },
        HostOs::MacOs => {
            v.push("local_sent_cli");
            v.push("local_sent_cli-aarch64-apple-darwin");
            v.push("local_sent_cli-x86_64-apple-darwin");
        },
        HostOs::OtherOs => {
            v.push("local_sent_cli");
        },
    }
    assert(str_views(v@) =~= bundled_candidates_spec(os));
    v
}

/// The release build's binary name for each platform.
pub open spec fn host_release_name_spec(os: HostOs, arch: HostArch) -> Seq<char> {
    if os == HostOs::MacOs && arch == HostArch::Arm64 {
        "local_sent-macos-arm64"@
    } else if os == HostOs::MacOs && arch == HostArch::X64 {
        "local_sent-macos-x64"@
    } else if os == HostOs::Windows && arch == HostArch::X64 {
        "local_sent-win-x64.exe"@
    } else if os == HostOs::Windows && arch == HostArch::Arm64 {
        "local_sent-win-arm64.exe"@
    } else if os == HostOs::Linux && arch == HostArch::X64 {
        "local_sent-linux-x64"@
    } else if os == HostOs::Linux && arch == HostArch::Arm64 {
        "local_sent-linux-arm64"@
    } else {
        "local_sent"@
    }
}

/// The release build's binary name on the given platform.
pub fn host_release_binary_name(os: HostOs, arch: HostArch) -> (r: &'static str)
    ensures
        r@ == host_release_name_spec(os, arch),
{
    if os == HostOs::MacOs && arch == HostArch::Arm64 {
        "local_sent-macos-arm64"
    } else if os == HostOs::MacOs && arch == HostArch::X64 {
        "local_sent-macos-x64"
    } else if os == HostOs::Windows && arch == HostArch::X64 {
        "local_sent-win-x64.exe"
    } else if os == HostOs::Windows && arch == HostArch::Arm64 {
        "local_sent-win-arm64.exe"
    } else if os == HostOs::Linux && arch == HostArch::X64 {
        "local_sent-linux-x64"
    } else if os == HostOs::Linux && arch == HostArch::Arm64 {
        "local_sent-linux-arm64"
    } else {
        "local_sent"
    }
}

/// Picks the first candidate the file-system probe found, by index into the
/// candidate list; the probing itself happens outside the library.
pub fn bundled_cli_binary_path(exists: &Vec<bool>) -> (r: Option<usize>)
    ensures
        r matches Some(ix) ==> ix < exists@.len() && exists@[ix as int] && (forall|m: int|
            0 <= m < ix ==> !exists@[m]),
        r is None ==> forall|m: int| 0 <= m < exists@.len() ==> !exists@[m],
{
    let mut k: usize = 0;
    while k < exists.len()
        invariant
            k <= exists@.len(),
            forall|m: int| 0 <= m < k ==> !exists@[m],
        decreases exists@.len() - k,
    {
        if exists[k] {
            return Some(k);
        }
        k = k + 1;
    }
    None
}

/// The path of the release build of the worker, `<root>/release/<name>`,
/// when the probe found it there.
pub fn release_cli_binary_path(root: &str, os: HostOs, arch: HostArch, exists: bool) -> (r: Option<
    String,
>)
    ensures
        exists ==> (r matches Some(p) && p@ == root@ + "/release/"@ + host_release_name_spec(
            os,
            arch,
        )),
        !exists ==> r is None,
{
    if exists {
        let mut p = String::from_str(root);
        p.append("/release/");
        p.append(host_release_binary_name(os, arch));
        Some(p)
    } else {
        None
    }
}

/// The path of the built worker script, `<root>/dist/cli.js`, when the probe
/// found it; the missing-worker failure otherwise.
pub fn node_cli_script_path(root: &str, exists: bool) -> (r: Result<String, BridgeError>)
    ensures
        exists ==> (r matches Ok(p) && p@ == root@ + "/dist/cli.js"@),
        !exists ==> r == Err::<String, BridgeError>(BridgeError::MissingWorker),
{
    if exists {
        let mut p = String::from_str(root);
        p.append("/dist/cli.js");
        Ok(p)
    } else {
        Err(BridgeError::MissingWorker)
    }
}

} // verus!
