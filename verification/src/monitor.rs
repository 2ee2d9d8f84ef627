//! Forbidden-process monitor: the compiled-in denylist, the
//! case-insensitive substring detector, and the summaries the two
//! monitor endpoints report.
//!
//! The host enumerates the process table and performs the kills; the
//! names and outcomes come back here as plain values.

use vstd::prelude::*;
use crate::types::Platform;
use crate::text::{
    contains_seq, has_str, insert_sorted_unique, lower_of, name_matches, sorted_unique,
};

verus! {

/// The cross-platform part of the default denylist.
pub open spec fn cross_platform_denylist() -> Seq<Seq<char>> {
    seq![
        "Code.exe"@,
        "code"@,
        "devenv.exe"@,
        "devenv"@,
        "idea64.exe"@,
        "idea"@,
        "IntelliJ IDEA"@,
        "PyCharm"@,
        "pycharm"@,
        "eclipse"@,
        "Eclipse"@,
        "atom"@,
        "Atom"@,
        "sublime_text"@,
        "Sublime Text"@,
        "notepad++.exe"@,
        "Notepad++"@,
        "vim"@,
        "nvim"@,
        "emacs"@,
        "AutoHotkey.exe"@,
        "autohotkey"@,
        "obs64.exe"@,
        "obs"@,
        "OBS Studio"@,
        "PowerToys.exe"@,
        "PowerToys"@,
        "ollama"@,
        "Ollama"@,
        "docker"@,
        "Docker Desktop"@,
        "virtualbox"@,
        "VirtualBox"@,
        "vmware"@,
        "VMware"@,
        "wireshark"@,
        "Wireshark"@,
        "fiddler"@,
        "Fiddler"@,
        "burp"@,
        "Burp Suite"@,
        "ida"@,
        "IDA Pro"@,
        "ghidra"@,
        "Ghidra"@,
        "x64dbg"@,
        "x32dbg"@,
        "ollydbg"@,
        "OllyDbg"@,
        "cheat engine"@,
        "Cheat Engine"@,
        "process hacker"@,
        "Process Hacker"@,
        "process monitor"@,
        "Process Monitor"@,
        "autoruns"@,
        "Autoruns"@,
        "regshot"@,
        "Regshot"@,
    ]
}

/// The platform-specific additions to the default denylist.
pub open spec fn platform_denylist(platform: Platform) -> Seq<Seq<char>> {
    match platform {
        Platform::Windows => seq![
            "copilot.exe"@,
            "Copilot"@,
            "mstsc.exe"@,
            "TeamViewer.exe"@,
            "anydesk.exe"@,
            "chrome_remote_desktop_host.exe"@,
            "LogMeIn.exe"@,
            "ammyy.exe"@,
            "radmin.exe"@,
            "dwservice.exe"@,
            "supremo.exe"@,
            "ultraviewer.exe"@,
            "wsl.exe"@,
            "Windows Subsystem for Linux"@,
        ],
        Platform::MacOs => seq![
            "Screen Sharing"@,
            "Remote Desktop Scanner"@,
            "Apple Remote Desktop"@,
            "TeamViewer"@,
            "AnyDesk"@,
            "LogMeIn"@,
            "Splashtop Business"@,
            "Chrome Remote Desktop"@,
            "VNC Viewer"@,
            "Jump Desktop"@,
            "Microsoft Remote Desktop"@,
            "Parallels Desktop"@,
            "VMware Fusion"@,
            "UTM"@,
        ],
        Platform::Linux => seq![
            "teamviewer"@,
            "anydesk"@,
            "remmina"@,
            "vinagre"@,
            "krdc"@,
            "xfreerdp"@,
            "rdesktop"@,
            "vnc"@,
            "x11vnc"@,
            "tightvnc"@,
            "tigervnc"@,
            "chrome-remote-desktop"@,
            "nomachine"@,
            "realvnc"@,
            "ultravnc"@,
            "qemu"@,
            "virtualbox"@,
            "vmware"@,
            "kvm"@,
            "gnome-boxes"@,
        ],
        Platform::Unknown => Seq::empty(),
    }
}

/// The whole default denylist for a platform.
pub open spec fn default_denylist(platform: Platform) -> Seq<Seq<char>> {
    cross_platform_denylist() + platform_denylist(platform)
}

/// The cross-platform denylist entries, in their fixed order.
fn cross_platform_names() -> (r: Vec<String>)
    ensures
        r@.len() == cross_platform_denylist().len(),
        forall|i: int|
            0 <= i < r@.len() ==> (#[trigger] r@[i])@ == cross_platform_denylist()[i],
{
    let mut v: Vec<String> = Vec::new();
    v.push("Code.exe".to_owned());
    v.push("code".to_owned());
    v.push("devenv.exe".to_owned());
    v.push("devenv".to_owned());
    v.push("idea64.exe".to_owned());
    v.push("idea".to_owned());
    v.push("IntelliJ IDEA".to_owned());
    v.push("PyCharm".to_owned());
    v.push("pycharm".to_owned());
    v.push("eclipse".to_owned());
    v.push("Eclipse".to_owned());
    v.push("atom".to_owned());
    v.push("Atom".to_owned());
    v.push("sublime_text".to_owned());
    v.push("Sublime Text".to_owned());
    v.push("notepad++.exe".to_owned());
    v.push("Notepad++".to_owned());
    v.push("vim".to_owned());
    v.push("nvim".to_owned());
    v.push("emacs".to_owned());
    v.push("AutoHotkey.exe".to_owned());
    v.push("autohotkey".to_owned());
    v.push("obs64.exe".to_owned());
    v.push("obs".to_owned());
    v.push("OBS Studio".to_owned());
    v.push("PowerToys.exe".to_owned());
    v.push("PowerToys".to_owned());
    v.push("ollama".to_owned());
    v.push("Ollama".to_owned());
    v.push("docker".to_owned());
    v.push("Docker Desktop".to_owned());
    v.push("virtualbox".to_owned());
    v.push("VirtualBox".to_owned());
    v.push("vmware".to_owned());
    v.push("VMware".to_owned());
    v.push("wireshark".to_owned());
    v.push("Wireshark".to_owned());
    v.push("fiddler".to_owned());
    v.push("Fiddler".to_owned());
    v.push("burp".to_owned());
    v.push("Burp Suite".to_owned());
    v.push("ida".to_owned());
    v.push("IDA Pro".to_owned());
    v.push("ghidra".to_owned());
    v.push("Ghidra".to_owned());
    v.push("x64dbg".to_owned());
    v.push("x32dbg".to_owned());
    v.push("ollydbg".to_owned());
    v.push("OllyDbg".to_owned());
    v.push("cheat engine".to_owned());
    v.push("Cheat Engine".to_owned());
    v.push("process hacker".to_owned());
    v.push("Process Hacker".to_owned());
    v.push("process monitor".to_owned());
    v.push("Process Monitor".to_owned());
    v.push("autoruns".to_owned());
    v.push("Autoruns".to_owned());
    v.push("regshot".to_owned());
    v.push("Regshot".to_owned());
    v
}

/// The platform-specific denylist entries, in their fixed order.
fn platform_names(platform: Platform) -> (r: Vec<String>)
    ensures
        r@.len() == platform_denylist(platform).len(),
        forall|i: int|
            0 <= i < r@.len() ==> (#[trigger] r@[i])@ == platform_denylist(platform)[i],
{
    let mut v: Vec<String> = Vec::new();
    match platform {
        Platform::Windows => {
            v.push("copilot.exe".to_owned());
            v.push("Copilot".to_owned());
            v.push("mstsc.exe".to_owned());
            v.push("TeamViewer.exe".to_owned());
            v.push("anydesk.exe".to_owned());
            v.push("chrome_remote_desktop_host.exe".to_owned());
            v.push("LogMeIn.exe".to_owned());
            v.push("ammyy.exe".to_owned());
            v.push("radmin.exe".to_owned());
            v.push("dwservice.exe".to_owned());
            v.push("supremo.exe".to_owned());
            v.push("ultraviewer.exe".to_owned());
            v.push("wsl.exe".to_owned());
            v.push("Windows Subsystem for Linux".to_owned());
        },
        Platform::MacOs => {
            v.push("Screen Sharing".to_owned());
            v.push("Remote Desktop Scanner".to_owned());
            v.push("Apple Remote Desktop".to_owned());
            v.push("TeamViewer".to_owned());
            v.push("AnyDesk".to_owned());
            v.push("LogMeIn".to_owned());
            v.push("Splashtop Business".to_owned());
            v.push("Chrome Remote Desktop".to_owned());
            v.push("VNC Viewer".to_owned());
            v.push("Jump Desktop".to_owned());
            v.push("Microsoft Remote Desktop".to_owned());
            v.push("Parallels Desktop".to_owned());
            v.push("VMware Fusion".to_owned());
            v.push("UTM".to_owned());
        },
        Platform::Linux => {
            v.push("teamviewer".to_owned());
            v.push("anydesk".to_owned());
            v.push("remmina".to_owned());
            v.push("vinagre".to_owned());
            v.push("krdc".to_owned());
            v.push("xfreerdp".to_owned());
            v.push("rdesktop".to_owned());
            v.push("vnc".to_owned());
            v.push("x11vnc".to_owned());
            v.push("tightvnc".to_owned());
            v.push("tigervnc".to_owned());
            v.push("chrome-remote-desktop".to_owned());
            v.push("nomachine".to_owned());
            v.push("realvnc".to_owned());
            v.push("ultravnc".to_owned());
            v.push("qemu".to_owned());
            v.push("virtualbox".to_owned());
            v.push("vmware".to_owned());
            v.push("kvm".to_owned());
            v.push("gnome-boxes".to_owned());
        },
        Platform::Unknown => {},
    }
    v
}

/// The compiled-in denylist for the given platform: the
/// cross-platform entries followed by the platform's own.
pub fn get_default_forbidden_list(platform: Platform) -> (r: Vec<String>)
    ensures
        r@.len() == default_denylist(platform).len(),
        forall|i: int| 0 <= i < r@.len() ==> (#[trigger] r@[i])@ == default_denylist(platform)[i],
{
    let mut v = cross_platform_names();
    let mut extra = platform_names(platform);
    v.append(&mut extra);
    v
}

/// A name trips the denylist when its lowercase form contains the
/// lowercase form of some pattern.
pub open spec fn is_forbidden_name(name: Seq<char>, patterns: Seq<String>) -> bool {
    exists|k: int|
        0 <= k < patterns.len() && contains_seq(lower_of(name), lower_of(#[trigger] patterns[k]@))
}

/// Whether some pattern in the list matches the name,
/// case-insensitively by substring.
pub fn matches_forbidden_list(name: &str, patterns: &Vec<String>) -> (r: bool)
    ensures
        r == is_forbidden_name(name@, patterns@),
{
    let mut j: usize = 0;
    let mut matched = false;
    while j < patterns.len()
        invariant
            j <= patterns.len(),
            matched == exists|k: int|
                0 <= k < j && contains_seq(lower_of(name@), lower_of(#[trigger] patterns@[k]@)),
        decreases patterns.len() - j,
    {
        if name_matches(name, patterns[j].as_str()) {
            matched = true;
        }
        j = j + 1;
    }
    matched
}

/// Detection: every candidate process name that trips the denylist,
/// deduplicated and sorted.
pub fn detect_forbidden_processes(forbidden_list: &Vec<String>, candidates: &Vec<String>) -> (r:
    Vec<String>)
    ensures
        sorted_unique(r@),
        forall|t: Seq<char>|
            has_str(r@, t) <==> (has_str(candidates@, t) && is_forbidden_name(t, forbidden_list@)),
{
    let mut out: Vec<String> = Vec::new();
    let mut i: usize = 0;
    while i < candidates.len()
        invariant
            i <= candidates.len(),
            sorted_unique(out@),
            forall|t: Seq<char>|
                has_str(out@, t) <==> (exists|k: int|
                    0 <= k < i && (#[trigger] candidates@[k])@ == t) && is_forbidden_name(
                    t,
                    forbidden_list@,
                ),
        decreases candidates.len() - i,
    {
        let name = &candidates[i];
        if matches_forbidden_list(name.as_str(), forbidden_list) {
            insert_sorted_unique(&mut out, name.clone());
        }
        i = i + 1;
    }
    out
}

/// One process from the host's process table.
#[derive(Debug)]
pub struct ProcessRecord {
    pub pid: u32,
    pub name: String,
}

impl Clone for ProcessRecord {
    fn clone(&self) -> (r: Self)
        ensures
            r == *self,
    {
        ProcessRecord { pid: self.pid, name: self.name.clone() }
    }
}

/// Termination selection: the processes whose names trip the
/// denylist, in process-table order.  The host attempts to kill
/// exactly these.
pub fn select_termination_targets(forbidden_list: &Vec<String>, processes: &Vec<ProcessRecord>)
    -> (r: Vec<ProcessRecord>)
    ensures
        r@ == processes@.filter(
            |p: ProcessRecord| is_forbidden_name(p.name@, forbidden_list@),
        ),
{
    let ghost pred = |p: ProcessRecord| is_forbidden_name(p.name@, forbidden_list@);
    let mut out: Vec<ProcessRecord> = Vec::new();
    let mut i: usize = 0;
    while i < processes.len()
        invariant
            i <= processes.len(),
            out@ == processes@.take(i as int).filter(
                |p: ProcessRecord| is_forbidden_name(p.name@, forbidden_list@),
            ),
        decreases processes.len() - i,
    {
        proof {
            reveal(Seq::filter);
            assert(processes@.take(i + 1).drop_last() =~= processes@.take(i as int));
            assert(processes@.take(i + 1).last() == processes@[i as int]);
        }
        let p = &processes[i];
        if matches_forbidden_list(p.name.as_str(), forbidden_list) {
            out.push(p.clone());
            proof {
                assert(p.name == processes@[i as int].name);
            }
        }
        i = i + 1;
    }
    proof {
        assert(processes@.take(processes@.len() as int) =~= processes@);
    }
    out
}

/// The outcome of one kill attempt, as the host observed it.
#[derive(Debug, Clone)]
pub struct TerminationOutcome {
    pub name: String,
    pub killed: bool,
}

/// The names of the processes that survived their kill attempt,
/// deduplicated and sorted, for the monitor's report.
pub fn collect_failed_terminations(outcomes: &Vec<TerminationOutcome>) -> (r: Vec<String>)
    ensures
        sorted_unique(r@),
        forall|t: Seq<char>|
            has_str(r@, t) <==> exists|k: int|
                0 <= k < outcomes@.len() && (#[trigger] outcomes@[k]).name@ == t
                    && !outcomes@[k].killed,
{
    let mut out: Vec<String> = Vec::new();
    let mut i: usize = 0;
    while i < outcomes.len()
        invariant
            i <= outcomes.len(),
            sorted_unique(out@),
            forall|t: Seq<char>|
                has_str(out@, t) <==> exists|k: int|
                    0 <= k < i && (#[trigger] outcomes@[k]).name@ == t && !outcomes@[k].killed,
        decreases outcomes.len() - i,
    {
        if !outcomes[i].killed {
            insert_sorted_unique(&mut out, outcomes[i].name.clone());
        }
        i = i + 1;
    }
    out
}

/// The platform-specific set of processes owning top-most windows.
/// Only one platform has such a notion; on every platform this build
/// targets, the set is empty.
pub fn enumerate_topmost_processes() -> (r: Vec<String>)
    ensures
        r@.len() == 0,
{
    Vec::new()
}

/// Body of the monitor's status report; the host adds the wire
/// framing.
#[derive(Debug, Clone)]
pub struct StatusResponse {
    pub timestamp: String,
    pub forbidden_processes: Vec<String>,
    pub platform: String,
}

/// Query parameters of the two monitor endpoints.
#[derive(Debug, Clone)]
pub struct StatusQuery {
    pub include_topmost: bool,
}

/// Body of the monitor's termination report.
#[derive(Debug, Clone)]
pub struct ProcessesResponse {
    pub timestamp: String,
    pub failed_to_terminate: Vec<String>,
    pub platform: String,
}

/// Body of the version report.
#[derive(Debug, Clone)]
pub struct VersionResponse {
    pub version: String,
}

} // verus!
