use vstd::prelude::*;
use vstd::string::StringExecFns;

use crate::text::same_text;

verus! {

/// The marker file whose presence means that a subsystem is installed.
pub open spec fn marker_of(name: Seq<char>) -> Option<Seq<char>> {
    if name == "zram-manager"@ {
        Some("/etc/systemd/system/zram.service"@)
    } else if name == "pacman-key-manager"@ {
        Some("/etc/systemd/system/pacman-key-manager.service"@)
    } else {
        None
    }
}

/// The marker file to probe for a subsystem; `None` for an unknown name,
/// which is never present.
pub fn marker_path(name: &str) -> (r: Option<String>)
    ensures
        r is None <==> marker_of(name@) is None,
        r is Some ==> r->Some_0@ == marker_of(name@)->Some_0,
{
    if same_text(name, "zram-manager") {
        Some(String::from_str("/etc/systemd/system/zram.service"))
    } else if same_text(name, "pacman-key-manager") {
        Some(String::from_str("/etc/systemd/system/pacman-key-manager.service"))
    } else {
        None
    }
}

/// Whether a subsystem counts as present, given its marker (if the name is
/// known) and whether that marker exists.
pub fn check_prog(marker: &Option<String>, marker_exists: bool) -> (r: bool)
    ensures
        r == (marker is Some && marker_exists),
{
    match marker {
        Some(_) => marker_exists,
        None => false,
    }
}

/// The helper program that a launcher mode opens.
pub open spec fn launcher_of(mode: Seq<char>) -> Option<Seq<char>> {
    if mode == "driver"@ {
        Some("enos-driver-manager"@)
    } else if mode == "pamac"@ {
        Some("pamac-manager"@)
    } else if mode == "rassist"@ {
        Some("enos-assistant-creator"@)
    } else if mode == "zapret"@ {
        Some("enos-zapret-manager"@)
    } else {
        None
    }
}

/// The helper program for a launcher mode; `None` for an unknown mode.
pub fn launcher_program(mode: &str) -> (r: Option<String>)
    ensures
        r is None <==> launcher_of(mode@) is None,
        r is Some ==> r->Some_0@ == launcher_of(mode@)->Some_0,
{
    if same_text(mode, "driver") {
        Some(String::from_str("enos-driver-manager"))
    } else if same_text(mode, "pamac") {
        Some(String::from_str("pamac-manager"))
    } else if same_text(mode, "rassist") {
        Some(String::from_str("enos-assistant-creator"))
    } else if same_text(mode, "zapret") {
        Some(String::from_str("enos-zapret-manager"))
    } else {
        None
    }
}

/// The reply for a launcher mode that names no program.
pub const UNKNOWN_MODE_REPLY: &'static str = "Что то тут не так..";

/// The reply to a launch, given whether the program could be started.
pub fn launch_reply(started: Result<(), String>) -> (r: String)
    ensures
        started is Ok ==> r@ == "OK"@,
        started is Err ==> r@ == "Ошибка "@ + started->Err_0@,
{
    match started {
        Ok(()) => String::from_str("OK"),
        Err(e) => String::from_str("Ошибка ").concat(e.as_str()),
    }
}

} // verus!
