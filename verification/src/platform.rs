//! The operating systems that the tools are packaged for, and the names under
//! which the tools are found on each.

use crate::text::{lowercase, to_lowercase};
use vstd::prelude::*;

verus! {

/// An operating system for which the tools are packaged.
#[derive(Clone, Copy, PartialEq, Eq, Structural, Debug)]
pub enum OS {
    Windows,
    Linux,
    Macos,
}

/// The operating system that goes by `name`, where it is one of the three.
pub open spec fn os_named(name: Seq<char>) -> Option<OS> {
    if name == "windows"@ {
        Some(OS::Windows)
    } else if name == "linux"@ {
        Some(OS::Linux)
    } else if name == "macos"@ {
        Some(OS::Macos)
    } else {
        None
    }
}

/// The operating system that goes by `name`, as a build target names it.
pub fn os_from_name(name: &str) -> (os: Option<OS>)
    ensures
        os == os_named(name@),
{
    if *name == *"windows" {
        Some(OS::Windows)
    } else if *name == *"linux" {
        Some(OS::Linux)
    } else if *name == *"macos" {
        Some(OS::Macos)
    } else {
        None
    }
}

/// The operating system whose executables end in the extension that `lowered`
/// is the lower-case form of.
pub open spec fn os_of_extension(lowered: Seq<char>) -> Option<OS> {
    if lowered == "exe"@ {
        Some(OS::Windows)
    } else if lowered == "appimage"@ {
        Some(OS::Linux)
    } else if lowered == "app"@ {
        Some(OS::Macos)
    } else {
        None
    }
}

/// The operating system whose executables end in `lowered`, an extension in
/// lower case.
pub fn os_from_lowered_extension(lowered: &str) -> (os: Option<OS>)
    ensures
        os == os_of_extension(lowered@),
{
    if *lowered == *"exe" {
        Some(OS::Windows)
    } else if *lowered == *"appimage" {
        Some(OS::Linux)
    } else if *lowered == *"app" {
        Some(OS::Macos)
    } else {
        None
    }
}

/// The operating system that an emulator executable is built for, told by the
/// extension of its file name, whatever its case.
pub fn os_from_extension(extension: &str) -> (os: Option<OS>)
    ensures
        os == os_of_extension(lowercase(extension@)),
{
    let lowered = to_lowercase(extension);
    os_from_lowered_extension(lowered.as_str())
}

/// File name of the sync tool on `os`.
pub open spec fn sync_tool(os: OS) -> Seq<char> {
    match os {
        OS::Windows => "rclone-win.exe"@,
        OS::Linux => "rclone-linux.exe"@,
        OS::Macos => "rclone-mac.exe"@,
    }
}

/// File name of the sync tool on `os`.
pub fn sync_tool_name(os: OS) -> (name: &'static str)
    ensures
        name@ == sync_tool(os),
{
    match os {
        OS::Windows => "rclone-win.exe",
        OS::Linux => "rclone-linux.exe",
        OS::Macos => "rclone-mac.exe",
    }
}

/// Where the sync tool lies below the application's data directory.
pub fn sync_tool_path(os: OS) -> (path: String)
    ensures
        path@ == "tools/rclone/"@ + sync_tool(os),
{
    let mut path = String::from_str("tools/rclone/");
    path.append(sync_tool_name(os));
    path
}

/// File name of the tool that reads a game's parameter file on `os`; there is
/// none for macOS.
pub fn sfo_tool_name(os: OS) -> (name: Option<&'static str>)
    ensures
        name matches Some(n) ==> n@ == (if os == OS::Windows {
            "sfo.exe"@
        } else {
            "sfo"@
        }),
        name is None <==> os == OS::Macos,
{
    match os {
        OS::Windows => Some("sfo.exe"),
        OS::Linux => Some("sfo"),
        OS::Macos => None,
    }
}

/// Whether an emulator that does not run yet is taken for valid, told from
/// what starting it brought: on Windows it answers when asked for its
/// version; on Linux it could also be made executable; on macOS it is never
/// taken for valid.
pub fn probes_valid(os: OS, made_executable: bool, answers_version: bool) -> (valid: bool)
    ensures
        valid == match os {
            OS::Windows => answers_version,
            OS::Linux => made_executable && answers_version,
            OS::Macos => false,
        },
{
    match os {
        OS::Windows => answers_version,
        OS::Linux => made_executable && answers_version,
        OS::Macos => false,
    }
}

} // verus!
