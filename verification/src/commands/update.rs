//! Choosing the release that fits the platform.

use vstd::prelude::*;
use crate::text::same_text;

verus! {

/// The name of the program's file and the target of its release for an
/// operating system and an architecture, or why there is none.
pub open spec fn platform_release(os: Seq<char>, arch: Seq<char>) -> Result<
    (Seq<char>, Seq<char>),
    Seq<char>,
> {
    let bin_name = if os == "windows"@ {
        "x.exe"@
    } else {
        "x"@
    };
    if os == "windows"@ && arch == "x86_64"@ {
        Ok((bin_name, "x86_64-pc-windows-msvc"@))
    } else if os == "linux"@ && arch == "x86_64"@ {
        Ok((bin_name, "x86_64-unknown-linux-gnu"@))
    } else if os == "linux"@ && arch == "aarch64"@ {
        Ok((bin_name, "aarch64-unknown-linux-gnu"@))
    } else if os == "macos"@ && arch == "x86_64"@ {
        Ok((bin_name, "x86_64-apple-darwin"@))
    } else if os == "macos"@ && arch == "aarch64"@ {
        Ok((bin_name, "aarch64-apple-darwin"@))
    } else {
        Err("Automatic updates are not yet supported on this platform."@)
    }
}

/// The name of the program's file and the target of its release on the
/// platform named by `os` and `arch`.
pub fn platform_binaries(os: &str, arch: &str) -> (r: Result<
    (&'static str, &'static str),
    &'static str,
>)
    ensures
        match r {
            Ok((bin_name, target)) => platform_release(os@, arch@) == Ok::<
                (Seq<char>, Seq<char>),
                Seq<char>,
            >((bin_name@, target@)),
            Err(why) => platform_release(os@, arch@) == Err::<(Seq<char>, Seq<char>), Seq<char>>(
                why@,
            ),
        },
{
    let windows = same_text(os, "windows");
    let linux = same_text(os, "linux");
    let macos = same_text(os, "macos");
    let x86_64 = same_text(arch, "x86_64");
    let aarch64 = same_text(arch, "aarch64");
    let target = if windows && x86_64 {
        "x86_64-pc-windows-msvc"
    } else if linux && x86_64 {
        "x86_64-unknown-linux-gnu"
    } else if linux && aarch64 {
        "aarch64-unknown-linux-gnu"
    } else if macos && x86_64 {
        "x86_64-apple-darwin"
    } else if macos && aarch64 {
        "aarch64-apple-darwin"
    } else {
        return Err("Automatic updates are not yet supported on this platform.");
    };
    let bin_name = if windows {
        "x.exe"
    } else {
        "x"
    };
    Ok((bin_name, target))
}

} // verus!
