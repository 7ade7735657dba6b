//! The platform and architecture names of Electron's release assets.

use vstd::prelude::*;
use vstd::string::*;
use crate::error::ElectronError;
use crate::text::same_text;

verus! {

/// An operating system that Electron is built for.
#[derive(Clone, Copy, Debug, PartialEq, Eq, Structural)]
pub enum Platform {
    Win32,
    Darwin,
    Linux,
}

/// A CPU architecture that Electron is built for.
#[derive(Clone, Copy, Debug, PartialEq, Eq, Structural)]
pub enum Arch {
    Ia32,
    X64,
    Arm64,
}

/// The platform and architecture that a release asset is built for.
#[derive(Clone, Copy, Debug, PartialEq, Eq, Structural)]
pub struct TargetDescriptor {
    pub platform: Platform,
    pub arch: Arch,
}

/// The platform that Rust's name for an operating system stands for.
pub open spec fn platform_of(os: Seq<char>) -> Option<Platform> {
    if os == "windows"@ {
        Some(Platform::Win32)
    } else if os == "macos"@ {
        Some(Platform::Darwin)
    } else if os == "linux"@ {
        Some(Platform::Linux)
    } else {
        None
    }
}

/// The architecture that Rust's name for a CPU architecture stands for.
pub open spec fn arch_of(arch: Seq<char>) -> Option<Arch> {
    if arch == "x86"@ {
        Some(Arch::Ia32)
    } else if arch == "x86_64"@ {
        Some(Arch::X64)
    } else if arch == "aarch64"@ {
        Some(Arch::Arm64)
    } else {
        None
    }
}

pub open spec fn platform_name(p: Platform) -> Seq<char> {
    match p {
        Platform::Win32 => "win32"@,
        Platform::Darwin => "darwin"@,
        Platform::Linux => "linux"@,
    }
}

pub open spec fn arch_name(a: Arch) -> Seq<char> {
    match a {
        Arch::Ia32 => "ia32"@,
        Arch::X64 => "x64"@,
        Arch::Arm64 => "arm64"@,
    }
}

/// Where the executable lies inside an extracted build for platform `p`.
pub open spec fn exe_relative_path(p: Platform) -> Seq<char> {
    match p {
        Platform::Win32 => "electron.exe"@,
        Platform::Darwin => "Electron.app/Contents/MacOS/Electron"@,
        Platform::Linux => "electron"@,
    }
}

impl Platform {
    /// The platform's name in release asset names.
    pub fn name(&self) -> (r: &'static str)
        ensures
            r@ == platform_name(*self),
    {
        proof { reveal_strlit("win32"); reveal_strlit("darwin"); reveal_strlit("linux"); }
        match self {
            Platform::Win32 => "win32",
            Platform::Darwin => "darwin",
            Platform::Linux => "linux",
        }
    }

    /// Where the executable lies inside an extracted build.
    pub fn exe_name(&self) -> (r: &'static str)
        ensures
            r@ == exe_relative_path(*self),
    {
        proof {
            reveal_strlit("electron.exe");
            reveal_strlit("Electron.app/Contents/MacOS/Electron");
            reveal_strlit("electron");
        }
        match self {
            Platform::Win32 => "electron.exe",
            Platform::Darwin => "Electron.app/Contents/MacOS/Electron",
            Platform::Linux => "electron",
        }
    }
}

impl Arch {
    /// The architecture's name in release asset names.
    pub fn name(&self) -> (r: &'static str)
        ensures
            r@ == arch_name(*self),
    {
        proof { reveal_strlit("ia32"); reveal_strlit("x64"); reveal_strlit("arm64"); }
        match self {
            Arch::Ia32 => "ia32",
            Arch::X64 => "x64",
            Arch::Arm64 => "arm64",
        }
    }
}

impl TargetDescriptor {
    /// The target for a host, given Rust's names for its operating system and
    /// CPU architecture (`std::env::consts::OS` and `ARCH`). Anything outside
    /// the supported set is an error, never a fallback; the operating system is
    /// checked first.
    pub fn from_host(os: &str, arch: &str) -> (r: Result<TargetDescriptor, ElectronError>)
        ensures
            platform_of(os@) is None ==> (r matches Err(ElectronError::UnsupportedPlatform(s)) && s@ == os@),
            platform_of(os@) is Some && arch_of(arch@) is None ==> (r matches Err(ElectronError::UnsupportedArch(s)) && s@ == arch@),
            platform_of(os@) is Some && arch_of(arch@) is Some ==> r == Ok::<TargetDescriptor, ElectronError>(TargetDescriptor {
                platform: platform_of(os@).unwrap(),
                arch: arch_of(arch@).unwrap(),
            }),
    {
        proof {
            reveal_strlit("windows"); reveal_strlit("macos"); reveal_strlit("linux");
            reveal_strlit("x86"); reveal_strlit("x86_64"); reveal_strlit("aarch64");
        }
        let platform = if same_text(os, "windows") {
            Platform::Win32
        } else if same_text(os, "macos") {
            Platform::Darwin
        } else if same_text(os, "linux") {
            Platform::Linux
        } else {
            return Err(ElectronError::UnsupportedPlatform(String::from_str(os)));
        };
        let a = if same_text(arch, "x86") {
            Arch::Ia32
        } else if same_text(arch, "x86_64") {
            Arch::X64
        } else if same_text(arch, "aarch64") {
            Arch::Arm64
        } else {
            return Err(ElectronError::UnsupportedArch(String::from_str(arch)));
        };
        Ok(TargetDescriptor { platform, arch: a })
    }
}

} // verus!
