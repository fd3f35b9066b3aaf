//! Runtime channels, architectures, and the paths and addresses they select.

use crate::error::InstallError;
use vstd::prelude::*;
use vstd::string::*;

verus! {

/// A flavour of the runtime, each with its own index layout and install path.
#[derive(Clone, Copy, PartialEq, Eq, Structural, Debug)]
pub enum Runtime {
    Dotnet,
    AspCore,
    WindowsDesktop,
}

/// The instruction set an installer is built for.
#[derive(Clone, Copy, PartialEq, Eq, Structural, Debug)]
pub enum Architecture {
    X86,
    X64,
}

pub const BASE_URL: &'static str = "https://dotnetcli.blob.core.windows.net/dotnet";

pub const CDN_URL: &'static str = "https://dotnetcli.azureedge.net/dotnet";

/// Where the release index and installers of a channel live, below `BASE_URL`.
pub open spec fn channel_path(runtime: Runtime) -> Seq<char> {
    match runtime {
        Runtime::AspCore => "/aspnetcore/Runtime"@,
        _ => "/Runtime"@,
    }
}

pub fn runtime_channel_path(runtime: Runtime) -> (r: &'static str)
    ensures
        r@ == channel_path(runtime),
{
    match runtime {
        Runtime::AspCore => "/aspnetcore/Runtime",
        _ => "/Runtime",
    }
}

/// The first part of a channel's installer file name.
pub open spec fn installer_prefix(runtime: Runtime) -> Seq<char> {
    match runtime {
        Runtime::Dotnet => "dotnet-runtime-"@,
        Runtime::AspCore => "aspnetcore-runtime-"@,
        Runtime::WindowsDesktop => "windowsdesktop-runtime-"@,
    }
}

pub fn runtime_installer_prefix(runtime: Runtime) -> (r: &'static str)
    ensures
        r@ == installer_prefix(runtime),
{
    match runtime {
        Runtime::Dotnet => "dotnet-runtime-",
        Runtime::AspCore => "aspnetcore-runtime-",
        Runtime::WindowsDesktop => "windowsdesktop-runtime-",
    }
}

/// The directory below the install root that holds a channel's versions.
pub open spec fn subdir(runtime: Runtime) -> Seq<char> {
    match runtime {
        Runtime::Dotnet => "shared\\Microsoft.NETCore.App"@,
        Runtime::AspCore => "shared\\Microsoft.AspNetCore.App"@,
        Runtime::WindowsDesktop => "shared\\Microsoft.WindowsDesktop.App"@,
    }
}

pub fn runtime_subdir(runtime: Runtime) -> (r: &'static str)
    ensures
        r@ == subdir(runtime),
{
    match runtime {
        Runtime::Dotnet => "shared\\Microsoft.NETCore.App",
        Runtime::AspCore => "shared\\Microsoft.AspNetCore.App",
        Runtime::WindowsDesktop => "shared\\Microsoft.WindowsDesktop.App",
    }
}

/// The architecture's tag in installer file names.
pub open spec fn arch_tag(arch: Architecture) -> Seq<char> {
    match arch {
        Architecture::X86 => "x86"@,
        Architecture::X64 => "x64"@,
    }
}

pub fn architecture_tag(arch: Architecture) -> (r: &'static str)
    ensures
        r@ == arch_tag(arch),
{
    match arch {
        Architecture::X86 => "x86",
        Architecture::X64 => "x64",
    }
}

/// Whether software of `arch` can run on an operating system of the given width.
pub fn check_architecture(arch: Architecture, is_64bit_os: bool) -> (r: Result<(), InstallError>)
    ensures
        r is Err <==> (arch == Architecture::X64 && !is_64bit_os),
        r matches Err(e) ==> e is Configuration,
{
    if arch == Architecture::X64 && !is_64bit_os {
        Err(InstallError::Configuration)
    } else {
        Ok(())
    }
}

/// The install root: 32-bit software on a 64-bit system has its own.
pub open spec fn root_of(arch: Architecture, is_64bit_os: bool) -> Seq<char> {
    if arch == Architecture::X86 && is_64bit_os {
        "C:\\Program Files (x86)\\dotnet"@
    } else {
        "C:\\Program Files\\dotnet"@
    }
}

pub fn get_root_install(arch: Architecture, is_64bit_os: bool) -> (r: &'static str)
    requires
        !(arch == Architecture::X64 && !is_64bit_os),
    ensures
        r@ == root_of(arch, is_64bit_os),
{
    if arch == Architecture::X86 && is_64bit_os {
        "C:\\Program Files (x86)\\dotnet"
    } else {
        "C:\\Program Files\\dotnet"
    }
}

/// The directory whose subdirectories are the installed versions of a channel.
pub open spec fn install_dir(arch: Architecture, runtime: Runtime, is_64bit_os: bool) -> Seq<char> {
    root_of(arch, is_64bit_os) + "\\"@ + subdir(runtime)
}

pub fn runtime_install_dir(arch: Architecture, runtime: Runtime, is_64bit_os: bool) -> (r: String)
    requires
        !(arch == Architecture::X64 && !is_64bit_os),
    ensures
        r@ == install_dir(arch, runtime, is_64bit_os),
{
    let mut r = String::from_str(get_root_install(arch, is_64bit_os));
    r.append("\\");
    r.append(runtime_subdir(runtime));
    r
}

/// The path of the C runtime library that the installers need. A 32-bit
/// process on a 64-bit system sees the native directory as `SysNative`.
pub open spec fn vcruntime_of(arch: Architecture, syswow64: bool) -> Seq<char> {
    match (arch, syswow64) {
        (Architecture::X64, true) => "C:\\Windows\\SysNative\\vcruntime140.dll"@,
        (Architecture::X64, false) => "C:\\Windows\\System32\\vcruntime140.dll"@,
        (Architecture::X86, true) => "C:\\Windows\\System32\\vcruntime140.dll"@,
        (Architecture::X86, false) => "C:\\Windows\\SysWOW64\\vcruntime140.dll"@,
    }
}

pub fn vcruntime_path(arch: Architecture, syswow64: bool) -> (r: &'static str)
    ensures
        r@ == vcruntime_of(arch, syswow64),
{
    match (arch, syswow64) {
        (Architecture::X64, true) => "C:\\Windows\\SysNative\\vcruntime140.dll",
        (Architecture::X64, false) => "C:\\Windows\\System32\\vcruntime140.dll",
        (Architecture::X86, true) => "C:\\Windows\\System32\\vcruntime140.dll",
        (Architecture::X86, false) => "C:\\Windows\\SysWOW64\\vcruntime140.dll",
    }
}

/// Where the installer of the C runtime library for `arch` is published.
pub open spec fn vcruntime_url_of(arch: Architecture) -> Seq<char> {
    match arch {
        Architecture::X86 => "https://download.visualstudio.microsoft.com/download/pr/8ecb9800-52fd-432d-83ee-d6e037e96cc2/50A3E92ADE4C2D8F310A2812D46322459104039B9DEADBD7FDD483B5C697C0C8/VC_redist.x86.exe"@,
        Architecture::X64 => "https://download.visualstudio.microsoft.com/download/pr/89a3b9df-4a09-492e-8474-8f92c115c51d/B1A32C71A6B7D5978904FB223763263EA5A7EB23B2C44A0D60E90D234AD99178/VC_redist.x64.exe"@,
    }
}

pub fn vcruntime_url(arch: Architecture) -> (r: &'static str)
    ensures
        r@ == vcruntime_url_of(arch),
{
    match arch {
        Architecture::X86 => "https://download.visualstudio.microsoft.com/download/pr/8ecb9800-52fd-432d-83ee-d6e037e96cc2/50A3E92ADE4C2D8F310A2812D46322459104039B9DEADBD7FDD483B5C697C0C8/VC_redist.x86.exe",
        Architecture::X64 => "https://download.visualstudio.microsoft.com/download/pr/89a3b9df-4a09-492e-8474-8f92c115c51d/B1A32C71A6B7D5978904FB223763263EA5A7EB23B2C44A0D60E90D234AD99178/VC_redist.x64.exe",
    }
}

} // verus!
