//! Names and paths that the editor extension uses to find, download and start
//! the language server and the tracker.
use vstd::prelude::*;
use vstd::string::*;

verus! {

/// The host's operating system.
#[derive(Clone, Copy, Debug, PartialEq, Eq, Structural)]
pub enum Os {
    Mac,
    Linux,
    Windows,
}

/// The host's processor architecture.
#[derive(Clone, Copy, Debug, PartialEq, Eq, Structural)]
pub enum Architecture {
    Aarch64,
    X8664,
    X86,
}

/// The two programs that the extension provides.
#[derive(Clone, Copy, Debug, PartialEq, Eq, Structural)]
pub enum Tool {
    /// The tracker command-line agent.
    WakatimeCli,
    /// This language server.
    WakatimeLs,
}

/// The program's base name.
pub open spec fn tool_text(t: Tool) -> Seq<char> {
    match t {
        Tool::WakatimeCli => "wakatime-cli"@,
        Tool::WakatimeLs => "wakatime-ls"@,
    }
}

/// How the program's release assets name the architecture.
pub open spec fn arch_text(t: Tool, a: Architecture) -> Option<Seq<char>> {
    match (a, t) {
        (Architecture::Aarch64, Tool::WakatimeCli) => Some("arm64"@),
        (Architecture::Aarch64, Tool::WakatimeLs) => Some("aarch64"@),
        (Architecture::X8664, Tool::WakatimeCli) => Some("amd64"@),
        (Architecture::X8664, Tool::WakatimeLs) => Some("x86_64"@),
        (Architecture::X86, _) => None,
    }
}

/// How the program's release assets name the operating system.
pub open spec fn os_text(t: Tool, os: Os) -> Seq<char> {
    match (os, t) {
        (Os::Mac, Tool::WakatimeCli) => "darwin"@,
        (Os::Mac, Tool::WakatimeLs) => "apple-darwin"@,
        (Os::Linux, Tool::WakatimeCli) => "linux"@,
        (Os::Linux, Tool::WakatimeLs) => "unknown-linux-gnu"@,
        (Os::Windows, Tool::WakatimeCli) => "windows"@,
        (Os::Windows, Tool::WakatimeLs) => "pc-windows-msvc"@,
    }
}

/// The release target name: `wakatime-cli-<os>-<arch>` or
/// `wakatime-ls-<arch>-<os>`; `None` on an architecture without releases.
pub open spec fn triple_text(t: Tool, os: Os, a: Architecture) -> Option<Seq<char>> {
    match arch_text(t, a) {
        Some(arch) => Some(
            match t {
                Tool::WakatimeCli => tool_text(t) + "-"@ + os_text(t, os) + "-"@ + arch,
                Tool::WakatimeLs => tool_text(t) + "-"@ + arch + "-"@ + os_text(t, os),
            },
        ),
        None => None,
    }
}

/// The file name of an executable called `base`.
pub open spec fn executable_text(base: Seq<char>, os: Os) -> Seq<char> {
    match os {
        Os::Windows => base + ".exe"@,
        _ => base,
    }
}

/// `s` with every leading `c` removed.
pub open spec fn trim_leading(s: Seq<char>, c: char) -> Seq<char>
    decreases s.len(),
{
    if s.len() > 0 && s[0] == c {
        trim_leading(s.drop_first(), c)
    } else {
        s
    }
}

/// A path as the host's process launcher takes it: on Windows without the
/// leading slashes of a sandbox path.
pub open spec fn sanitized_text(path: Seq<char>, os: Os) -> Seq<char> {
    match os {
        Os::Windows => trim_leading(path, '/'),
        _ => path,
    }
}

/// The program's base name.
pub fn tool_name(t: Tool) -> (r: String)
    ensures
        r@ == tool_text(t),
{
    match t {
        Tool::WakatimeCli => String::from_str("wakatime-cli"),
        Tool::WakatimeLs => String::from_str("wakatime-ls"),
    }
}

/// The file name of an executable called `binary` on `os`.
pub fn executable_name(binary: &str, os: Os) -> (r: String)
    ensures
        r@ == executable_text(binary@, os),
{
    match os {
        Os::Windows => String::from_str(binary).concat(".exe"),
        _ => String::from_str(binary),
    }
}

/// Relies on `str::trim_start_matches` with a `char` pattern: every leading
/// occurrence of the character is removed, nothing else.
#[verifier::external_body]
fn trim_start_char(s: &str, c: char) -> (r: String)
    ensures
        r@ == trim_leading(s@, c),
{
    s.trim_start_matches(c).to_string()
}

/// Relies on `str::starts_with` with a `&str` pattern: whether `prefix` is a
/// prefix of `s`.
#[verifier::external_body]
fn has_prefix(s: &str, prefix: &str) -> (r: bool)
    ensures
        r == (prefix@.len() <= s@.len() && s@.subrange(0, prefix@.len() as int) == prefix@),
{
    s.starts_with(prefix)
}

/// `path` as the host's process launcher takes it on `os`.
pub fn sanitize_path(path: &str, os: Os) -> (r: String)
    ensures
        r@ == sanitized_text(path@, os),
{
    match os {
        Os::Windows => trim_start_char(path, '/'),
        _ => String::from_str(path),
    }
}

/// The error for an architecture without releases.
pub open spec fn unsupported_arch_text(a: Architecture) -> Seq<char> {
    "unsupported architecture: "@ + match a {
        Architecture::Aarch64 => "Aarch64"@,
        Architecture::X8664 => "X8664"@,
        Architecture::X86 => "X86"@,
    }
}

/// The release target name of `tool` for the host; an error on an
/// architecture for which no release is built.
pub fn target_triple(tool: Tool, os: Os, arch: Architecture) -> (r: Result<String, String>)
    ensures
        match triple_text(tool, os, arch) {
            Some(t) => r matches Ok(s) && s@ == t,
            None => r matches Err(m) && m@ == unsupported_arch_text(arch),
        },
{
    let arch_name = match (arch, tool) {
        (Architecture::Aarch64, Tool::WakatimeCli) => "arm64",
        (Architecture::Aarch64, Tool::WakatimeLs) => "aarch64",
        (Architecture::X8664, Tool::WakatimeCli) => "amd64",
        (Architecture::X8664, Tool::WakatimeLs) => "x86_64",
        (Architecture::X86, _) => {
            return Err(String::from_str("unsupported architecture: ").concat("X86"));
        },
    };
    let os_name = match (os, tool) {
        (Os::Mac, Tool::WakatimeCli) => "darwin",
        (Os::Mac, Tool::WakatimeLs) => "apple-darwin",
        (Os::Linux, Tool::WakatimeCli) => "linux",
        (Os::Linux, Tool::WakatimeLs) => "unknown-linux-gnu",
        (Os::Windows, Tool::WakatimeCli) => "windows",
        (Os::Windows, Tool::WakatimeLs) => "pc-windows-msvc",
    };
    let (first, second) = match tool {
        Tool::WakatimeCli => (os_name, arch_name),
        Tool::WakatimeLs => (arch_name, os_name),
    };
    let triple = tool_name(tool).concat("-").concat(first).concat("-").concat(second);
    Ok(triple)
}

/// Where a release of `tool` is unpacked, and the asset to fetch for it.
pub struct ReleaseLayout {
    /// The release asset's file name: `<triple>.zip`.
    pub asset_name: String,
    /// The directory that the asset is unpacked into: `<tool>-<version>`.
    pub version_dir: String,
    /// The executable's file name inside that directory.
    pub binary_name: String,
}

/// The executable's file name inside the unpacked release: the tracker's is
/// named after its target, the language server's after itself.
pub open spec fn release_binary_text(t: Tool, triple: Seq<char>, os: Os) -> Seq<char> {
    match t {
        Tool::WakatimeCli => executable_text(triple, os),
        Tool::WakatimeLs => executable_text(tool_text(t), os),
    }
}

/// The layout of release `version` of `tool` on the host; the error of
/// `target_triple` where there is no release for it.
pub fn release_layout(tool: Tool, version: &str, os: Os, arch: Architecture) -> (r: Result<
    ReleaseLayout,
    String,
>)
    ensures
        match triple_text(tool, os, arch) {
            Some(t) => r matches Ok(l) && l.asset_name@ == t + ".zip"@ && l.version_dir@
                == tool_text(tool) + "-"@ + version@ && l.binary_name@ == release_binary_text(
                tool,
                t,
                os,
            ),
            None => r matches Err(m) && m@ == unsupported_arch_text(arch),
        },
{
    let triple = match target_triple(tool, os, arch) {
        Ok(t) => t,
        Err(e) => return Err(e),
    };
    let asset_name = triple.clone().concat(".zip");
    let version_dir = tool_name(tool).concat("-").concat(version);
    let binary_name = match tool {
        Tool::WakatimeCli => executable_name(triple.as_str(), os),
        Tool::WakatimeLs => executable_name(tool_name(tool).as_str(), os),
    };
    Ok(ReleaseLayout { asset_name, version_dir, binary_name })
}

/// Whether a working-directory entry is an older release of `tool`, to be
/// removed once `version_dir` is unpacked.
pub fn is_stale_release(tool: Tool, entry_name: &str, version_dir: &String) -> (r: bool)
    ensures
        r == (tool_text(tool).len() <= entry_name@.len() && entry_name@.subrange(
            0,
            tool_text(tool).len() as int,
        ) == tool_text(tool) && entry_name@ != version_dir@),
{
    let name = tool_name(tool);
    has_prefix(entry_name, name.as_str()) && !(String::from_str(entry_name) == *version_dir)
}

/// The language server's command-line arguments, pointing it at the tracker
/// executable at `cli_path`.
pub fn server_args(cli_path: &str, os: Os) -> (r: Vec<String>)
    ensures
        r@.len() == 2,
        r@[0]@ == "--wakatime-cli"@,
        r@[1]@ == sanitized_text(cli_path@, os),
{
    let mut args: Vec<String> = Vec::new();
    args.push(String::from_str("--wakatime-cli"));
    args.push(sanitize_path(cli_path, os));
    args
}

} // verus!
