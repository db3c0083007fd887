//! The running platform and the names that release artifacts carry for it.
use vstd::prelude::*;
use crate::text::append;

verus! {

/// The operating systems the language server is released for.
#[derive(Clone, Copy, Debug, PartialEq, Eq, Structural)]
pub enum Os {
    Mac,
    Linux,
    Windows,
}

/// The processor architectures the language server is released for.
#[derive(Clone, Copy, Debug, PartialEq, Eq, Structural)]
pub enum Architecture {
    Aarch64,
    X86,
    X8664,
}

/// The platform the host runs on.
#[derive(Clone, Copy, Debug, PartialEq, Eq, Structural)]
pub struct PlatformKey {
    pub os: Os,
    pub arch: Architecture,
}

pub open spec fn arch_token_spec(arch: Architecture) -> Seq<char> {
    match arch {
        Architecture::Aarch64 => seq!['a', 'r', 'm', '6', '4'],
        Architecture::X86 => seq!['x', '8', '6'],
        Architecture::X8664 => seq!['x', '8', '6', '_', '6', '4'],
    }
}

pub open spec fn os_token_spec(os: Os) -> Seq<char> {
    match os {
        Os::Mac => seq!['d', 'a', 'r', 'w', 'i', 'n'],
        Os::Linux => seq![
            'u', 'n', 'k', 'n', 'o', 'w', 'n', '-', 'l', 'i', 'n', 'u', 'x', '-', 'g', 'n', 'u'
        ],
        Os::Windows => seq![
            'p', 'c', '-', 'w', 'i', 'n', 'd', 'o', 'w', 's', '-', 'm', 's', 'v', 'c'
        ],
    }
}

/// Every platform's archives are zip files.
pub open spec fn archive_extension_spec(os: Os) -> Seq<char> {
    seq!['z', 'i', 'p']
}

/// The shell environment is handed on to the server on Unix-like systems only.
pub open spec fn inherits_shell_env_spec(os: Os) -> bool {
    os != Os::Windows
}

/// `<tool>-<arch>-<os>`: the name of the server binary inside an archive.
pub open spec fn binary_name_spec(tool: Seq<char>, key: PlatformKey) -> Seq<char> {
    tool + seq!['-'] + arch_token_spec(key.arch) + seq!['-'] + os_token_spec(key.os)
}

/// `<tool>-<arch>-<os>.<extension>`: the name of the release asset to download.
pub open spec fn asset_name_spec(tool: Seq<char>, key: PlatformKey) -> Seq<char> {
    binary_name_spec(tool, key) + seq!['.'] + archive_extension_spec(key.os)
}

/// The architecture's token in artifact names.
pub fn arch_token(arch: Architecture) -> (r: &'static str)
    ensures
        r@ == arch_token_spec(arch),
{
    match arch {
        Architecture::Aarch64 => {
            proof { reveal_strlit("arm64"); }
            "arm64"
        },
        Architecture::X86 => {
            proof { reveal_strlit("x86"); }
            "x86"
        },
        Architecture::X8664 => {
            proof { reveal_strlit("x86_64"); }
            "x86_64"
        },
    }
}

/// The operating system's token in artifact names.
pub fn os_token(os: Os) -> (r: &'static str)
    ensures
        r@ == os_token_spec(os),
{
    match os {
        Os::Mac => {
            proof { reveal_strlit("darwin"); }
            "darwin"
        },
        Os::Linux => {
            proof { reveal_strlit("unknown-linux-gnu"); }
            "unknown-linux-gnu"
        },
        Os::Windows => {
            proof { reveal_strlit("pc-windows-msvc"); }
            "pc-windows-msvc"
        },
    }
}

/// The extension of the release archive for this operating system.
pub fn archive_extension(os: Os) -> (r: &'static str)
    ensures
        r@ == archive_extension_spec(os),
{
    proof { reveal_strlit("zip"); }
    "zip"
}

/// Whether the server is launched with the worktree's shell environment.
pub fn inherits_shell_env(os: Os) -> (r: bool)
    ensures
        r == inherits_shell_env_spec(os),
{
    match os {
        Os::Mac | Os::Linux => true,
        Os::Windows => false,
    }
}

/// The name of the server binary for `key`, as unpacked from its archive.
pub fn binary_name(tool: &str, key: PlatformKey) -> (r: String)
    ensures
        r@ == binary_name_spec(tool@, key),
{
    let mut r = String::new();
    proof { reveal_strlit("-"); }
    append(&mut r, tool);
    append(&mut r, "-");
    append(&mut r, arch_token(key.arch));
    append(&mut r, "-");
    append(&mut r, os_token(key.os));
    assert(r@ =~= binary_name_spec(tool@, key));
    r
}

/// The name of the release asset that holds the server for `key`.
pub fn asset_name(tool: &str, key: PlatformKey) -> (r: String)
    ensures
        r@ == asset_name_spec(tool@, key),
{
    let mut r = binary_name(tool, key);
    proof { reveal_strlit("."); }
    append(&mut r, ".");
    append(&mut r, archive_extension(key.os));
    r
}

/// Every platform has non-empty tokens, no two platforms share a token pair,
/// and no two platforms share an asset name, whatever the tool is called.
pub proof fn lemma_platform_names_distinct(tool: Seq<char>, k1: PlatformKey, k2: PlatformKey)
    ensures
        arch_token_spec(k1.arch).len() > 0,
        os_token_spec(k1.os).len() > 0,
        k1 != k2 ==> (arch_token_spec(k1.arch), os_token_spec(k1.os)) != (
            arch_token_spec(k2.arch),
            os_token_spec(k2.os),
        ),
        k1 != k2 ==> asset_name_spec(tool, k1) != asset_name_spec(tool, k2),
{
    if k1 != k2 && asset_name_spec(tool, k1) == asset_name_spec(tool, k2) {
        let n1 = asset_name_spec(tool, k1);
        let n2 = asset_name_spec(tool, k2);
        let t = tool.len() as int;
        assert(n1.len() == n2.len());
        assert(n1[t + 1] == n2[t + 1]);
        assert(n1[t + 4] == n2[t + 4]);
        assert(false);
    }
}

} // verus!
