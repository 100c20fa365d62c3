//! Target platforms and the system libraries that Rust static libraries need on each.

use vstd::prelude::*;
use crate::text::str_eq;

verus! {

/// Operating-system families whose artifact and linking conventions differ.
#[derive(Clone, Copy, Debug, PartialEq, Eq, Structural)]
pub enum TargetOs {
    Windows,
    MacOs,
    Linux,
    Other,
}

/// ABI environments that change naming and linking on Windows.
#[derive(Clone, Copy, Debug, PartialEq, Eq, Structural)]
pub enum TargetAbi {
    Msvc,
    Gnu,
    Other,
}

/// What the generator needs to know of a recognized target triple.
#[derive(Clone, Copy, Debug, PartialEq, Eq, Structural)]
pub struct TargetSpec {
    pub os: TargetOs,
    pub abi: TargetAbi,
}

/// The `target_os` and `target_env` cfg values that the `platforms` table lists for a triple.
pub uninterp spec fn platform_cfg(triple: Seq<char>) -> Option<(Seq<char>, Seq<char>)>;

/// Relies on `platforms::Platform::find`, which looks the triple up in the crate's table of
/// known targets, and on `Os::as_str` and `Env::as_str`, which give the `target_os` and
/// `target_env` cfg strings of the entry found.
#[verifier::external_body]
fn lookup_target_cfg(triple: &str) -> (r: Option<(String, String)>)
    ensures
        r is None <==> platform_cfg(triple@) is None,
        r matches Some(cfg) ==> platform_cfg(triple@) == Some((cfg.0@, cfg.1@)),
{
    match platforms::Platform::find(triple) {
        Some(p) => Some((p.target_os.as_str().to_string(), p.target_env.as_str().to_string())),
        None => None,
    }
}

pub open spec fn os_of_cfg(os: Seq<char>) -> TargetOs {
    if os == "windows"@ {
        TargetOs::Windows
    } else if os == "macos"@ {
        TargetOs::MacOs
    } else if os == "linux"@ {
        TargetOs::Linux
    } else {
        TargetOs::Other
    }
}

pub open spec fn abi_of_cfg(env: Seq<char>) -> TargetAbi {
    if env == "msvc"@ {
        TargetAbi::Msvc
    } else if env == "gnu"@ {
        TargetAbi::Gnu
    } else {
        TargetAbi::Other
    }
}

/// The target that a triple denotes, if the triple is a known one.
pub open spec fn target_of_triple(triple: Seq<char>) -> Option<TargetSpec> {
    match platform_cfg(triple) {
        Some(cfg) => Some(TargetSpec { os: os_of_cfg(cfg.0), abi: abi_of_cfg(cfg.1) }),
        None => None,
    }
}

/// Classifies a target by its `target_os` and `target_env` cfg values.
pub fn classify_target_cfg(os: &str, env: &str) -> (r: TargetSpec)
    ensures
        r == (TargetSpec { os: os_of_cfg(os@), abi: abi_of_cfg(env@) }),
{
    let os = if str_eq(os, "windows") {
        TargetOs::Windows
    } else if str_eq(os, "macos") {
        TargetOs::MacOs
    } else if str_eq(os, "linux") {
        TargetOs::Linux
    } else {
        TargetOs::Other
    };
    let abi = if str_eq(env, "msvc") {
        TargetAbi::Msvc
    } else if str_eq(env, "gnu") {
        TargetAbi::Gnu
    } else {
        TargetAbi::Other
    };
    TargetSpec { os, abi }
}

/// Classifies a target triple; `None` when the triple is not a known Rust target.
pub fn find_target(triple: &str) -> (r: Option<TargetSpec>)
    ensures
        r == target_of_triple(triple@),
{
    match lookup_target_cfg(triple) {
        Some(cfg) => Some(classify_target_cfg(cfg.0.as_str(), cfg.1.as_str())),
        None => None,
    }
}

/// A toolchain version: the numeric release and the pre-release tag (empty for a release).
#[derive(Clone, Debug)]
pub struct ToolchainVersion {
    pub major: u64,
    pub minor: u64,
    pub patch: u64,
    pub pre: String,
}

/// Why a version string was refused.
#[derive(Clone, Copy, Debug, PartialEq, Eq, Structural)]
pub enum VersionError {
    Malformed,
}

/// The error of `semver::Version::parse`, carried opaquely.
#[verifier::external_type_specification]
#[verifier::external_body]
pub struct ExSemverError(semver::Error);

/// The major, minor and patch numbers and the pre-release tag of a SemVer string, if it is one.
pub uninterp spec fn semver_parts(text: Seq<char>) -> Option<(u64, u64, u64, Seq<char>)>;

/// Relies on `semver::Version::parse`, whose result is a function of the text alone and carries
/// the numeric components and the pre-release tag, and on `Prerelease::as_str` for the tag.
#[verifier::external_body]
fn parse_semver(text: &str) -> (r: Result<ToolchainVersion, semver::Error>)
    ensures
        r is Ok <==> semver_parts(text@) is Some,
        r matches Ok(v) ==> semver_parts(text@) == Some((v.major, v.minor, v.patch, v.pre@)),
{
    match semver::Version::parse(text) {
        Ok(v) => Ok(
            ToolchainVersion {
                major: v.major,
                minor: v.minor,
                patch: v.patch,
                pre: v.pre.as_str().to_string(),
            },
        ),
        Err(e) => Err(e),
    }
}

/// SemVer precedence of a version, given by its numbers and pre-release tag, against the
/// release `major.minor.patch`.
pub open spec fn parts_precede(v: (u64, u64, u64, Seq<char>), major: u64, minor: u64, patch: u64) -> bool {
    ||| v.0 < major
    ||| v.0 == major && v.1 < minor
    ||| v.0 == major && v.1 == minor && v.2 < patch
    ||| v.0 == major && v.1 == minor && v.2 == patch && v.3.len() > 0
}

impl ToolchainVersion {
    /// A release version with the given numbers and no pre-release tag.
    pub fn new(major: u64, minor: u64, patch: u64) -> (r: ToolchainVersion)
        ensures
            r.major == major,
            r.minor == minor,
            r.patch == patch,
            r.pre@ == Seq::<char>::empty(),
    {
        ToolchainVersion { major, minor, patch, pre: String::new() }
    }

    /// Parses a SemVer version string.
    pub fn parse(text: &str) -> (r: Result<ToolchainVersion, VersionError>)
        ensures
            r is Err <==> semver_parts(text@) is None,
            r matches Err(e) ==> e == VersionError::Malformed,
            r matches Ok(v) ==> semver_parts(text@) == Some((v.major, v.minor, v.patch, v.pre@)),
    {
        match parse_semver(text) {
            Ok(v) => Ok(v),
            Err(_) => Err(VersionError::Malformed),
        }
    }

    /// SemVer precedence against a release `major.minor.patch`: a pre-release comes before the
    /// release with the same numbers.
    pub open spec fn precedes(&self, major: u64, minor: u64, patch: u64) -> bool {
        parts_precede((self.major, self.minor, self.patch, self.pre@), major, minor, patch)
    }

    /// Whether this version comes before the release `major.minor.patch` in SemVer order.
    pub fn is_before(&self, major: u64, minor: u64, patch: u64) -> (r: bool)
        ensures
            r == self.precedes(major, minor, patch),
    {
        if self.major != major {
            self.major < major
        } else if self.minor != minor {
            self.minor < minor
        } else if self.patch != patch {
            self.patch < patch
        } else {
            self.pre.as_str().unicode_len() > 0
        }
    }
}

/// The system libraries, by name, that a Rust static library needs on a target.
pub open spec fn default_libs(version: ToolchainVersion, target: Option<TargetSpec>) -> Seq<
    Seq<char>,
> {
    match target {
        Some(t) => match t.os {
            TargetOs::Windows => {
                let base = seq!["advapi32"@, "userenv"@, "ws2_32"@];
                let with_abi = if t.abi == TargetAbi::Gnu {
                    base + seq!["gcc_eh"@, "pthread"@]
                } else {
                    base
                };
                let with_legacy = if version.precedes(1, 33, 0) {
                    with_abi + seq!["shell32"@, "kernel32"@]
                } else {
                    with_abi
                };
                if !version.precedes(1, 57, 0) {
                    with_legacy.push("bcrypt"@)
                } else {
                    with_legacy
                }
            },
            TargetOs::MacOs => seq!["System"@, "resolv"@, "c"@, "m"@],
            TargetOs::Linux => seq!["dl"@, "rt"@, "pthread"@, "gcc_s"@, "c"@, "m"@, "util"@],
            TargetOs::Other => seq![],
        },
        None => seq![],
    }
}

/// Libraries linked only into debug configurations.
pub open spec fn debug_libs(target: Option<TargetSpec>) -> Seq<Seq<char>> {
    match target {
        Some(t) => if t.os == TargetOs::Windows && t.abi == TargetAbi::Msvc {
            seq!["msvcrtd"@]
        } else {
            seq![]
        },
        None => seq![],
    }
}

/// Libraries linked only into release configurations.
pub open spec fn release_libs(target: Option<TargetSpec>) -> Seq<Seq<char>> {
    match target {
        Some(t) => if t.os == TargetOs::Windows && t.abi == TargetAbi::Msvc {
            seq!["msvcrt"@]
        } else {
            seq![]
        },
        None => seq![],
    }
}

/// The platform profile: default link libraries and ABI predicates of the build target.
pub struct Platform {
    pub libs: Vec<String>,
    pub libs_debug: Vec<String>,
    pub libs_release: Vec<String>,
    pub cargo_target: Option<TargetSpec>,
}

fn push_name(list: &mut Vec<String>, name: &str)
    ensures
        final(list).deep_view() == old(list).deep_view().push(name@),
{
    list.push(String::from_str(name));
    assert(list.deep_view() =~= old(list).deep_view().push(name@));
}

impl Platform {
    pub open spec fn windows(&self) -> bool {
        self.cargo_target matches Some(t) && t.os == TargetOs::Windows
    }

    pub open spec fn msvc(&self) -> bool {
        self.cargo_target matches Some(t) && t.os == TargetOs::Windows && t.abi == TargetAbi::Msvc
    }

    pub open spec fn windows_gnu(&self) -> bool {
        self.cargo_target matches Some(t) && t.os == TargetOs::Windows && t.abi == TargetAbi::Gnu
    }

    pub open spec fn macos(&self) -> bool {
        self.cargo_target matches Some(t) && t.os == TargetOs::MacOs
    }

    /// Builds the profile of a target for a toolchain version. An unknown target (`None`) gets
    /// no libraries at all.
    pub fn from_rust_version_target(version: &ToolchainVersion, cargo_target: Option<TargetSpec>) -> (r: Platform)
        ensures
            r.cargo_target == cargo_target,
            r.libs.deep_view() == default_libs(*version, cargo_target),
            r.libs_debug.deep_view() == debug_libs(cargo_target),
            r.libs_release.deep_view() == release_libs(cargo_target),
    {
        let mut libs: Vec<String> = Vec::new();
        let mut libs_debug: Vec<String> = Vec::new();
        let mut libs_release: Vec<String> = Vec::new();
        if let Some(t) = cargo_target {
            match t.os {
                TargetOs::Windows => {
                    push_name(&mut libs, "advapi32");
                    push_name(&mut libs, "userenv");
                    push_name(&mut libs, "ws2_32");
                    match t.abi {
                        TargetAbi::Msvc => {
                            push_name(&mut libs_debug, "msvcrtd");
                            push_name(&mut libs_release, "msvcrt");
                        },
                        TargetAbi::Gnu => {
                            push_name(&mut libs, "gcc_eh");
                            push_name(&mut libs, "pthread");
                        },
                        TargetAbi::Other => {},
                    }
                    if version.is_before(1, 33, 0) {
                        push_name(&mut libs, "shell32");
                        push_name(&mut libs, "kernel32");
                    }
                    if !version.is_before(1, 57, 0) {
                        push_name(&mut libs, "bcrypt");
                    }
                },
                TargetOs::MacOs => {
                    push_name(&mut libs, "System");
                    push_name(&mut libs, "resolv");
                    push_name(&mut libs, "c");
                    push_name(&mut libs, "m");
                },
                TargetOs::Linux => {
                    push_name(&mut libs, "dl");
                    push_name(&mut libs, "rt");
                    push_name(&mut libs, "pthread");
                    push_name(&mut libs, "gcc_s");
                    push_name(&mut libs, "c");
                    push_name(&mut libs, "m");
                    push_name(&mut libs, "util");
                },
                TargetOs::Other => {},
            }
        }
        assert(libs.deep_view() =~= default_libs(*version, cargo_target));
        assert(libs_debug.deep_view() =~= debug_libs(cargo_target));
        assert(libs_release.deep_view() =~= release_libs(cargo_target));
        Platform { libs, libs_debug, libs_release, cargo_target }
    }

    pub fn is_windows(&self) -> (r: bool)
        ensures
            r == self.windows(),
    {
        match self.cargo_target {
            Some(t) => t.os == TargetOs::Windows,
            None => false,
        }
    }

    pub fn is_msvc(&self) -> (r: bool)
        ensures
            r == self.msvc(),
    {
        match self.cargo_target {
            Some(t) => t.os == TargetOs::Windows && t.abi == TargetAbi::Msvc,
            None => false,
        }
    }

    pub fn is_windows_gnu(&self) -> (r: bool)
        ensures
            r == self.windows_gnu(),
    {
        match self.cargo_target {
            Some(t) => t.os == TargetOs::Windows && t.abi == TargetAbi::Gnu,
            None => false,
        }
    }

    pub fn is_macos(&self) -> (r: bool)
        ensures
            r == self.macos(),
    {
        match self.cargo_target {
            Some(t) => t.os == TargetOs::MacOs,
            None => false,
        }
    }
}

/// Version gating on Windows: `shell32` and `kernel32` are default libraries exactly for
/// toolchains before 1.33.0, and `bcrypt` exactly for toolchains from 1.57.0 on.
pub proof fn lemma_windows_version_gating(version: ToolchainVersion, abi: TargetAbi)
    ensures
        ({
            let libs = default_libs(version, Some(TargetSpec { os: TargetOs::Windows, abi }));
            &&& libs.contains("shell32"@) <==> version.precedes(1, 33, 0)
            &&& libs.contains("kernel32"@) <==> version.precedes(1, 33, 0)
            &&& libs.contains("bcrypt"@) <==> !version.precedes(1, 57, 0)
        }),
{
    reveal_strlit("advapi32");
    reveal_strlit("userenv");
    reveal_strlit("ws2_32");
    reveal_strlit("gcc_eh");
    reveal_strlit("pthread");
    reveal_strlit("shell32");
    reveal_strlit("kernel32");
    reveal_strlit("bcrypt");
    let libs = default_libs(version, Some(TargetSpec { os: TargetOs::Windows, abi }));
    let names = seq!["advapi32"@, "userenv"@, "ws2_32"@, "gcc_eh"@, "pthread"@, "shell32"@, "kernel32"@, "bcrypt"@];
    assert forall|i: int, j: int| 0 <= i < 8 && 0 <= j < 8 && i != j implies names[i] != names[j] by {
        if names[i].len() == names[j].len() {
            assert(names[i][0] != names[j][0] || names[i][1] != names[j][1]);
        }
    }
    assert forall|k: int| 0 <= k < libs.len() implies exists|i: int| 0 <= i < 8 && #[trigger] libs[k] == names[i] && (
        i == 5 ==> version.precedes(1, 33, 0)) && (i == 6 ==> version.precedes(1, 33, 0)) && (i == 7
        ==> !version.precedes(1, 57, 0)) by {
    }
    if version.precedes(1, 33, 0) {
        let base = if abi == TargetAbi::Gnu { 5int } else { 3int };
        assert(libs[base] == "shell32"@);
        assert(libs[base + 1] == "kernel32"@);
    }
    if !version.precedes(1, 57, 0) {
        assert(libs[libs.len() - 1] == "bcrypt"@);
    }
}

} // verus!
