//! The projection of a workspace into a directive stream, from the raw options of a run.

use vstd::prelude::*;
use crate::directive::{opt_view, render_all};
use crate::emit::{ConfigurationContext, all_wf, document, emit_document};
use crate::platform::{
    Platform, ToolchainVersion, debug_libs, default_libs, find_target, release_libs,
    parts_precede, semver_parts, target_of_triple,
};
use crate::target::{CargoTarget, Package, picks, select_targets, units_at};

verus! {

/// Why a projection was refused.
#[derive(Clone, Copy, Debug, PartialEq, Eq, Structural)]
pub enum GenerateError {
    /// The toolchain version is not a SemVer version.
    MalformedVersion,
    /// A custom profile was asked of a toolchain older than 1.57.0.
    ProfileUnsupported,
}

/// The outcome of a projection.
pub struct Generated {
    pub version: ToolchainVersion,
    pub platform: Platform,
    pub units: Vec<CargoTarget>,
    /// The directive stream.
    pub text: String,
}

impl Generated {
    /// Whether the target triple was recognized; when it was not, the stream carries no
    /// default libraries and the caller should warn.
    pub fn target_recognized(&self) -> (r: bool)
        ensures
            r == (self.platform.cargo_target is Some),
    {
        self.platform.cargo_target.is_some()
    }
}

/// Projects the selected packages into a directive stream: the toolchain version is parsed,
/// the target classified, the units selected, then both phases are written for the
/// configurations of `ctx`, whose artifact roots are `roots`. Default libraries are attached
/// unless `no_default_libraries` is set.
pub fn generate(
    cargo_version: &str,
    target: &str,
    profile: Option<&str>,
    packages: &Vec<Package>,
    crates: &Vec<String>,
    no_default_libraries: bool,
    ctx: &ConfigurationContext,
    roots: &Vec<String>,
) -> (r: Result<Generated, GenerateError>)
    requires
        roots.len() == ctx.count(),
    ensures
        r is Err <==> (semver_parts(cargo_version@) is None || (profile is Some && parts_precede(
            semver_parts(cargo_version@)->Some_0,
            1,
            57,
            0,
        ))),
        r matches Err(e) ==> (e == GenerateError::MalformedVersion <==> semver_parts(
            cargo_version@,
        ) is None),
        r matches Ok(g) ==> {
            &&& semver_parts(cargo_version@) == Some(
                (g.version.major, g.version.minor, g.version.patch, g.version.pre@),
            )
            &&& g.platform.cargo_target == target_of_triple(target@)
            &&& g.platform.libs.deep_view() == default_libs(g.version, target_of_triple(target@))
            &&& g.platform.libs_debug.deep_view() == debug_libs(target_of_triple(target@))
            &&& g.platform.libs_release.deep_view() == release_libs(target_of_triple(target@))
            &&& units_at(g.units@, packages@, picks(packages@, crates.deep_view()))
            &&& g.text@ == render_all(
                document(
                    g.units@,
                    g.platform,
                    opt_view(profile),
                    !no_default_libraries,
                    ctx.suffixes(),
                    roots.deep_view(),
                ),
            )
        },
{
    let version = match ToolchainVersion::parse(cargo_version) {
        Ok(v) => v,
        Err(_) => {
            return Err(GenerateError::MalformedVersion);
        },
    };
    if profile.is_some() && version.is_before(1, 57, 0) {
        return Err(GenerateError::ProfileUnsupported);
    }
    let platform = Platform::from_rust_version_target(&version, find_target(target));
    let units = select_targets(packages, crates);
    proof {
        let at = picks(packages@, crates.deep_view());
        assert forall|k: int| 0 <= k < units@.len() implies #[trigger] units@[k].wf() by {
            let pair = at[k];
        }
    }
    let text = emit_document(&units, &platform, profile, !no_default_libraries, ctx, roots);
    Ok(Generated { version, platform, units, text })
}

} // verus!
