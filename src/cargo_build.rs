//! The arguments of the `cargo build` run that builds one package.

use vstd::prelude::*;
use crate::text::{join_spaced, spaced};

verus! {

/// What a package build asks of Cargo.
#[derive(Clone, Debug)]
pub struct BuildRequest {
    pub target: String,
    pub package: String,
    pub manifest_path: String,
    pub features: Vec<String>,
    pub verbose: bool,
    pub all_features: bool,
    pub no_default_features: bool,
    pub release: bool,
    pub profile: Option<String>,
}

/// The arguments of the `cargo build` run: the subcommand with target, features, package and
/// manifest, then each requested switch in a fixed order, then the profile.
pub open spec fn build_args(req: BuildRequest) -> Seq<Seq<char>> {
    let base = seq![
        "build"@,
        "--target"@,
        req.target@,
        "--features"@,
        spaced(req.features.deep_view()),
        "--package"@,
        req.package@,
        "--manifest-path"@,
        req.manifest_path@,
    ];
    let verbose = if req.verbose { seq!["--verbose"@] } else { seq![] };
    let all = if req.all_features { seq!["--all-features"@] } else { seq![] };
    let no_default = if req.no_default_features { seq!["--no-default-features"@] } else { seq![] };
    let release = if req.release { seq!["--release"@] } else { seq![] };
    let profile = match req.profile {
        Some(p) => seq!["--profile"@, p@],
        None => seq![],
    };
    base + verbose + all + no_default + release + profile
}

fn push_arg(args: &mut Vec<String>, a: &str)
    ensures
        final(args).deep_view() == old(args).deep_view().push(a@),
{
    args.push(String::from_str(a));
    assert(args.deep_view() =~= old(args).deep_view().push(a@));
}

/// The arguments that build the requested package.
pub fn cargo_build_args(req: &BuildRequest) -> (r: Vec<String>)
    ensures
        r.deep_view() == build_args(*req),
{
    let features = join_spaced(&req.features);
    let mut args: Vec<String> = Vec::new();
    push_arg(&mut args, "build");
    push_arg(&mut args, "--target");
    push_arg(&mut args, req.target.as_str());
    push_arg(&mut args, "--features");
    push_arg(&mut args, features.as_str());
    push_arg(&mut args, "--package");
    push_arg(&mut args, req.package.as_str());
    push_arg(&mut args, "--manifest-path");
    push_arg(&mut args, req.manifest_path.as_str());
    if req.verbose {
        push_arg(&mut args, "--verbose");
    }
    if req.all_features {
        push_arg(&mut args, "--all-features");
    }
    if req.no_default_features {
        push_arg(&mut args, "--no-default-features");
    }
    if req.release {
        push_arg(&mut args, "--release");
    }
    if let Some(p) = &req.profile {
        push_arg(&mut args, "--profile");
        push_arg(&mut args, p.as_str());
    }
    assert(args.deep_view() =~= build_args(*req));
    args
}

} // verus!
