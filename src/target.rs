//! Build units: their classification from Cargo's kind tags and the names of their artifacts.

use vstd::prelude::*;
use crate::platform::Platform;
use crate::text::{contains_str, replace_char, replaced};

verus! {

/// What a build unit produces.
#[derive(Clone, Copy, Debug, PartialEq, Eq, Structural)]
pub enum CargoTargetType {
    Executable,
    Library { has_staticlib: bool, has_cdylib: bool },
}

/// One file that building a unit leaves behind.
#[derive(Clone, Copy, Debug, PartialEq, Eq, Structural)]
pub enum Artifact {
    StaticLib,
    DynamicLib,
    ImportLib,
    DebugSymbols,
    Executable,
}

/// A Cargo target as the workspace metadata describes it: its name and its kind tags.
#[derive(Clone, Debug)]
pub struct TargetMetadata {
    pub name: String,
    pub kind: Vec<String>,
}

/// A Cargo package of the workspace.
#[derive(Clone, Debug)]
pub struct Package {
    pub name: String,
    pub manifest_path: String,
    pub targets: Vec<TargetMetadata>,
}

/// A build unit: a target of a package that produces an executable or a library.
#[derive(Clone, Debug)]
pub struct CargoTarget {
    pub package_name: String,
    pub manifest_path: String,
    pub name: String,
    pub target_type: CargoTargetType,
}

/// The classification of a list of kind tags; `None` when it holds none that is recognized.
pub open spec fn classify(kinds: Seq<Seq<char>>) -> Option<CargoTargetType> {
    let st = kinds.contains("staticlib"@);
    let dy = kinds.contains("cdylib"@);
    if st || dy {
        Some(CargoTargetType::Library { has_staticlib: st, has_cdylib: dy })
    } else if kinds.contains("bin"@) {
        Some(CargoTargetType::Executable)
    } else {
        None
    }
}

/// A library type always produces at least one kind of library.
pub open spec fn type_wf(t: CargoTargetType) -> bool {
    t matches CargoTargetType::Library { has_staticlib, has_cdylib } ==> has_staticlib || has_cdylib
}

/// The artifacts that building a unit of type `t` produces on platform `p`, in the order in
/// which they are listed as byproducts.
pub open spec fn artifacts(t: CargoTargetType, p: Platform) -> Seq<Artifact> {
    match t {
        CargoTargetType::Library { has_staticlib, has_cdylib } => {
            let st = if has_staticlib { seq![Artifact::StaticLib] } else { seq![] };
            let dy = if has_cdylib { seq![Artifact::DynamicLib] } else { seq![] };
            let imp = if has_cdylib && p.windows() { seq![Artifact::ImportLib] } else { seq![] };
            let pdb = if has_cdylib && p.msvc() { seq![Artifact::DebugSymbols] } else { seq![] };
            st + dy + imp + pdb
        },
        CargoTargetType::Executable => {
            if p.msvc() {
                seq![Artifact::Executable, Artifact::DebugSymbols]
            } else {
                seq![Artifact::Executable]
            }
        },
    }
}

/// A name with every `-` replaced by `_`, as Cargo does for library file names.
pub open spec fn underscored(name: Seq<char>) -> Seq<char> {
    replaced(name, '-', '_')
}

/// The file name of artifact `a` of the unit called `name` on platform `p`.
pub open spec fn artifact_file_name(a: Artifact, name: Seq<char>, p: Platform) -> Seq<char> {
    let u = underscored(name);
    match a {
        Artifact::StaticLib => if p.msvc() {
            u + ".lib"@
        } else {
            "lib"@ + u + ".a"@
        },
        Artifact::DynamicLib => if p.windows() {
            u + ".dll"@
        } else if p.macos() {
            "lib"@ + u + ".dylib"@
        } else {
            "lib"@ + u + ".so"@
        },
        Artifact::ImportLib => if p.msvc() {
            u + ".dll.lib"@
        } else {
            "lib"@ + u + ".dll.a"@
        },
        Artifact::DebugSymbols => u + ".pdb"@,
        Artifact::Executable => if p.windows() {
            name + ".exe"@
        } else {
            name
        },
    }
}

/// The file names of the byproducts of a unit.
pub open spec fn byproduct_names(t: CargoTargetType, name: Seq<char>, p: Platform) -> Seq<Seq<char>> {
    artifacts(t, p).map_values(|a: Artifact| artifact_file_name(a, name, p))
}

/// Classifies a list of kind tags: a `staticlib` or `cdylib` tag makes a library, else a `bin`
/// tag makes an executable; any other list is not a unit of interest.
pub fn classify_kinds(kinds: &Vec<String>) -> (r: Option<CargoTargetType>)
    ensures
        r == classify(kinds.deep_view()),
        r matches Some(t) ==> type_wf(t),
{
    let st = contains_str(kinds, "staticlib");
    let dy = contains_str(kinds, "cdylib");
    if st || dy {
        Some(CargoTargetType::Library { has_staticlib: st, has_cdylib: dy })
    } else if contains_str(kinds, "bin") {
        Some(CargoTargetType::Executable)
    } else {
        None
    }
}

/// Replaces every `-` of a name by `_`.
pub fn underscore_name(name: &str) -> (r: String)
    ensures
        r@ == underscored(name@),
{
    proof {
        reveal_strlit("_");
    }
    replace_char(name, '-', "_")
}

/// Whether a unit of type `t` produces artifact `a` on platform `p`.
pub open spec fn produces(t: CargoTargetType, a: Artifact, p: Platform) -> bool {
    match t {
        CargoTargetType::Library { has_staticlib, has_cdylib } => match a {
            Artifact::StaticLib => has_staticlib,
            Artifact::DynamicLib => has_cdylib,
            Artifact::ImportLib => has_cdylib && p.windows(),
            Artifact::DebugSymbols => has_cdylib && p.msvc(),
            Artifact::Executable => false,
        },
        CargoTargetType::Executable => match a {
            Artifact::Executable => true,
            Artifact::DebugSymbols => p.msvc(),
            _ => false,
        },
    }
}

/// The byproduct list holds exactly the artifacts that a unit produces.
pub proof fn lemma_artifacts_are_produced(t: CargoTargetType, a: Artifact, p: Platform)
    ensures
        artifacts(t, p).contains(a) <==> produces(t, a, p),
{
    let s = artifacts(t, p);
    if produces(t, a, p) {
        let i = choose|i: int| 0 <= i < s.len() && s[i] == a;
        assert(exists|i: int| 0 <= i < s.len() && s[i] == a) by {
            match t {
                CargoTargetType::Library { has_staticlib, has_cdylib } => {
                    let st = if has_staticlib { 1int } else { 0int };
                    let dy = if has_cdylib { 1int } else { 0int };
                    let imp = if has_cdylib && p.windows() { 1int } else { 0int };
                    match a {
                        Artifact::StaticLib => assert(s[0] == a),
                        Artifact::DynamicLib => assert(s[st] == a),
                        Artifact::ImportLib => assert(s[st + dy] == a),
                        Artifact::DebugSymbols => assert(s[st + dy + imp] == a),
                        Artifact::Executable => {},
                    }
                },
                CargoTargetType::Executable => {
                    match a {
                        Artifact::Executable => assert(s[0] == a),
                        Artifact::DebugSymbols => assert(s[1] == a),
                        _ => {},
                    }
                },
            }
        }
    }
}

/// The file name of artifact `a` of the unit called `unit_name` on `platform`.
pub fn file_name_of(a: Artifact, unit_name: &str, platform: &Platform) -> (r: String)
    ensures
        r@ == artifact_file_name(a, unit_name@, *platform),
{
    let u = underscore_name(unit_name);
    match a {
        Artifact::StaticLib => if platform.is_msvc() {
            u.concat(".lib")
        } else {
            String::from_str("lib").concat(u.as_str()).concat(".a")
        },
        Artifact::DynamicLib => if platform.is_windows() {
            u.concat(".dll")
        } else if platform.is_macos() {
            String::from_str("lib").concat(u.as_str()).concat(".dylib")
        } else {
            String::from_str("lib").concat(u.as_str()).concat(".so")
        },
        Artifact::ImportLib => if platform.is_msvc() {
            u.concat(".dll.lib")
        } else {
            String::from_str("lib").concat(u.as_str()).concat(".dll.a")
        },
        Artifact::DebugSymbols => u.concat(".pdb"),
        Artifact::Executable => if platform.is_windows() {
            String::from_str(unit_name).concat(".exe")
        } else {
            String::from_str(unit_name)
        },
    }
}

impl CargoTarget {
    pub open spec fn wf(&self) -> bool {
        type_wf(self.target_type)
    }

    /// The unit of `package` that `target` describes; `None` when its kind tags name neither
    /// a library nor an executable.
    pub fn from_metadata(package: &Package, target: &TargetMetadata) -> (r: Option<CargoTarget>)
        ensures
            r is Some <==> classify(target.kind.deep_view()) is Some,
            r matches Some(u) ==> {
                &&& Some(u.target_type) == classify(target.kind.deep_view())
                &&& u.name@ == target.name@
                &&& u.package_name@ == package.name@
                &&& u.manifest_path@ == package.manifest_path@
                &&& u.wf()
            },
    {
        match classify_kinds(&target.kind) {
            Some(t) => Some(
                CargoTarget {
                    package_name: package.name.clone(),
                    manifest_path: package.manifest_path.clone(),
                    name: target.name.clone(),
                    target_type: t,
                },
            ),
            None => None,
        }
    }

    /// Whether this unit produces artifact `a` on `platform`.
    pub fn produces(&self, a: Artifact, platform: &Platform) -> (r: bool)
        ensures
            r == produces(self.target_type, a, *platform),
    {
        match self.target_type {
            CargoTargetType::Library { has_staticlib, has_cdylib } => match a {
                Artifact::StaticLib => has_staticlib,
                Artifact::DynamicLib => has_cdylib,
                Artifact::ImportLib => has_cdylib && platform.is_windows(),
                Artifact::DebugSymbols => has_cdylib && platform.is_msvc(),
                Artifact::Executable => false,
            },
            CargoTargetType::Executable => match a {
                Artifact::Executable => true,
                Artifact::DebugSymbols => platform.is_msvc(),
                _ => false,
            },
        }
    }

    /// The file name of artifact `a`, if this unit produces it on `platform`.
    pub fn artifact_name(&self, a: Artifact, platform: &Platform) -> (r: Option<String>)
        ensures
            r is Some <==> produces(self.target_type, a, *platform),
            r matches Some(s) ==> s@ == artifact_file_name(a, self.name@, *platform),
    {
        if self.produces(a, platform) {
            Some(file_name_of(a, self.name.as_str(), platform))
        } else {
            None
        }
    }

    /// The static library file: `{name}.lib` under MSVC, else `lib{name}.a`.
    pub fn static_lib_name(&self, platform: &Platform) -> (r: Option<String>)
        ensures
            r is Some <==> produces(self.target_type, Artifact::StaticLib, *platform),
            r matches Some(s) ==> s@ == artifact_file_name(Artifact::StaticLib, self.name@, *platform),
    {
        self.artifact_name(Artifact::StaticLib, platform)
    }

    /// The dynamic library file: `{name}.dll`, `lib{name}.dylib` or `lib{name}.so`.
    pub fn dynamic_lib_name(&self, platform: &Platform) -> (r: Option<String>)
        ensures
            r is Some <==> produces(self.target_type, Artifact::DynamicLib, *platform),
            r matches Some(s) ==> s@ == artifact_file_name(Artifact::DynamicLib, self.name@, *platform),
    {
        self.artifact_name(Artifact::DynamicLib, platform)
    }

    /// The import library of a dynamic library on Windows.
    pub fn implib_name(&self, platform: &Platform) -> (r: Option<String>)
        ensures
            r is Some <==> produces(self.target_type, Artifact::ImportLib, *platform),
            r matches Some(s) ==> s@ == artifact_file_name(Artifact::ImportLib, self.name@, *platform),
    {
        self.artifact_name(Artifact::ImportLib, platform)
    }

    /// The debug-symbol file of a dynamic library or an executable under MSVC.
    pub fn pdb_name(&self, platform: &Platform) -> (r: Option<String>)
        ensures
            r is Some <==> produces(self.target_type, Artifact::DebugSymbols, *platform),
            r matches Some(s) ==> s@ == artifact_file_name(Artifact::DebugSymbols, self.name@, *platform),
    {
        self.artifact_name(Artifact::DebugSymbols, platform)
    }

    /// The executable file: `{name}.exe` on Windows, else the bare name.
    pub fn exe_name(&self, platform: &Platform) -> (r: Option<String>)
        ensures
            r is Some <==> produces(self.target_type, Artifact::Executable, *platform),
            r matches Some(s) ==> s@ == artifact_file_name(Artifact::Executable, self.name@, *platform),
    {
        self.artifact_name(Artifact::Executable, platform)
    }

    /// The artifacts of this unit, in byproduct order.
    pub fn artifacts(&self, platform: &Platform) -> (r: Vec<Artifact>)
        ensures
            r@ == artifacts(self.target_type, *platform),
    {
        let mut r: Vec<Artifact> = Vec::new();
        match self.target_type {
            CargoTargetType::Library { has_staticlib, has_cdylib } => {
                if has_staticlib {
                    r.push(Artifact::StaticLib);
                }
                if has_cdylib {
                    r.push(Artifact::DynamicLib);
                }
                if has_cdylib && platform.is_windows() {
                    r.push(Artifact::ImportLib);
                }
                if has_cdylib && platform.is_msvc() {
                    r.push(Artifact::DebugSymbols);
                }
            },
            CargoTargetType::Executable => {
                r.push(Artifact::Executable);
                if platform.is_msvc() {
                    r.push(Artifact::DebugSymbols);
                }
            },
        }
        assert(r@ =~= artifacts(self.target_type, *platform));
        r
    }

    /// The file names of everything that building this unit leaves behind.
    pub fn byproducts(&self, platform: &Platform) -> (r: Vec<String>)
        ensures
            r.deep_view() == byproduct_names(self.target_type, self.name@, *platform),
    {
        let kinds = self.artifacts(platform);
        let mut r: Vec<String> = Vec::new();
        let mut i: usize = 0;
        while i < kinds.len()
            invariant
                i <= kinds.len(),
                kinds@ == artifacts(self.target_type, *platform),
                r.deep_view() =~= kinds@.subrange(0, i as int).map_values(
                    |a: Artifact| artifact_file_name(a, self.name@, *platform),
                ),
            decreases kinds.len() - i,
        {
            let f = file_name_of(kinds[i], self.name.as_str(), platform);
            let ghost prev = r.deep_view();
            r.push(f);
            assert(r.deep_view() =~= prev.push(f@));
            assert(kinds@.subrange(0, i + 1) =~= kinds@.subrange(0, i as int).push(kinds@[i as int]));
            i = i + 1;
        }
        assert(kinds@.subrange(0, i as int) =~= kinds@);
        r
    }
}

/// A unit whose kind tags are all `staticlib` is a static-only library, and on no platform
/// does it produce an import library or a debug-symbol file.
pub proof fn lemma_static_only_has_no_import_or_debug_artifacts(kinds: Seq<Seq<char>>, p: Platform)
    requires
        kinds.len() > 0,
        forall|i: int| 0 <= i < kinds.len() ==> kinds[i] == "staticlib"@,
    ensures
        classify(kinds) == Some(CargoTargetType::Library { has_staticlib: true, has_cdylib: false }),
        !artifacts(classify(kinds)->Some_0, p).contains(Artifact::ImportLib),
        !artifacts(classify(kinds)->Some_0, p).contains(Artifact::DebugSymbols),
        artifacts(classify(kinds)->Some_0, p) == seq![Artifact::StaticLib],
{
    reveal_strlit("staticlib");
    reveal_strlit("cdylib");
    reveal_strlit("bin");
    assert(kinds[0] == "staticlib"@);
    assert(!kinds.contains("cdylib"@)) by {
        if kinds.contains("cdylib"@) {
            let i = choose|i: int| 0 <= i < kinds.len() && kinds[i] == "cdylib"@;
            assert(kinds[i].len() != "cdylib"@.len());
        }
    }
    let t = CargoTargetType::Library { has_staticlib: true, has_cdylib: false };
    lemma_artifacts_are_produced(t, Artifact::ImportLib, p);
    lemma_artifacts_are_produced(t, Artifact::DebugSymbols, p);
    assert(artifacts(t, p) =~= seq![Artifact::StaticLib]);
}

/// Whether the package called `name` is selected: an empty selection selects every package.
pub open spec fn package_selected(name: Seq<char>, crates: Seq<Seq<char>>) -> bool {
    crates.len() == 0 || crates.contains(name)
}

/// The positions `(p, t)` of the recognized targets among `targets`, which belong to the
/// package at position `p`, in order.
pub open spec fn recognized(p: int, targets: Seq<TargetMetadata>) -> Seq<(int, int)>
    decreases targets.len(),
{
    if targets.len() == 0 {
        seq![]
    } else {
        let rest = recognized(p, targets.drop_last());
        if classify(targets.last().kind.deep_view()) is Some {
            rest.push((p, targets.len() - 1))
        } else {
            rest
        }
    }
}

/// The positions `(p, t)` of the units taken from the selected packages, in package order and
/// then target order.
pub open spec fn picks(packages: Seq<Package>, crates: Seq<Seq<char>>) -> Seq<(int, int)>
    decreases packages.len(),
{
    if packages.len() == 0 {
        seq![]
    } else {
        let p = packages.len() - 1;
        picks(packages.drop_last(), crates) + if package_selected(packages[p].name@, crates) {
            recognized(p, packages[p].targets@)
        } else {
            seq![]
        }
    }
}

/// Whether `u` is the unit that target `t` of package `p` describes.
pub open spec fn unit_from(u: CargoTarget, p: Package, t: TargetMetadata) -> bool {
    &&& Some(u.target_type) == classify(t.kind.deep_view())
    &&& u.name@ == t.name@
    &&& u.package_name@ == p.name@
    &&& u.manifest_path@ == p.manifest_path@
    &&& u.wf()
}

/// Whether `units` are, in order, the units at the positions `at` of `packages`.
pub open spec fn units_at(units: Seq<CargoTarget>, packages: Seq<Package>, at: Seq<(int, int)>) -> bool {
    &&& units.len() == at.len()
    &&& forall|k: int|
        0 <= k < units.len() ==> {
            let (p, t) = #[trigger] at[k];
            &&& 0 <= p < packages.len()
            &&& 0 <= t < packages[p].targets@.len()
            &&& unit_from(units[k], packages[p], packages[p].targets@[t])
        }
}

/// The units of the packages whose names `crates` lists (of every package when it lists none),
/// in package order and then target order; targets that are neither libraries nor executables
/// are left out.
pub fn select_targets(packages: &Vec<Package>, crates: &Vec<String>) -> (r: Vec<CargoTarget>)
    ensures
        units_at(r@, packages@, picks(packages@, crates.deep_view())),
{
    let mut r: Vec<CargoTarget> = Vec::new();
    let mut i: usize = 0;
    while i < packages.len()
        invariant
            i <= packages.len(),
            units_at(r@, packages@, picks(packages@.subrange(0, i as int), crates.deep_view())),
        decreases packages.len() - i,
    {
        let ghost done = picks(packages@.subrange(0, i as int), crates.deep_view());
        let package = &packages[i];
        proof {
            assert(packages@.subrange(0, i + 1).drop_last() =~= packages@.subrange(0, i as int));
            assert(packages@.subrange(0, i + 1)[i as int] == packages@[i as int]);
        }
        let selected = crates.len() == 0 || contains_str(crates, package.name.as_str());
        if selected {
            let mut j: usize = 0;
            while j < package.targets.len()
                invariant
                    i < packages.len(),
                    *package == packages@[i as int],
                    j <= package.targets.len(),
                    units_at(
                        r@,
                        packages@,
                        done + recognized(i as int, package.targets@.subrange(0, j as int)),
                    ),
                decreases package.targets.len() - j,
            {
                let ghost before = done + recognized(i as int, package.targets@.subrange(0, j as int));
                proof {
                    assert(package.targets@.subrange(0, j + 1).drop_last() =~= package.targets@.subrange(
                        0,
                        j as int,
                    ));
                    assert(package.targets@.subrange(0, j + 1).last() == package.targets@[j as int]);
                }
                match CargoTarget::from_metadata(package, &package.targets[j]) {
                    Some(u) => {
                        r.push(u);
                        assert(done + recognized(i as int, package.targets@.subrange(0, j + 1))
                            =~= before.push((i as int, j as int)));
                    },
                    None => {
                        assert(done + recognized(i as int, package.targets@.subrange(0, j + 1))
                            =~= before);
                    },
                }
                j = j + 1;
            }
            assert(package.targets@.subrange(0, j as int) =~= package.targets@);
        }
        assert(picks(packages@.subrange(0, i + 1), crates.deep_view()) =~= done + if selected {
            recognized(i as int, packages@[i as int].targets@)
        } else {
            seq![]
        });
        i = i + 1;
    }
    assert(packages@.subrange(0, i as int) =~= packages@);
    r
}

} // verus!
