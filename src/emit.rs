//! The two-phase directive stream: declarations of imported targets, then the locations of
//! their files for each configuration.

use vstd::prelude::*;
use crate::directive::{
    Directive, emit_blank, emit_depend_on, emit_header, emit_import_executable,
    emit_import_library, emit_interface, emit_link_choice, emit_link_libraries, emit_locate,
    emit_build_record, lemma_render_concat, opt_view, render_all, writes,
};
use crate::platform::Platform;
use crate::target::{
    Artifact, CargoTarget, CargoTargetType, artifact_file_name, byproduct_names, file_name_of,
};
use crate::text::{replace_char, replaced, upper_of, uppercase};

verus! {

/// The imported static library of the unit called `name`.
pub open spec fn static_target(name: Seq<char>) -> Seq<char> {
    name + "-static"@
}

/// The imported shared library of the unit called `name`.
pub open spec fn shared_target(name: Seq<char>) -> Seq<char> {
    name + "-shared"@
}

/// The target that runs the build of the unit called `name`.
pub open spec fn build_trigger(name: Seq<char>) -> Seq<char> {
    "cargo-build_"@ + name
}

/// The default libraries of `p`, attached to the static library `target`: the common ones,
/// those of debug builds, and those of each of the three release configurations.
pub open spec fn link_lib_directives(target: Seq<char>, p: Platform) -> Seq<Directive> {
    let libs = p.libs.deep_view();
    let dbg = p.libs_debug.deep_view();
    let rel = p.libs_release.deep_view();
    let common = if libs.len() > 0 {
        seq![Directive::LinkLibraries { target, suffix: seq![], libs }]
    } else {
        seq![]
    };
    let debug = if dbg.len() > 0 {
        seq![Directive::LinkLibraries { target, suffix: "_DEBUG"@, libs: dbg }]
    } else {
        seq![]
    };
    let release = if rel.len() > 0 {
        seq![
            Directive::LinkLibraries { target, suffix: "_RELEASE"@, libs: rel },
            Directive::LinkLibraries { target, suffix: "_MINSIZEREL"@, libs: rel },
            Directive::LinkLibraries { target, suffix: "_RELWITHDEBINFO"@, libs: rel },
        ]
    } else {
        seq![]
    };
    common + debug + release
}

/// The declarations of one unit: its imported targets, each depending on the unit's build
/// trigger, the interface target of a library, and the record of its build command.
pub open spec fn unit_declarations(
    u: CargoTarget,
    p: Platform,
    profile: Option<Seq<char>>,
    include_libs: bool,
) -> Seq<Directive> {
    let n = u.name@;
    let trigger = build_trigger(n);
    let head = match u.target_type {
        CargoTargetType::Library { has_staticlib, has_cdylib } => {
            let st = if has_staticlib {
                seq![
                    Directive::ImportLibrary { target: static_target(n), shared: false },
                    Directive::DependOn { target: static_target(n), trigger },
                ] + if include_libs {
                    link_lib_directives(static_target(n), p)
                } else {
                    seq![]
                }
            } else {
                seq![]
            };
            let dy = if has_cdylib {
                seq![
                    Directive::ImportLibrary { target: shared_target(n), shared: true },
                    Directive::DependOn { target: shared_target(n), trigger },
                ]
            } else {
                seq![]
            };
            st + dy + seq![
                Directive::Interface { name: n },
                Directive::LinkChoice { name: n, has_static: has_staticlib, has_dynamic: has_cdylib },
            ]
        },
        CargoTargetType::Executable => seq![
            Directive::ImportExecutable { target: n },
            Directive::DependOn { target: n, trigger },
        ],
    };
    head + seq![
        Directive::BuildRecord {
            package: u.package_name@,
            target: n,
            manifest: replaced(u.manifest_path@, '\\', '/'),
            profile,
            library: u.target_type is Library,
            byproducts: byproduct_names(u.target_type, n, p),
        },
        Directive::Blank,
    ]
}

fn emit_platform_libs(
    out: &mut String,
    target: &str,
    platform: &Platform,
    Ghost(prefix): Ghost<Seq<char>>,
    Ghost(ds): Ghost<Seq<Directive>>,
)
    requires
        writes(old(out)@, prefix, ds),
    ensures
        writes(final(out)@, prefix, ds + link_lib_directives(target@, *platform)),
{
    let ghost mut cur = ds;
    let ghost l = link_lib_directives(target@, *platform);
    let ghost libs = platform.libs.deep_view();
    let ghost dbg = platform.libs_debug.deep_view();
    let ghost rel = platform.libs_release.deep_view();
    let ghost common = if libs.len() > 0 {
        seq![Directive::LinkLibraries { target: target@, suffix: seq![], libs }]
    } else {
        seq![]
    };
    let ghost debug = if dbg.len() > 0 {
        seq![Directive::LinkLibraries { target: target@, suffix: "_DEBUG"@, libs: dbg }]
    } else {
        seq![]
    };
    proof {
        reveal_strlit("");
        assert(""@ =~= Seq::<char>::empty());
    }
    if platform.libs.len() > 0 {
        emit_link_libraries(out, target, "", &platform.libs, Ghost(prefix), Ghost(cur));
        proof {
            cur = cur.push(
                Directive::LinkLibraries {
                    target: target@,
                    suffix: ""@,
                    libs: platform.libs.deep_view(),
                },
            );
        }
    }
    assert(cur =~= ds + common);
    if platform.libs_debug.len() > 0 {
        emit_link_libraries(
            out,
            target,
            "_DEBUG",
            &platform.libs_debug,
            Ghost(prefix),
            Ghost(cur),
        );
        proof {
            cur = cur.push(
                Directive::LinkLibraries {
                    target: target@,
                    suffix: "_DEBUG"@,
                    libs: platform.libs_debug.deep_view(),
                },
            );
        }
    }
    assert(cur =~= ds + common + debug);
    if platform.libs_release.len() > 0 {
        emit_link_libraries(
            out,
            target,
            "_RELEASE",
            &platform.libs_release,
            Ghost(prefix),
            Ghost(cur),
        );
        proof {
            cur = cur.push(
                Directive::LinkLibraries {
                    target: target@,
                    suffix: "_RELEASE"@,
                    libs: platform.libs_release.deep_view(),
                },
            );
        }
        emit_link_libraries(
            out,
            target,
            "_MINSIZEREL",
            &platform.libs_release,
            Ghost(prefix),
            Ghost(cur),
        );
        proof {
            cur = cur.push(
                Directive::LinkLibraries {
                    target: target@,
                    suffix: "_MINSIZEREL"@,
                    libs: platform.libs_release.deep_view(),
                },
            );
        }
        emit_link_libraries(
            out,
            target,
            "_RELWITHDEBINFO",
            &platform.libs_release,
            Ghost(prefix),
            Ghost(cur),
        );
        proof {
            cur = cur.push(
                Directive::LinkLibraries {
                    target: target@,
                    suffix: "_RELWITHDEBINFO"@,
                    libs: platform.libs_release.deep_view(),
                },
            );
        }
    }
    assert(cur =~= ds + link_lib_directives(target@, *platform));
}

impl CargoTarget {
    /// Appends the declarations of this unit (the first phase of the stream) to `out`.
    pub fn emit_cmake_target(
        &self,
        out: &mut String,
        platform: &Platform,
        cargo_profile: Option<&str>,
        include_platform_libs: bool,
    )
        requires
            self.wf(),
        ensures
            final(out)@ == old(out)@ + render_all(
                unit_declarations(*self, *platform, opt_view(cargo_profile), include_platform_libs),
            ),
    {
        let ghost prefix = out@;
        let ghost mut ds: Seq<Directive> = seq![];
        assert(out@ =~= prefix + render_all(ds));
        let name = self.name.as_str();
        let trigger = String::from_str("cargo-build_").concat(name);
        match self.target_type {
            CargoTargetType::Library { has_staticlib, has_cdylib } => {
                if has_staticlib {
                    let st = String::from_str(name).concat("-static");
                    emit_import_library(out, st.as_str(), false, Ghost(prefix), Ghost(ds));
                    proof {
                        ds = ds.push(Directive::ImportLibrary { target: st@, shared: false });
                    }
                    emit_depend_on(out, st.as_str(), trigger.as_str(), Ghost(prefix), Ghost(ds));
                    proof {
                        ds = ds.push(Directive::DependOn { target: st@, trigger: trigger@ });
                    }
                    if include_platform_libs {
                        emit_platform_libs(out, st.as_str(), platform, Ghost(prefix), Ghost(ds));
                        proof {
                            ds = ds + link_lib_directives(st@, *platform);
                        }
                    }
                }
                if has_cdylib {
                    let sh = String::from_str(name).concat("-shared");
                    emit_import_library(out, sh.as_str(), true, Ghost(prefix), Ghost(ds));
                    proof {
                        ds = ds.push(Directive::ImportLibrary { target: sh@, shared: true });
                    }
                    emit_depend_on(out, sh.as_str(), trigger.as_str(), Ghost(prefix), Ghost(ds));
                    proof {
                        ds = ds.push(Directive::DependOn { target: sh@, trigger: trigger@ });
                    }
                }
                emit_interface(out, name, Ghost(prefix), Ghost(ds));
                proof {
                    ds = ds.push(Directive::Interface { name: name@ });
                }
                emit_link_choice(out, name, has_staticlib, has_cdylib, Ghost(prefix), Ghost(ds));
                proof {
                    ds = ds.push(
                        Directive::LinkChoice {
                            name: name@,
                            has_static: has_staticlib,
                            has_dynamic: has_cdylib,
                        },
                    );
                }
            },
            CargoTargetType::Executable => {
                emit_import_executable(out, name, Ghost(prefix), Ghost(ds));
                proof {
                    ds = ds.push(Directive::ImportExecutable { target: name@ });
                }
                emit_depend_on(out, name, trigger.as_str(), Ghost(prefix), Ghost(ds));
                proof {
                    ds = ds.push(Directive::DependOn { target: name@, trigger: trigger@ });
                }
            },
        }
        proof {
            reveal_strlit("/");
        }
        let manifest = replace_char(self.manifest_path.as_str(), '\\', "/");
        let byproducts = self.byproducts(platform);
        let library = match self.target_type {
            CargoTargetType::Library { .. } => true,
            CargoTargetType::Executable => false,
        };
        emit_build_record(
            out,
            self.package_name.as_str(),
            name,
            manifest.as_str(),
            cargo_profile,
            library,
            &byproducts,
            Ghost(prefix),
            Ghost(ds),
        );
        proof {
            ds = ds.push(
                Directive::BuildRecord {
                    package: self.package_name@,
                    target: name@,
                    manifest: manifest@,
                    profile: opt_view(cargo_profile),
                    library,
                    byproducts: byproducts.deep_view(),
                },
            );
        }
        emit_blank(out, Ghost(prefix), Ghost(ds));
        proof {
            ds = ds.push(Directive::Blank);
        }
        let ghost expected = unit_declarations(
            *self,
            *platform,
            opt_view(cargo_profile),
            include_platform_libs,
        );
        assert(ds =~= expected);
    }
}

/// The suffix of location properties: none in a single-configuration build, the upper-case
/// configuration name after `_` in a multi-configuration one.
pub open spec fn location_suffix(is_multi_config: bool, config_type: Option<Seq<char>>) -> Seq<
    char,
> {
    if is_multi_config {
        match config_type {
            Some(c) => "_"@ + upper_of(c),
            None => seq![],
        }
    } else {
        seq![]
    }
}

/// Where artifact `a` of the unit called `name` lies under the artifact root `root`.
pub open spec fn artifact_path(root: Seq<char>, a: Artifact, name: Seq<char>, p: Platform) -> Seq<
    char,
> {
    replaced(root, '\\', '/') + "/"@ + artifact_file_name(a, name, p)
}

/// The location bindings of one unit for one configuration.
pub open spec fn unit_locations(
    u: CargoTarget,
    p: Platform,
    suffix: Seq<char>,
    root: Seq<char>,
) -> Seq<Directive> {
    let n = u.name@;
    let loc = "IMPORTED_LOCATION"@;
    match u.target_type {
        CargoTargetType::Library { has_staticlib, has_cdylib } => {
            let st = if has_staticlib {
                seq![
                    Directive::Locate {
                        target: static_target(n),
                        property: loc,
                        suffix,
                        path: artifact_path(root, Artifact::StaticLib, n, p),
                    },
                ]
            } else {
                seq![]
            };
            let dy = if has_cdylib {
                seq![
                    Directive::Locate {
                        target: shared_target(n),
                        property: loc,
                        suffix,
                        path: artifact_path(root, Artifact::DynamicLib, n, p),
                    },
                ]
            } else {
                seq![]
            };
            let imp = if has_cdylib && p.windows() {
                seq![
                    Directive::Locate {
                        target: shared_target(n),
                        property: "IMPORTED_IMPLIB"@,
                        suffix,
                        path: artifact_path(root, Artifact::ImportLib, n, p),
                    },
                ]
            } else {
                seq![]
            };
            st + dy + imp
        },
        CargoTargetType::Executable => seq![
            Directive::Locate {
                target: n,
                property: loc,
                suffix,
                path: artifact_path(root, Artifact::Executable, n, p),
            },
        ],
    }
}

fn emit_unit_locations(
    out: &mut String,
    unit: &CargoTarget,
    platform: &Platform,
    suffix: &str,
    root: &str,
    Ghost(prefix): Ghost<Seq<char>>,
    Ghost(ds): Ghost<Seq<Directive>>,
)
    requires
        writes(old(out)@, prefix, ds),
    ensures
        writes(final(out)@, prefix, ds + unit_locations(*unit, *platform, suffix@, root@)),
{
    proof {
        reveal_strlit("/");
    }
    let base = replace_char(root, '\\', "/").concat("/");
    let ghost mut cur = ds;
    let name = unit.name.as_str();
    match unit.target_type {
        CargoTargetType::Library { has_staticlib, has_cdylib } => {
            if has_staticlib {
                let st = String::from_str(name).concat("-static");
                let path = base.clone().concat(
                    file_name_of(Artifact::StaticLib, name, platform).as_str(),
                );
                emit_locate(
                    out,
                    st.as_str(),
                    "IMPORTED_LOCATION",
                    suffix,
                    path.as_str(),
                    Ghost(prefix),
                    Ghost(cur),
                );
                proof {
                    cur = cur.push(
                        Directive::Locate {
                            target: st@,
                            property: "IMPORTED_LOCATION"@,
                            suffix: suffix@,
                            path: path@,
                        },
                    );
                }
            }
            if has_cdylib {
                let sh = String::from_str(name).concat("-shared");
                let path = base.clone().concat(
                    file_name_of(Artifact::DynamicLib, name, platform).as_str(),
                );
                emit_locate(
                    out,
                    sh.as_str(),
                    "IMPORTED_LOCATION",
                    suffix,
                    path.as_str(),
                    Ghost(prefix),
                    Ghost(cur),
                );
                proof {
                    cur = cur.push(
                        Directive::Locate {
                            target: sh@,
                            property: "IMPORTED_LOCATION"@,
                            suffix: suffix@,
                            path: path@,
                        },
                    );
                }
                if platform.is_windows() {
                    let implib = base.clone().concat(
                        file_name_of(Artifact::ImportLib, name, platform).as_str(),
                    );
                    emit_locate(
                        out,
                        sh.as_str(),
                        "IMPORTED_IMPLIB",
                        suffix,
                        implib.as_str(),
                        Ghost(prefix),
                        Ghost(cur),
                    );
                    proof {
                        cur = cur.push(
                            Directive::Locate {
                                target: sh@,
                                property: "IMPORTED_IMPLIB"@,
                                suffix: suffix@,
                                path: implib@,
                            },
                        );
                    }
                }
            }
        },
        CargoTargetType::Executable => {
            let path = base.clone().concat(
                file_name_of(Artifact::Executable, name, platform).as_str(),
            );
            emit_locate(
                out,
                name,
                "IMPORTED_LOCATION",
                suffix,
                path.as_str(),
                Ghost(prefix),
                Ghost(cur),
            );
            proof {
                cur = cur.push(
                    Directive::Locate {
                        target: name@,
                        property: "IMPORTED_LOCATION"@,
                        suffix: suffix@,
                        path: path@,
                    },
                );
            }
        },
    }
    assert(cur =~= ds + unit_locations(*unit, *platform, suffix@, root@));
}

/// The location suffix of a configuration, as a string.
fn suffix_of(is_multi_config: bool, config_type: Option<&str>) -> (r: String)
    ensures
        r@ == location_suffix(is_multi_config, opt_view(config_type)),
{
    if is_multi_config {
        match config_type {
            Some(c) => String::from_str("_").concat(uppercase(c).as_str()),
            None => String::new(),
        }
    } else {
        String::new()
    }
}

impl CargoTarget {
    /// Appends the location bindings of this unit for one configuration (the second phase of
    /// the stream) to `out`. `artifact_root` is the directory that holds the configuration's
    /// build outputs.
    pub fn emit_cmake_config_info(
        &self,
        out: &mut String,
        platform: &Platform,
        is_multi_config: bool,
        config_type: Option<&str>,
        artifact_root: &str,
    )
        ensures
            final(out)@ == old(out)@ + render_all(
                unit_locations(
                    *self,
                    *platform,
                    location_suffix(is_multi_config, opt_view(config_type)),
                    artifact_root@,
                ),
            ),
    {
        let suffix = suffix_of(is_multi_config, config_type);
        self.emit_locations(out, platform, suffix.as_str(), artifact_root);
    }

    /// Appends the location bindings of this unit for the configuration whose properties carry
    /// `suffix` and whose build outputs lie under `artifact_root`.
    pub fn emit_locations(&self, out: &mut String, platform: &Platform, suffix: &str, artifact_root: &str)
        ensures
            final(out)@ == old(out)@ + render_all(
                unit_locations(*self, *platform, suffix@, artifact_root@),
            ),
    {
        let ghost prefix = out@;
        let ghost none: Seq<Directive> = seq![];
        assert(out@ =~= prefix + render_all(none));
        emit_unit_locations(out, self, platform, suffix, artifact_root, Ghost(prefix), Ghost(none));
        assert(none + unit_locations(*self, *platform, suffix@, artifact_root@)
            =~= unit_locations(*self, *platform, suffix@, artifact_root@));
    }
}

/// The configurations that the downstream build offers.
#[derive(Clone, Debug)]
pub enum ConfigurationContext {
    /// One configuration at a time, optionally named.
    Single(Option<String>),
    /// Several configurations side by side, in this order.
    Multi(Vec<String>),
}

impl ConfigurationContext {
    pub open spec fn count(&self) -> nat {
        match self {
            ConfigurationContext::Single(_) => 1,
            ConfigurationContext::Multi(labels) => labels@.len(),
        }
    }

    /// The location suffix of each configuration, in order.
    pub open spec fn suffixes(&self) -> Seq<Seq<char>> {
        match self {
            ConfigurationContext::Single(_) => seq![seq![]],
            ConfigurationContext::Multi(labels) => Seq::new(
                labels@.len(),
                |i: int| location_suffix(true, Some(labels@[i]@)),
            ),
        }
    }

    /// The number of configurations.
    pub fn len(&self) -> (r: usize)
        ensures
            r == self.count(),
    {
        match self {
            ConfigurationContext::Single(_) => 1,
            ConfigurationContext::Multi(labels) => labels.len(),
        }
    }

    /// The name of configuration `i`, if it has one.
    pub fn label(&self, i: usize) -> (r: Option<&str>)
        requires
            i < self.count(),
        ensures
            self matches ConfigurationContext::Multi(labels) ==> opt_view(r) == Some(
                labels@[i as int]@,
            ),
            self matches ConfigurationContext::Single(l) ==> opt_view(r) == match l {
                Some(s) => Some(s@),
                None => None,
            },
    {
        match self {
            ConfigurationContext::Single(l) => match l {
                Some(s) => Some(s.as_str()),
                None => None,
            },
            ConfigurationContext::Multi(labels) => Some(labels[i].as_str()),
        }
    }

    /// Whether several configurations stand side by side.
    pub fn is_multi(&self) -> (r: bool)
        ensures
            r == (self is Multi),
    {
        match self {
            ConfigurationContext::Single(_) => false,
            ConfigurationContext::Multi(_) => true,
        }
    }
}

/// The configuration names that CMake knows by default.
pub open spec fn known_config_type(config_type: Option<Seq<char>>) -> bool {
    match config_type {
        None => true,
        Some(c) => c == "Debug"@ || c == "Release"@ || c == "RelWithDebInfo"@ || c
            == "MinSizeRel"@,
    }
}

/// The directory of Cargo's output that a configuration builds into.
pub open spec fn target_folder(config_type: Option<Seq<char>>) -> Seq<char> {
    match config_type {
        None => "debug"@,
        Some(c) => if c == "Debug"@ {
            "debug"@
        } else {
            "release"@
        },
    }
}

/// The Cargo output directory of a configuration: `debug` for `Debug` or none, `release` for
/// `Release`, `RelWithDebInfo` and `MinSizeRel`.
pub fn config_type_target_folder(config_type: Option<&str>) -> (r: &'static str)
    requires
        known_config_type(opt_view(config_type)),
    ensures
        r@ == target_folder(opt_view(config_type)),
{
    match config_type {
        None => "debug",
        Some(c) => if crate::text::str_eq(c, "Debug") {
            "debug"
        } else {
            "release"
        },
    }
}

/// The declarations of all units, in order.
pub open spec fn declarations(
    units: Seq<CargoTarget>,
    p: Platform,
    profile: Option<Seq<char>>,
    include_libs: bool,
) -> Seq<Directive>
    decreases units.len(),
{
    if units.len() == 0 {
        seq![]
    } else {
        declarations(units.drop_last(), p, profile, include_libs) + unit_declarations(
            units.last(),
            p,
            profile,
            include_libs,
        )
    }
}

/// The location bindings of all units for one configuration, in order.
pub open spec fn locations(units: Seq<CargoTarget>, p: Platform, suffix: Seq<char>, root: Seq<char>) -> Seq<Directive>
    decreases units.len(),
{
    if units.len() == 0 {
        seq![]
    } else {
        locations(units.drop_last(), p, suffix, root) + unit_locations(units.last(), p, suffix, root)
    }
}

/// The location bindings for each configuration in turn; configuration `k` has the location
/// suffix `suffixes[k]` and the artifact root `roots[k]`.
pub open spec fn config_locations(
    units: Seq<CargoTarget>,
    p: Platform,
    suffixes: Seq<Seq<char>>,
    roots: Seq<Seq<char>>,
) -> Seq<Directive>
    decreases suffixes.len(),
{
    if suffixes.len() == 0 {
        seq![]
    } else {
        config_locations(units, p, suffixes.drop_last(), roots) + locations(
            units,
            p,
            suffixes.last(),
            roots[suffixes.len() - 1],
        )
    }
}

/// The whole stream: the header, the declarations of every unit, then the location bindings
/// of every configuration.
pub open spec fn document(
    units: Seq<CargoTarget>,
    p: Platform,
    profile: Option<Seq<char>>,
    include_libs: bool,
    suffixes: Seq<Seq<char>>,
    roots: Seq<Seq<char>>,
) -> Seq<Directive> {
    seq![Directive::Header, Directive::Blank] + declarations(units, p, profile, include_libs)
        + seq![Directive::Blank] + config_locations(units, p, suffixes, roots)
}

/// Every unit of a library type produces some library.
pub open spec fn all_wf(units: Seq<CargoTarget>) -> bool {
    forall|i: int| 0 <= i < units.len() ==> #[trigger] units[i].wf()
}

/// Writes the whole directive stream for `units`: a header, the declarations of every unit,
/// then for each configuration of `ctx` the location bindings of every unit under that
/// configuration's artifact root `roots[k]`.
pub fn emit_document(
    units: &Vec<CargoTarget>,
    platform: &Platform,
    cargo_profile: Option<&str>,
    include_platform_libs: bool,
    ctx: &ConfigurationContext,
    roots: &Vec<String>,
) -> (r: String)
    requires
        all_wf(units@),
        roots.len() == ctx.count(),
    ensures
        r@ == render_all(
            document(
                units@,
                *platform,
                opt_view(cargo_profile),
                include_platform_libs,
                ctx.suffixes(),
                roots.deep_view(),
            ),
        ),
{
    let ghost profile = opt_view(cargo_profile);
    let mut out = String::new();
    let ghost prefix = out@;
    let ghost none: Seq<Directive> = seq![];
    assert(out@ =~= prefix + render_all(none));
    emit_header(&mut out, Ghost(prefix), Ghost(none));
    emit_blank(&mut out, Ghost(prefix), Ghost(none.push(Directive::Header)));
    let ghost head = seq![Directive::Header, Directive::Blank];
    assert(none.push(Directive::Header).push(Directive::Blank) =~= head);
    let mut i: usize = 0;
    while i < units.len()
        invariant
            i <= units.len(),
            all_wf(units@),
            profile == opt_view(cargo_profile),
            writes(
                out@,
                prefix,
                head + declarations(units@.subrange(0, i as int), *platform, profile, include_platform_libs),
            ),
        decreases units.len() - i,
    {
        let ghost before = head + declarations(units@.subrange(0, i as int), *platform, profile, include_platform_libs);
        let ghost unit = unit_declarations(units@[i as int], *platform, profile, include_platform_libs);
        assert(units@[i as int].wf());
        units[i].emit_cmake_target(&mut out, platform, cargo_profile, include_platform_libs);
        proof {
            lemma_render_concat(before, unit);
            assert(out@ =~= prefix + render_all(before + unit));
            assert(units@.subrange(0, i + 1).drop_last() =~= units@.subrange(0, i as int));
            assert(units@.subrange(0, i + 1).last() == units@[i as int]);
            assert(head + declarations(units@.subrange(0, i + 1), *platform, profile, include_platform_libs) =~= before + unit);
        }
        i = i + 1;
    }
    assert(units@.subrange(0, i as int) =~= units@);
    let ghost decl = head + declarations(units@, *platform, profile, include_platform_libs);
    emit_blank(&mut out, Ghost(prefix), Ghost(decl));
    let ghost first = decl.push(Directive::Blank);
    let ghost suffixes = ctx.suffixes();
    let is_multi = ctx.is_multi();
    let n = ctx.len();
    let mut k: usize = 0;
    while k < n
        invariant
            k <= n,
            n == ctx.count(),
            roots.len() == n,
            is_multi == (ctx is Multi),
            suffixes == ctx.suffixes(),
            suffixes.len() == n,
            writes(
                out@,
                prefix,
                first + config_locations(units@, *platform, suffixes.subrange(0, k as int), roots.deep_view()),
            ),
        decreases n - k,
    {
        let suffix = suffix_of(is_multi, ctx.label(k));
        assert(suffix@ == suffixes[k as int]);
        let ghost done = first + config_locations(units@, *platform, suffixes.subrange(0, k as int), roots.deep_view());
        let mut j: usize = 0;
        while j < units.len()
            invariant
                j <= units.len(),
                k < roots.len(),
                writes(
                    out@,
                    prefix,
                    done + locations(units@.subrange(0, j as int), *platform, suffix@, roots.deep_view()[k as int]),
                ),
            decreases units.len() - j,
        {
            let ghost cur = done + locations(units@.subrange(0, j as int), *platform, suffix@, roots.deep_view()[k as int]);
            emit_unit_locations(&mut out, &units[j], platform, suffix.as_str(), roots[k].as_str(), Ghost(prefix), Ghost(cur));
            proof {
                assert(units@.subrange(0, j + 1).last() == units@[j as int]);
                assert(units@.subrange(0, j + 1).drop_last() =~= units@.subrange(0, j as int));
                assert(done + locations(units@.subrange(0, j + 1), *platform, suffix@, roots.deep_view()[k as int])
                    =~= cur + unit_locations(units@[j as int], *platform, suffix@, roots.deep_view()[k as int]));
            }
            j = j + 1;
        }
        proof {
            assert(units@.subrange(0, j as int) =~= units@);
            assert(suffixes.subrange(0, k + 1).drop_last() =~= suffixes.subrange(0, k as int));
            assert(first + config_locations(units@, *platform, suffixes.subrange(0, k + 1), roots.deep_view())
                =~= done + locations(units@, *platform, suffix@, roots.deep_view()[k as int]));
        }
        k = k + 1;
    }
    proof {
        assert(suffixes.subrange(0, k as int) =~= suffixes);
        assert(first + config_locations(units@, *platform, suffixes, roots.deep_view()) =~= document(
            units@,
            *platform,
            profile,
            include_platform_libs,
            suffixes,
            roots.deep_view(),
        ));
        assert(out@ =~= render_all(document(units@, *platform, profile, include_platform_libs, suffixes, roots.deep_view())));
    }
    out
}

/// The artifact root of a configuration: Cargo's target directory, then the target triple,
/// then the configuration's output directory.
pub open spec fn artifact_root_of(
    target_directory: Seq<char>,
    triple: Seq<char>,
    config_type: Option<Seq<char>>,
) -> Seq<char> {
    target_directory + "/"@ + triple + "/"@ + target_folder(config_type)
}

/// The directory that holds the build outputs of a configuration.
pub fn artifact_root(target_directory: &str, triple: &str, config_type: Option<&str>) -> (r: String)
    requires
        known_config_type(opt_view(config_type)),
    ensures
        r@ == artifact_root_of(target_directory@, triple@, opt_view(config_type)),
{
    String::from_str(target_directory).concat("/").concat(triple).concat("/").concat(
        config_type_target_folder(config_type),
    )
}

} // verus!
