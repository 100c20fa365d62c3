//! Directives of the generated CMake text, their rendering, and writers that append the
//! rendering of one directive to a string.

use vstd::prelude::*;
use crate::text::{join_spaced, spaced};

verus! {

/// One directive of the generated CMake text.
pub enum Directive {
    /// The version line that opens the stream.
    Header,
    /// An empty line.
    Blank,
    /// An imported static or shared library.
    ImportLibrary { target: Seq<char>, shared: bool },
    /// An imported executable.
    ImportExecutable { target: Seq<char> },
    /// Makes `target` depend on the target that runs the build.
    DependOn { target: Seq<char>, trigger: Seq<char> },
    /// Libraries that users of `target` link, for the configurations that `suffix` names.
    LinkLibraries { target: Seq<char>, suffix: Seq<char>, libs: Seq<Seq<char>> },
    /// The interface target that users of a library link.
    Interface { name: Seq<char> },
    /// Which of the imported libraries the interface target links.
    LinkChoice { name: Seq<char>, has_static: bool, has_dynamic: bool },
    /// The record of the build command that produces a unit.
    BuildRecord {
        package: Seq<char>,
        target: Seq<char>,
        manifest: Seq<char>,
        profile: Option<Seq<char>>,
        library: bool,
        byproducts: Seq<Seq<char>>,
    },
    /// Binds a file location property of an imported target.
    Locate { target: Seq<char>, property: Seq<char>, suffix: Seq<char>, path: Seq<char> },
}

/// The text of one directive.
pub open spec fn render(d: Directive) -> Seq<char> {
    match d {
        Directive::Header => "cmake_minimum_required(VERSION 3.15)\n"@,
        Directive::Blank => "\n"@,
        Directive::ImportLibrary { target, shared } => "add_library("@ + target + if shared {
            " SHARED IMPORTED GLOBAL)\n"@
        } else {
            " STATIC IMPORTED GLOBAL)\n"@
        },
        Directive::ImportExecutable { target } => "add_executable("@ + target
            + " IMPORTED GLOBAL)\n"@,
        Directive::DependOn { target, trigger } => "add_dependencies("@ + target + " "@ + trigger
            + ")\n"@,
        Directive::LinkLibraries { target, suffix, libs } => "set_property(TARGET "@ + target
            + " PROPERTY INTERFACE_LINK_LIBRARIES"@ + suffix + " "@ + spaced(libs) + ")\n"@,
        Directive::Interface { name } => "add_library("@ + name + " INTERFACE)\n"@,
        Directive::LinkChoice { name, has_static, has_dynamic } => if has_static && has_dynamic {
            "if (BUILD_SHARED_LIBS)\n    target_link_libraries("@ + name + " INTERFACE "@ + name
                + "-shared)\nelse()\n    target_link_libraries("@ + name + " INTERFACE "@ + name
                + "-static)\nendif()\n"@
        } else if has_dynamic {
            "target_link_libraries("@ + name + " INTERFACE "@ + name + "-shared)\n"@
        } else {
            "target_link_libraries("@ + name + " INTERFACE "@ + name + "-static)\n"@
        },
        Directive::BuildRecord { package, target, manifest, profile, library, byproducts } => {
            record_head(package, target, manifest) + profile_line(profile) + record_tail(
                library,
                byproducts,
            )
        },
        Directive::Locate { target, property, suffix, path } => "set_property(TARGET "@ + target
            + " PROPERTY "@ + property + suffix + " \""@ + path + "\")\n"@,
    }
}

/// The opening lines of a build record: package, unit and manifest.
pub open spec fn record_head(package: Seq<char>, target: Seq<char>, manifest: Seq<char>) -> Seq<
    char,
> {
    "_add_cargo_build(\n    PACKAGE \""@ + package + "\"\n    TARGET \""@ + target
        + "\"\n    MANIFEST_PATH \""@ + manifest + "\"\n"@
}

/// The closing lines of a build record: unit kind and byproducts.
pub open spec fn record_tail(library: bool, byproducts: Seq<Seq<char>>) -> Seq<char> {
    "    TARGET_KIND \""@ + if library {
        "lib"@
    } else {
        "bin"@
    } + "\"\n    BYPRODUCTS "@ + spaced(byproducts) + "\n)\n"@
}

/// The line that selects a build profile, if one is selected.
pub open spec fn profile_line(profile: Option<Seq<char>>) -> Seq<char> {
    match profile {
        Some(p) => "    PROFILE \""@ + p + "\"\n"@,
        None => seq![],
    }
}

/// The text of a sequence of directives.
pub open spec fn render_all(ds: Seq<Directive>) -> Seq<char>
    decreases ds.len(),
{
    if ds.len() == 0 {
        seq![]
    } else {
        render_all(ds.drop_last()) + render(ds.last())
    }
}

pub proof fn lemma_render_push(ds: Seq<Directive>, d: Directive)
    ensures
        render_all(ds.push(d)) == render_all(ds) + render(d),
{
    assert(ds.push(d).drop_last() =~= ds);
}

pub proof fn lemma_render_concat(a: Seq<Directive>, b: Seq<Directive>)
    ensures
        render_all(a + b) == render_all(a) + render_all(b),
    decreases b.len(),
{
    if b.len() == 0 {
        assert(a + b =~= a);
        assert(render_all(a) + render_all(b) =~= render_all(a));
    } else {
        assert((a + b).drop_last() =~= a + b.drop_last());
        lemma_render_concat(a, b.drop_last());
        assert(render_all(a + b) =~= render_all(a) + render_all(b));
    }
}

/// Appends `s` to `out`.
pub(crate) fn put(out: &mut String, s: &str)
    ensures
        final(out)@ == old(out)@ + s@,
{
    out.append(s);
}

/// A writer of directives: the text so far is `prefix` followed by the rendering of `ds`.
pub open spec fn writes(out: Seq<char>, prefix: Seq<char>, ds: Seq<Directive>) -> bool {
    out == prefix + render_all(ds)
}

pub(crate) fn emit_header(out: &mut String, Ghost(prefix): Ghost<Seq<char>>, Ghost(ds): Ghost<Seq<Directive>>)
    requires
        writes(old(out)@, prefix, ds),
    ensures
        writes(final(out)@, prefix, ds.push(Directive::Header)),
{
    put(out, "cmake_minimum_required(VERSION 3.15)\n");
    proof {
        lemma_render_push(ds, Directive::Header);
    }
    assert(out@ =~= prefix + render_all(ds.push(Directive::Header)));
}

pub(crate) fn emit_blank(out: &mut String, Ghost(prefix): Ghost<Seq<char>>, Ghost(ds): Ghost<Seq<Directive>>)
    requires
        writes(old(out)@, prefix, ds),
    ensures
        writes(final(out)@, prefix, ds.push(Directive::Blank)),
{
    put(out, "\n");
    proof {
        lemma_render_push(ds, Directive::Blank);
    }
    assert(out@ =~= prefix + render_all(ds.push(Directive::Blank)));
}

pub(crate) fn emit_import_library(
    out: &mut String,
    target: &str,
    shared: bool,
    Ghost(prefix): Ghost<Seq<char>>,
    Ghost(ds): Ghost<Seq<Directive>>,
)
    requires
        writes(old(out)@, prefix, ds),
    ensures
        writes(final(out)@, prefix, ds.push(Directive::ImportLibrary { target: target@, shared })),
{
    put(out, "add_library(");
    put(out, target);
    if shared {
        put(out, " SHARED IMPORTED GLOBAL)\n");
    } else {
        put(out, " STATIC IMPORTED GLOBAL)\n");
    }
    let ghost d = Directive::ImportLibrary { target: target@, shared };
    proof {
        lemma_render_push(ds, d);
    }
    assert(out@ =~= prefix + render_all(ds.push(d)));
}

pub(crate) fn emit_import_executable(
    out: &mut String,
    target: &str,
    Ghost(prefix): Ghost<Seq<char>>,
    Ghost(ds): Ghost<Seq<Directive>>,
)
    requires
        writes(old(out)@, prefix, ds),
    ensures
        writes(final(out)@, prefix, ds.push(Directive::ImportExecutable { target: target@ })),
{
    put(out, "add_executable(");
    put(out, target);
    put(out, " IMPORTED GLOBAL)\n");
    let ghost d = Directive::ImportExecutable { target: target@ };
    proof {
        lemma_render_push(ds, d);
    }
    assert(out@ =~= prefix + render_all(ds.push(d)));
}

pub(crate) fn emit_depend_on(
    out: &mut String,
    target: &str,
    trigger: &str,
    Ghost(prefix): Ghost<Seq<char>>,
    Ghost(ds): Ghost<Seq<Directive>>,
)
    requires
        writes(old(out)@, prefix, ds),
    ensures
        writes(
            final(out)@,
            prefix,
            ds.push(Directive::DependOn { target: target@, trigger: trigger@ }),
        ),
{
    put(out, "add_dependencies(");
    put(out, target);
    put(out, " ");
    put(out, trigger);
    put(out, ")\n");
    let ghost d = Directive::DependOn { target: target@, trigger: trigger@ };
    proof {
        lemma_render_push(ds, d);
    }
    assert(out@ =~= prefix + render_all(ds.push(d)));
}

pub(crate) fn emit_link_libraries(
    out: &mut String,
    target: &str,
    suffix: &str,
    libs: &Vec<String>,
    Ghost(prefix): Ghost<Seq<char>>,
    Ghost(ds): Ghost<Seq<Directive>>,
)
    requires
        writes(old(out)@, prefix, ds),
    ensures
        writes(
            final(out)@,
            prefix,
            ds.push(
                Directive::LinkLibraries {
                    target: target@,
                    suffix: suffix@,
                    libs: libs.deep_view(),
                },
            ),
        ),
{
    let joined = join_spaced(libs);
    put(out, "set_property(TARGET ");
    put(out, target);
    put(out, " PROPERTY INTERFACE_LINK_LIBRARIES");
    put(out, suffix);
    put(out, " ");
    put(out, joined.as_str());
    put(out, ")\n");
    let ghost d = Directive::LinkLibraries {
        target: target@,
        suffix: suffix@,
        libs: libs.deep_view(),
    };
    proof {
        lemma_render_push(ds, d);
    }
    assert(out@ =~= prefix + render_all(ds.push(d)));
}

pub(crate) fn emit_interface(
    out: &mut String,
    name: &str,
    Ghost(prefix): Ghost<Seq<char>>,
    Ghost(ds): Ghost<Seq<Directive>>,
)
    requires
        writes(old(out)@, prefix, ds),
    ensures
        writes(final(out)@, prefix, ds.push(Directive::Interface { name: name@ })),
{
    put(out, "add_library(");
    put(out, name);
    put(out, " INTERFACE)\n");
    let ghost d = Directive::Interface { name: name@ };
    proof {
        lemma_render_push(ds, d);
    }
    assert(out@ =~= prefix + render_all(ds.push(d)));
}

pub(crate) fn emit_link_choice(
    out: &mut String,
    name: &str,
    has_static: bool,
    has_dynamic: bool,
    Ghost(prefix): Ghost<Seq<char>>,
    Ghost(ds): Ghost<Seq<Directive>>,
)
    requires
        writes(old(out)@, prefix, ds),
    ensures
        writes(
            final(out)@,
            prefix,
            ds.push(Directive::LinkChoice { name: name@, has_static, has_dynamic }),
        ),
{
    if has_static && has_dynamic {
        put(out, "if (BUILD_SHARED_LIBS)\n    target_link_libraries(");
        put(out, name);
        put(out, " INTERFACE ");
        put(out, name);
        put(out, "-shared)\nelse()\n    target_link_libraries(");
        put(out, name);
        put(out, " INTERFACE ");
        put(out, name);
        put(out, "-static)\nendif()\n");
    } else if has_dynamic {
        put(out, "target_link_libraries(");
        put(out, name);
        put(out, " INTERFACE ");
        put(out, name);
        put(out, "-shared)\n");
    } else {
        put(out, "target_link_libraries(");
        put(out, name);
        put(out, " INTERFACE ");
        put(out, name);
        put(out, "-static)\n");
    }
    let ghost d = Directive::LinkChoice { name: name@, has_static, has_dynamic };
    proof {
        lemma_render_push(ds, d);
    }
    assert(out@ =~= prefix + render_all(ds.push(d)));
}

pub(crate) fn emit_locate(
    out: &mut String,
    target: &str,
    property: &str,
    suffix: &str,
    path: &str,
    Ghost(prefix): Ghost<Seq<char>>,
    Ghost(ds): Ghost<Seq<Directive>>,
)
    requires
        writes(old(out)@, prefix, ds),
    ensures
        writes(
            final(out)@,
            prefix,
            ds.push(
                Directive::Locate {
                    target: target@,
                    property: property@,
                    suffix: suffix@,
                    path: path@,
                },
            ),
        ),
{
    put(out, "set_property(TARGET ");
    put(out, target);
    put(out, " PROPERTY ");
    put(out, property);
    put(out, suffix);
    put(out, " \"");
    put(out, path);
    put(out, "\")\n");
    let ghost d = Directive::Locate {
        target: target@,
        property: property@,
        suffix: suffix@,
        path: path@,
    };
    proof {
        lemma_render_push(ds, d);
    }
    assert(out@ =~= prefix + render_all(ds.push(d)));
}

#[verifier::rlimit(50)]
pub(crate) fn emit_build_record(
    out: &mut String,
    package: &str,
    target: &str,
    manifest: &str,
    profile: Option<&str>,
    library: bool,
    byproducts: &Vec<String>,
    Ghost(prefix): Ghost<Seq<char>>,
    Ghost(ds): Ghost<Seq<Directive>>,
)
    requires
        writes(old(out)@, prefix, ds),
    ensures
        writes(
            final(out)@,
            prefix,
            ds.push(
                Directive::BuildRecord {
                    package: package@,
                    target: target@,
                    manifest: manifest@,
                    profile: opt_view(profile),
                    library,
                    byproducts: byproducts.deep_view(),
                },
            ),
        ),
{
    let joined = join_spaced(byproducts);
    let ghost start = out@;
    put(out, "_add_cargo_build(\n    PACKAGE \"");
    put(out, package);
    put(out, "\"\n    TARGET \"");
    put(out, target);
    put(out, "\"\n    MANIFEST_PATH \"");
    put(out, manifest);
    put(out, "\"\n");
    assert(out@ =~= start + record_head(package@, target@, manifest@));
    let ghost mid = out@;
    if let Some(p) = profile {
        put(out, "    PROFILE \"");
        put(out, p);
        put(out, "\"\n");
    }
    assert(out@ =~= mid + profile_line(opt_view(profile)));
    let ghost mid2 = out@;
    put(out, "    TARGET_KIND \"");
    if library {
        put(out, "lib");
    } else {
        put(out, "bin");
    }
    put(out, "\"\n    BYPRODUCTS ");
    put(out, joined.as_str());
    put(out, "\n)\n");
    assert(out@ =~= mid2 + record_tail(library, byproducts.deep_view()));
    let ghost d = Directive::BuildRecord {
        package: package@,
        target: target@,
        manifest: manifest@,
        profile: opt_view(profile),
        library,
        byproducts: byproducts.deep_view(),
    };
    proof {
        lemma_render_push(ds, d);
    }
    assert(out@ =~= prefix + render_all(ds.push(d)));
}

/// The view of an optional string.
pub open spec fn opt_view(o: Option<&str>) -> Option<Seq<char>> {
    match o {
        Some(s) => Some(s@),
        None => None,
    }
}

} // verus!
