//! Laws of the directive stream: its phase ordering and its determinism.

use vstd::prelude::*;
use crate::directive::{Directive, render_all};
use crate::emit::{
    config_locations, declarations, document, link_lib_directives, locations, shared_target,
    static_target, unit_declarations, unit_locations, build_trigger,
};
use crate::platform::Platform;
use crate::target::{CargoTarget, CargoTargetType, artifacts, byproduct_names};

verus! {

/// Whether directive `d` declares the imported target `t`.
pub open spec fn declares(d: Directive, t: Seq<char>) -> bool {
    ||| d matches Directive::ImportLibrary { target, .. } && target == t
    ||| d matches Directive::ImportExecutable { target } && target == t
}

/// Whether some directive of `ds` declares `t`.
pub open spec fn declared_in(ds: Seq<Directive>, t: Seq<char>) -> bool {
    exists|j: int| 0 <= j < ds.len() && declares(ds[j], t)
}

/// Whether `ds` holds no location binding.
pub open spec fn no_locations(ds: Seq<Directive>) -> bool {
    forall|i: int| 0 <= i < ds.len() ==> !(#[trigger] ds[i] is Locate)
}

/// Whether every location binding of `ds` binds a target that `decls` declares.
pub open spec fn locations_declared(ds: Seq<Directive>, decls: Seq<Directive>) -> bool {
    forall|i: int|
        0 <= i < ds.len() && #[trigger] ds[i] is Locate ==> declared_in(decls, ds[i]->Locate_target)
}

proof fn lemma_declared_in_concat(a: Seq<Directive>, b: Seq<Directive>, t: Seq<char>)
    ensures
        declared_in(a, t) ==> declared_in(a + b, t),
        declared_in(b, t) ==> declared_in(a + b, t),
{
    if declared_in(a, t) {
        let j = choose|j: int| 0 <= j < a.len() && declares(a[j], t);
        assert((a + b)[j] == a[j]);
    }
    if declared_in(b, t) {
        let j = choose|j: int| 0 <= j < b.len() && declares(b[j], t);
        assert((a + b)[a.len() + j] == b[j]);
    }
}

proof fn lemma_no_locations_concat(a: Seq<Directive>, b: Seq<Directive>)
    requires
        no_locations(a),
        no_locations(b),
    ensures
        no_locations(a + b),
{
    assert forall|i: int| 0 <= i < (a + b).len() implies !((a + b)[i] is Locate) by {
        if i < a.len() {
            assert((a + b)[i] == a[i]);
        } else {
            assert((a + b)[i] == b[i - a.len()]);
        }
    }
}

proof fn lemma_locations_declared_concat(a: Seq<Directive>, b: Seq<Directive>, decls: Seq<Directive>)
    requires
        locations_declared(a, decls),
        locations_declared(b, decls),
    ensures
        locations_declared(a + b, decls),
{
    assert forall|i: int| 0 <= i < (a + b).len() && #[trigger] (a + b)[i] is Locate implies declared_in(
        decls,
        (a + b)[i]->Locate_target,
    ) by {
        if i < a.len() {
            assert((a + b)[i] == a[i]);
        } else {
            assert((a + b)[i] == b[i - a.len()]);
        }
    }
}

proof fn lemma_locations_declared_widen(ds: Seq<Directive>, a: Seq<Directive>, b: Seq<Directive>, left: bool)
    requires
        locations_declared(ds, if left { a } else { b }),
    ensures
        locations_declared(ds, a + b),
{
    assert forall|i: int| 0 <= i < ds.len() && #[trigger] ds[i] is Locate implies declared_in(
        a + b,
        ds[i]->Locate_target,
    ) by {
        lemma_declared_in_concat(a, b, ds[i]->Locate_target);
    }
}

proof fn lemma_unit_declarations_no_locations(
    u: CargoTarget,
    p: Platform,
    profile: Option<Seq<char>>,
    include_libs: bool,
)
    ensures
        no_locations(unit_declarations(u, p, profile, include_libs)),
{
    let ds = unit_declarations(u, p, profile, include_libs);
    let n = u.name@;
    let l = link_lib_directives(static_target(n), p);
    assert forall|i: int| 0 <= i < l.len() implies #[trigger] l[i] is LinkLibraries by {}
    assert forall|i: int| 0 <= i < ds.len() implies !(#[trigger] ds[i] is Locate) by {
        match u.target_type {
            CargoTargetType::Library { has_staticlib, has_cdylib } => {
                let lib = if include_libs { l } else { seq![] };
                let st = if has_staticlib {
                    seq![
                        Directive::ImportLibrary { target: static_target(n), shared: false },
                        Directive::DependOn { target: static_target(n), trigger: build_trigger(n) },
                    ] + lib
                } else {
                    seq![]
                };
                if has_staticlib && 2 <= i < 2 + lib.len() {
                    assert(ds[i] == lib[i - 2]);
                }
            },
            CargoTargetType::Executable => {},
        }
    }
}

proof fn lemma_unit_locations_declared(
    u: CargoTarget,
    p: Platform,
    profile: Option<Seq<char>>,
    include_libs: bool,
    suffix: Seq<char>,
    root: Seq<char>,
)
    ensures
        locations_declared(
            unit_locations(u, p, suffix, root),
            unit_declarations(u, p, profile, include_libs),
        ),
{
    let ds = unit_declarations(u, p, profile, include_libs);
    let ls = unit_locations(u, p, suffix, root);
    let n = u.name@;
    match u.target_type {
        CargoTargetType::Library { has_staticlib, has_cdylib } => {
            let lib = if include_libs { link_lib_directives(static_target(n), p) } else { seq![] };
            let st_len: int = if has_staticlib { 2 + lib.len() as int } else { 0int };
            if has_staticlib {
                assert(declares(ds[0], static_target(n)));
            }
            if has_cdylib {
                assert(declares(ds[st_len], shared_target(n)));
            }
            assert forall|i: int| 0 <= i < ls.len() && #[trigger] ls[i] is Locate implies declared_in(
                ds,
                ls[i]->Locate_target,
            ) by {
                let t = ls[i]->Locate_target;
                assert(t == static_target(n) || t == shared_target(n));
                if t == static_target(n) && has_staticlib {
                    assert(declares(ds[0], t));
                } else {
                    assert(declares(ds[st_len], t));
                }
            }
        },
        CargoTargetType::Executable => {
            assert(declares(ds[0], n));
        },
    }
}

proof fn lemma_declarations_no_locations(
    units: Seq<CargoTarget>,
    p: Platform,
    profile: Option<Seq<char>>,
    include_libs: bool,
)
    ensures
        no_locations(declarations(units, p, profile, include_libs)),
    decreases units.len(),
{
    if units.len() > 0 {
        lemma_declarations_no_locations(units.drop_last(), p, profile, include_libs);
        lemma_unit_declarations_no_locations(units.last(), p, profile, include_libs);
        lemma_no_locations_concat(
            declarations(units.drop_last(), p, profile, include_libs),
            unit_declarations(units.last(), p, profile, include_libs),
        );
    }
}

proof fn lemma_locations_declared(
    units: Seq<CargoTarget>,
    p: Platform,
    profile: Option<Seq<char>>,
    include_libs: bool,
    suffix: Seq<char>,
    root: Seq<char>,
)
    ensures
        locations_declared(
            locations(units, p, suffix, root),
            declarations(units, p, profile, include_libs),
        ),
    decreases units.len(),
{
    if units.len() > 0 {
        let front = units.drop_last();
        let decl_front = declarations(front, p, profile, include_libs);
        let decl_last = unit_declarations(units.last(), p, profile, include_libs);
        lemma_locations_declared(front, p, profile, include_libs, suffix, root);
        lemma_unit_locations_declared(units.last(), p, profile, include_libs, suffix, root);
        lemma_locations_declared_widen(locations(front, p, suffix, root), decl_front, decl_last, true);
        lemma_locations_declared_widen(
            unit_locations(units.last(), p, suffix, root),
            decl_front,
            decl_last,
            false,
        );
        lemma_locations_declared_concat(
            locations(front, p, suffix, root),
            unit_locations(units.last(), p, suffix, root),
            decl_front + decl_last,
        );
    }
}

proof fn lemma_config_locations_declared(
    units: Seq<CargoTarget>,
    p: Platform,
    profile: Option<Seq<char>>,
    include_libs: bool,
    suffixes: Seq<Seq<char>>,
    roots: Seq<Seq<char>>,
)
    ensures
        locations_declared(
            config_locations(units, p, suffixes, roots),
            declarations(units, p, profile, include_libs),
        ),
    decreases suffixes.len(),
{
    if suffixes.len() > 0 {
        lemma_config_locations_declared(units, p, profile, include_libs, suffixes.drop_last(), roots);
        lemma_locations_declared(
            units,
            p,
            profile,
            include_libs,
            suffixes.last(),
            roots[suffixes.len() - 1],
        );
        lemma_locations_declared_concat(
            config_locations(units, p, suffixes.drop_last(), roots),
            locations(units, p, suffixes.last(), roots[suffixes.len() - 1]),
            declarations(units, p, profile, include_libs),
        );
    }
}

/// Phase ordering: in the stream, every location binding comes after a declaration of the
/// target that it binds, whatever the units and whatever the configurations and their order.
pub proof fn lemma_locations_follow_declarations(
    units: Seq<CargoTarget>,
    p: Platform,
    profile: Option<Seq<char>>,
    include_libs: bool,
    suffixes: Seq<Seq<char>>,
    roots: Seq<Seq<char>>,
)
    ensures
        ({
            let doc = document(units, p, profile, include_libs, suffixes, roots);
            forall|i: int|
                0 <= i < doc.len() && #[trigger] doc[i] is Locate ==> exists|j: int|
                    0 <= j < i && declares(doc[j], doc[i]->Locate_target)
        }),
{
    let doc = document(units, p, profile, include_libs, suffixes, roots);
    let decls = declarations(units, p, profile, include_libs);
    let a = seq![Directive::Header, Directive::Blank] + decls + seq![Directive::Blank];
    let b = config_locations(units, p, suffixes, roots);
    assert(doc =~= a + b);
    lemma_declarations_no_locations(units, p, profile, include_libs);
    lemma_config_locations_declared(units, p, profile, include_libs, suffixes, roots);
    assert forall|i: int| 0 <= i < doc.len() && #[trigger] doc[i] is Locate implies exists|j: int|
        0 <= j < i && declares(doc[j], doc[i]->Locate_target) by {
        if i < a.len() {
            if 2 <= i < 2 + decls.len() {
                assert(doc[i] == decls[i - 2]);
            }
        } else {
            assert(doc[i] == b[i - a.len()]);
            let t = doc[i]->Locate_target;
            assert(declared_in(decls, t));
            let j = choose|j: int| 0 <= j < decls.len() && declares(decls[j], t);
            assert(doc[2 + j] == decls[j]);
        }
    }
}

/// Two units that agree in everything that the stream shows of them.
pub open spec fn same_unit(a: CargoTarget, b: CargoTarget) -> bool {
    &&& a.package_name@ == b.package_name@
    &&& a.manifest_path@ == b.manifest_path@
    &&& a.name@ == b.name@
    &&& a.target_type == b.target_type
}

pub open spec fn same_units(a: Seq<CargoTarget>, b: Seq<CargoTarget>) -> bool {
    a.len() == b.len() && forall|i: int| 0 <= i < a.len() ==> same_unit(#[trigger] a[i], b[i])
}

/// Two platform profiles with the same target and the same libraries.
pub open spec fn same_platform(p: Platform, q: Platform) -> bool {
    &&& p.cargo_target == q.cargo_target
    &&& p.libs.deep_view() == q.libs.deep_view()
    &&& p.libs_debug.deep_view() == q.libs_debug.deep_view()
    &&& p.libs_release.deep_view() == q.libs_release.deep_view()
}

proof fn lemma_same_unit_output(
    a: CargoTarget,
    b: CargoTarget,
    p: Platform,
    q: Platform,
    profile: Option<Seq<char>>,
    include_libs: bool,
    suffix: Seq<char>,
    root: Seq<char>,
)
    requires
        same_unit(a, b),
        same_platform(p, q),
    ensures
        unit_declarations(a, p, profile, include_libs) == unit_declarations(
            b,
            q,
            profile,
            include_libs,
        ),
        unit_locations(a, p, suffix, root) == unit_locations(b, q, suffix, root),
{
    let n = a.name@;
    assert(artifacts(a.target_type, p) =~= artifacts(b.target_type, q));
    assert(byproduct_names(a.target_type, n, p) =~= byproduct_names(b.target_type, n, q));
    assert(link_lib_directives(static_target(n), p) =~= link_lib_directives(static_target(n), q));
    assert(unit_declarations(a, p, profile, include_libs) =~= unit_declarations(
        b,
        q,
        profile,
        include_libs,
    ));
    assert(unit_locations(a, p, suffix, root) =~= unit_locations(b, q, suffix, root));
}

proof fn lemma_same_units_output(
    a: Seq<CargoTarget>,
    b: Seq<CargoTarget>,
    p: Platform,
    q: Platform,
    profile: Option<Seq<char>>,
    include_libs: bool,
    suffix: Seq<char>,
    root: Seq<char>,
)
    requires
        same_units(a, b),
        same_platform(p, q),
    ensures
        declarations(a, p, profile, include_libs) == declarations(b, q, profile, include_libs),
        locations(a, p, suffix, root) == locations(b, q, suffix, root),
    decreases a.len(),
{
    if a.len() > 0 {
        assert(same_units(a.drop_last(), b.drop_last()));
        lemma_same_units_output(a.drop_last(), b.drop_last(), p, q, profile, include_libs, suffix, root);
        assert(same_unit(a[a.len() - 1], b[b.len() - 1]));
        lemma_same_unit_output(a.last(), b.last(), p, q, profile, include_libs, suffix, root);
    }
}

proof fn lemma_same_config_locations(
    a: Seq<CargoTarget>,
    b: Seq<CargoTarget>,
    p: Platform,
    q: Platform,
    suffixes: Seq<Seq<char>>,
    roots: Seq<Seq<char>>,
)
    requires
        same_units(a, b),
        same_platform(p, q),
    ensures
        config_locations(a, p, suffixes, roots) == config_locations(b, q, suffixes, roots),
    decreases suffixes.len(),
{
    if suffixes.len() > 0 {
        lemma_same_config_locations(a, b, p, q, suffixes.drop_last(), roots);
        lemma_same_units_output(a, b, p, q, None, false, suffixes.last(), roots[suffixes.len() - 1]);
    }
}

/// Idempotence: the stream is a function of what it shows of the units, of the platform
/// profile, and of the options and configurations, so the same inputs give the same text,
/// character for character, on every run.
pub proof fn lemma_output_is_deterministic(
    a: Seq<CargoTarget>,
    b: Seq<CargoTarget>,
    p: Platform,
    q: Platform,
    profile: Option<Seq<char>>,
    include_libs: bool,
    suffixes: Seq<Seq<char>>,
    roots: Seq<Seq<char>>,
)
    requires
        same_units(a, b),
        same_platform(p, q),
    ensures
        render_all(document(a, p, profile, include_libs, suffixes, roots)) == render_all(
            document(b, q, profile, include_libs, suffixes, roots),
        ),
{
    lemma_same_units_output(a, b, p, q, profile, include_libs, seq![], seq![]);
    lemma_same_config_locations(a, b, p, q, suffixes, roots);
    assert(document(a, p, profile, include_libs, suffixes, roots) =~= document(
        b,
        q,
        profile,
        include_libs,
        suffixes,
        roots,
    ));
}

} // verus!
