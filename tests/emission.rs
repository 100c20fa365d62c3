use corrosion_gen::emit::{artifact_root, emit_document, ConfigurationContext};
use corrosion_gen::generate::{generate, GenerateError};
use corrosion_gen::platform::{find_target, Platform, ToolchainVersion};
use corrosion_gen::target::{select_targets, CargoTarget, Package, TargetMetadata};

fn package(name: &str, targets: &[(&str, &[&str])]) -> Package {
    Package {
        name: name.to_string(),
        manifest_path: format!("C:\\ws\\{}\\Cargo.toml", name),
        targets: targets
            .iter()
            .map(|(n, kinds)| TargetMetadata {
                name: n.to_string(),
                kind: kinds.iter().map(|k| k.to_string()).collect(),
            })
            .collect(),
    }
}

fn units(packages: &[Package]) -> Vec<CargoTarget> {
    select_targets(&packages.to_vec(), &vec![])
}

fn linux() -> Platform {
    Platform::from_rust_version_target(
        &ToolchainVersion::new(1, 60, 0),
        find_target("x86_64-unknown-linux-gnu"),
    )
}

#[test]
fn static_library_stream_on_linux() {
    let us = units(&[package("pkg", &[("my-lib", &["staticlib"])])]);
    let text = emit_document(
        &us,
        &linux(),
        None,
        true,
        &ConfigurationContext::Single(None),
        &vec!["/ws/target/x86_64-unknown-linux-gnu/debug".to_string()],
    );
    let expected = "cmake_minimum_required(VERSION 3.15)\n\
\n\
add_library(my-lib-static STATIC IMPORTED GLOBAL)\n\
add_dependencies(my-lib-static cargo-build_my-lib)\n\
set_property(TARGET my-lib-static PROPERTY INTERFACE_LINK_LIBRARIES dl rt pthread gcc_s c m util)\n\
add_library(my-lib INTERFACE)\n\
target_link_libraries(my-lib INTERFACE my-lib-static)\n\
_add_cargo_build(\n    PACKAGE \"pkg\"\n    TARGET \"my-lib\"\n    MANIFEST_PATH \"C:/ws/pkg/Cargo.toml\"\n    TARGET_KIND \"lib\"\n    BYPRODUCTS libmy_lib.a\n)\n\
\n\
\n\
set_property(TARGET my-lib-static PROPERTY IMPORTED_LOCATION \"/ws/target/x86_64-unknown-linux-gnu/debug/libmy_lib.a\")\n";
    assert_eq!(text, expected);
}

#[test]
fn both_library_kinds_defer_to_shared_switch() {
    let us = units(&[package("pkg", &[("both", &["staticlib", "cdylib"])])]);
    let p = Platform::from_rust_version_target(
        &ToolchainVersion::new(1, 60, 0),
        find_target("x86_64-pc-windows-msvc"),
    );
    let mut out = String::new();
    us[0].emit_cmake_target(&mut out, &p, Some("dev-opt"), false);
    assert!(out.contains("add_library(both-static STATIC IMPORTED GLOBAL)\n"));
    assert!(out.contains("add_library(both-shared SHARED IMPORTED GLOBAL)\n"));
    assert!(out.contains("add_dependencies(both-shared cargo-build_both)\n"));
    assert!(out.contains(
        "if (BUILD_SHARED_LIBS)\n    target_link_libraries(both INTERFACE both-shared)\nelse()\n    target_link_libraries(both INTERFACE both-static)\nendif()\n"
    ));
    assert!(out.contains("    PROFILE \"dev-opt\"\n"));
    assert!(out.contains("    BYPRODUCTS both.lib both.dll both.dll.lib both.pdb\n"));
    assert!(!out.contains("INTERFACE_LINK_LIBRARIES"));
}

#[test]
fn windows_msvc_default_libraries_per_configuration() {
    let us = units(&[package("pkg", &[("s", &["staticlib"])])]);
    let p = Platform::from_rust_version_target(
        &ToolchainVersion::new(1, 60, 0),
        find_target("x86_64-pc-windows-msvc"),
    );
    let mut out = String::new();
    us[0].emit_cmake_target(&mut out, &p, None, true);
    assert!(out.contains(
        "set_property(TARGET s-static PROPERTY INTERFACE_LINK_LIBRARIES advapi32 userenv ws2_32 bcrypt)\n"
    ));
    assert!(out.contains("set_property(TARGET s-static PROPERTY INTERFACE_LINK_LIBRARIES_DEBUG msvcrtd)\n"));
    assert!(out.contains("set_property(TARGET s-static PROPERTY INTERFACE_LINK_LIBRARIES_RELEASE msvcrt)\n"));
    assert!(out.contains("set_property(TARGET s-static PROPERTY INTERFACE_LINK_LIBRARIES_MINSIZEREL msvcrt)\n"));
    assert!(out.contains(
        "set_property(TARGET s-static PROPERTY INTERFACE_LINK_LIBRARIES_RELWITHDEBINFO msvcrt)\n"
    ));
}

#[test]
fn multi_configuration_locations_are_suffixed() {
    let us = units(&[package("pkg", &[("dyn-lib", &["cdylib"]), ("tool", &["bin"])])]);
    let p = Platform::from_rust_version_target(
        &ToolchainVersion::new(1, 60, 0),
        find_target("x86_64-pc-windows-msvc"),
    );
    let ctx = ConfigurationContext::Multi(vec!["Debug".to_string(), "Release".to_string()]);
    let roots = vec!["C:\\b\\Debug\\t".to_string(), "C:\\b\\Release\\t".to_string()];
    let text = emit_document(&us, &p, None, true, &ctx, &roots);
    let tail = "set_property(TARGET dyn-lib-shared PROPERTY IMPORTED_LOCATION_DEBUG \"C:/b/Debug/t/dyn_lib.dll\")\n\
set_property(TARGET dyn-lib-shared PROPERTY IMPORTED_IMPLIB_DEBUG \"C:/b/Debug/t/dyn_lib.dll.lib\")\n\
set_property(TARGET tool PROPERTY IMPORTED_LOCATION_DEBUG \"C:/b/Debug/t/tool.exe\")\n\
set_property(TARGET dyn-lib-shared PROPERTY IMPORTED_LOCATION_RELEASE \"C:/b/Release/t/dyn_lib.dll\")\n\
set_property(TARGET dyn-lib-shared PROPERTY IMPORTED_IMPLIB_RELEASE \"C:/b/Release/t/dyn_lib.dll.lib\")\n\
set_property(TARGET tool PROPERTY IMPORTED_LOCATION_RELEASE \"C:/b/Release/t/tool.exe\")\n";
    assert!(text.ends_with(tail));
    assert!(text.contains("add_executable(tool IMPORTED GLOBAL)\nadd_dependencies(tool cargo-build_tool)\n"));
}

#[test]
fn single_configuration_with_label_is_unqualified() {
    let us = units(&[package("pkg", &[("tool", &["bin"])])]);
    let ctx = ConfigurationContext::Single(Some("Release".to_string()));
    let text = emit_document(&us, &linux(), None, true, &ctx, &vec!["/r".to_string()]);
    assert!(text.ends_with("set_property(TARGET tool PROPERTY IMPORTED_LOCATION \"/r/tool\")\n"));
}

#[test]
fn every_location_follows_its_declaration() {
    let us = units(&[
        package("a", &[("one", &["staticlib", "cdylib"]), ("two", &["bin"])]),
        package("b", &[("three", &["cdylib"]), ("skip", &["rlib"])]),
    ]);
    let p = Platform::from_rust_version_target(
        &ToolchainVersion::new(1, 60, 0),
        find_target("x86_64-pc-windows-gnu"),
    );
    for labels in [vec!["Release", "Debug"], vec!["Debug", "Release"], vec!["MinSizeRel"]] {
        let ctx = ConfigurationContext::Multi(labels.iter().map(|l| l.to_string()).collect());
        let roots = labels.iter().map(|l| format!("/out/{}", l)).collect();
        let text = emit_document(&us, &p, None, true, &ctx, &roots);
        let lines: Vec<&str> = text.lines().collect();
        for (i, line) in lines.iter().enumerate() {
            if let Some(rest) = line.strip_prefix("set_property(TARGET ") {
                if rest.contains(" PROPERTY IMPORTED_") {
                    let target = rest.split(' ').next().unwrap();
                    let declared = lines[..i].iter().any(|l| {
                        l.starts_with(&format!("add_library({} ", target))
                            || l.starts_with(&format!("add_executable({} ", target))
                    });
                    assert!(declared, "{} bound before it was declared", target);
                }
            }
        }
        assert!(!text.contains("skip"));
    }
}

#[test]
fn identical_inputs_give_identical_text() {
    let make = || {
        let us = units(&[package("pkg", &[("x-y", &["staticlib", "cdylib"]), ("z", &["bin"])])]);
        let p = Platform::from_rust_version_target(
            &ToolchainVersion::new(1, 60, 0),
            find_target("x86_64-apple-darwin"),
        );
        let ctx = ConfigurationContext::Multi(vec!["Debug".to_string(), "Release".to_string()]);
        emit_document(&us, &p, Some("dev"), true, &ctx, &vec!["/d".to_string(), "/r".to_string()])
    };
    assert_eq!(make(), make());
}

#[test]
fn artifact_roots() {
    assert_eq!(
        artifact_root("/ws/target", "x86_64-unknown-linux-gnu", Some("RelWithDebInfo")),
        "/ws/target/x86_64-unknown-linux-gnu/release"
    );
    assert_eq!(artifact_root("/t", "t3", None), "/t/t3/debug");
}

#[test]
fn generation_checks_version_and_profile() {
    let pkgs = vec![package("pkg", &[("tool", &["bin"])])];
    let ctx = ConfigurationContext::Single(None);
    let roots = vec!["/r".to_string()];
    let bad = generate("1.x", "x86_64-unknown-linux-gnu", None, &pkgs, &vec![], false, &ctx, &roots);
    assert_eq!(bad.err(), Some(GenerateError::MalformedVersion));
    let old = generate("1.56.0", "x86_64-unknown-linux-gnu", Some("dev"), &pkgs, &vec![], false, &ctx, &roots);
    assert_eq!(old.err(), Some(GenerateError::ProfileUnsupported));
    let ok = generate("1.56.0", "x86_64-unknown-linux-gnu", None, &pkgs, &vec![], false, &ctx, &roots)
        .ok()
        .expect("generated");
    assert!(ok.target_recognized());
    assert!(ok.text.ends_with("set_property(TARGET tool PROPERTY IMPORTED_LOCATION \"/r/tool\")\n"));
    let unknown = generate("1.60.0", "no-such-target", Some("dev"), &pkgs, &vec![], false, &ctx, &roots)
        .ok()
        .expect("generated");
    assert!(!unknown.target_recognized());
}

#[test]
fn suppressed_default_libraries() {
    let pkgs = vec![package("pkg", &[("s", &["staticlib"])])];
    let ctx = ConfigurationContext::Single(None);
    let roots = vec!["/r".to_string()];
    let with = generate("1.60.0", "x86_64-unknown-linux-gnu", None, &pkgs, &vec![], false, &ctx, &roots)
        .ok()
        .unwrap();
    let without = generate("1.60.0", "x86_64-unknown-linux-gnu", None, &pkgs, &vec![], true, &ctx, &roots)
        .ok()
        .unwrap();
    assert!(with.text.contains("INTERFACE_LINK_LIBRARIES dl rt"));
    assert!(!without.text.contains("INTERFACE_LINK_LIBRARIES"));
}

#[test]
fn locations_with_a_given_suffix() {
    let us = units(&[package("pkg", &[("lib", &["staticlib"])])]);
    let mut out = String::new();
    us[0].emit_locations(&mut out, &linux(), "_CUSTOM", "C:\\out");
    assert_eq!(
        out,
        "set_property(TARGET lib-static PROPERTY IMPORTED_LOCATION_CUSTOM \"C:/out/liblib.a\")\n"
    );
    let mut multi = String::new();
    us[0].emit_cmake_config_info(&mut multi, &linux(), true, Some("RelWithDebInfo"), "/o");
    assert!(multi.contains("IMPORTED_LOCATION_RELWITHDEBINFO \"/o/liblib.a\""));
}

#[test]
fn configuration_context_queries() {
    let multi = ConfigurationContext::Multi(vec!["Debug".to_string(), "Release".to_string()]);
    assert_eq!(multi.len(), 2);
    assert!(multi.is_multi());
    assert_eq!(multi.label(1), Some("Release"));
    let single = ConfigurationContext::Single(None);
    assert_eq!(single.len(), 1);
    assert!(!single.is_multi());
    assert_eq!(single.label(0), None);
}
