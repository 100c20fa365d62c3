use corrosion_gen::platform::{find_target, Platform, ToolchainVersion};
use corrosion_gen::target::{
    classify_kinds, underscore_name, Artifact, CargoTarget, CargoTargetType, Package,
    TargetMetadata,
};

fn platform(triple: &str) -> Platform {
    Platform::from_rust_version_target(&ToolchainVersion::new(1, 60, 0), find_target(triple))
}

fn unit(name: &str, kinds: &[&str]) -> CargoTarget {
    let package = Package {
        name: "pkg".to_string(),
        manifest_path: "/ws/pkg/Cargo.toml".to_string(),
        targets: vec![],
    };
    let target = TargetMetadata {
        name: name.to_string(),
        kind: kinds.iter().map(|k| k.to_string()).collect(),
    };
    CargoTarget::from_metadata(&package, &target).expect("a recognized unit")
}

#[test]
fn windows_msvc_names_of_a_dashed_library() {
    let p = platform("x86_64-pc-windows-msvc");
    let u = unit("my-crate", &["staticlib", "cdylib"]);
    assert_eq!(u.static_lib_name(&p).as_deref(), Some("my_crate.lib"));
    assert_eq!(u.dynamic_lib_name(&p).as_deref(), Some("my_crate.dll"));
    assert_eq!(u.implib_name(&p).as_deref(), Some("my_crate.dll.lib"));
    assert_eq!(u.pdb_name(&p).as_deref(), Some("my_crate.pdb"));
    assert_eq!(u.exe_name(&p), None);
}

#[test]
fn windows_gnu_names() {
    let p = platform("x86_64-pc-windows-gnu");
    let u = unit("my-crate", &["staticlib", "cdylib"]);
    assert_eq!(u.static_lib_name(&p).as_deref(), Some("libmy_crate.a"));
    assert_eq!(u.dynamic_lib_name(&p).as_deref(), Some("my_crate.dll"));
    assert_eq!(u.implib_name(&p).as_deref(), Some("libmy_crate.dll.a"));
    assert_eq!(u.pdb_name(&p), None);
}

#[test]
fn macos_and_linux_names() {
    let mac = platform("x86_64-apple-darwin");
    let linux = platform("x86_64-unknown-linux-gnu");
    let u = unit("my-crate", &["staticlib", "cdylib"]);
    assert_eq!(u.static_lib_name(&mac).as_deref(), Some("libmy_crate.a"));
    assert_eq!(u.dynamic_lib_name(&mac).as_deref(), Some("libmy_crate.dylib"));
    assert_eq!(u.implib_name(&mac), None);
    assert_eq!(u.dynamic_lib_name(&linux).as_deref(), Some("libmy_crate.so"));
    assert_eq!(u.implib_name(&linux), None);
    assert_eq!(u.pdb_name(&linux), None);
}

#[test]
fn executable_names() {
    let u = unit("my-tool", &["bin"]);
    let msvc = platform("x86_64-pc-windows-msvc");
    let linux = platform("x86_64-unknown-linux-gnu");
    assert_eq!(u.exe_name(&msvc).as_deref(), Some("my-tool.exe"));
    assert_eq!(u.pdb_name(&msvc).as_deref(), Some("my_tool.pdb"));
    assert_eq!(u.exe_name(&linux).as_deref(), Some("my-tool"));
    assert_eq!(u.byproducts(&msvc), vec!["my-tool.exe", "my_tool.pdb"]);
    assert_eq!(u.byproducts(&linux), vec!["my-tool"]);
}

#[test]
fn static_only_unit_has_no_import_or_debug_byproduct() {
    let u = unit("my-crate", &["staticlib"]);
    for triple in [
        "x86_64-pc-windows-msvc",
        "x86_64-pc-windows-gnu",
        "x86_64-apple-darwin",
        "x86_64-unknown-linux-gnu",
        "not-a-triple",
    ] {
        let p = platform(triple);
        assert_eq!(u.implib_name(&p), None);
        assert_eq!(u.pdb_name(&p), None);
        assert_eq!(u.artifacts(&p), vec![Artifact::StaticLib]);
        assert_eq!(u.byproducts(&p).len(), 1);
    }
}

#[test]
fn byproducts_of_a_windows_msvc_library() {
    let p = platform("x86_64-pc-windows-msvc");
    let u = unit("my-crate", &["staticlib", "cdylib", "rlib"]);
    assert_eq!(
        u.byproducts(&p),
        vec!["my_crate.lib", "my_crate.dll", "my_crate.dll.lib", "my_crate.pdb"]
    );
}

#[test]
fn classification_of_kind_tags() {
    let tags = |t: &[&str]| t.iter().map(|k| k.to_string()).collect::<Vec<_>>();
    assert_eq!(
        classify_kinds(&tags(&["staticlib"])),
        Some(CargoTargetType::Library { has_staticlib: true, has_cdylib: false })
    );
    assert_eq!(
        classify_kinds(&tags(&["cdylib", "bin"])),
        Some(CargoTargetType::Library { has_staticlib: false, has_cdylib: true })
    );
    assert_eq!(classify_kinds(&tags(&["bin"])), Some(CargoTargetType::Executable));
    assert_eq!(classify_kinds(&tags(&["rlib", "proc-macro"])), None);
    assert_eq!(classify_kinds(&tags(&[])), None);
}

#[test]
fn dashes_become_underscores() {
    assert_eq!(underscore_name("a-b-c"), "a_b_c");
    assert_eq!(underscore_name("plain"), "plain");
    assert_eq!(underscore_name(""), "");
}
