use corrosion_gen::emit::config_type_target_folder;
use corrosion_gen::platform::{
    classify_target_cfg, find_target, Platform, TargetAbi, TargetOs, TargetSpec, ToolchainVersion,
    VersionError,
};

fn windows_libs(version: &str, triple: &str) -> Vec<String> {
    let v = ToolchainVersion::parse(version).expect("a valid version");
    Platform::from_rust_version_target(&v, find_target(triple)).libs
}

#[test]
fn legacy_windows_libraries_until_1_33() {
    let old = windows_libs("1.32.9", "x86_64-pc-windows-msvc");
    assert!(old.contains(&"shell32".to_string()));
    assert!(old.contains(&"kernel32".to_string()));
    let new = windows_libs("1.33.0", "x86_64-pc-windows-msvc");
    assert!(!new.contains(&"shell32".to_string()));
    assert!(!new.contains(&"kernel32".to_string()));
}

#[test]
fn bcrypt_from_1_57() {
    assert!(!windows_libs("1.56.9", "x86_64-pc-windows-msvc").contains(&"bcrypt".to_string()));
    assert!(windows_libs("1.57.0", "x86_64-pc-windows-msvc").contains(&"bcrypt".to_string()));
    assert!(!windows_libs("1.57.0-beta.1", "x86_64-pc-windows-msvc")
        .contains(&"bcrypt".to_string()));
}

#[test]
fn full_windows_tables() {
    assert_eq!(
        windows_libs("1.60.0", "x86_64-pc-windows-msvc"),
        vec!["advapi32", "userenv", "ws2_32", "bcrypt"]
    );
    assert_eq!(
        windows_libs("1.30.0", "x86_64-pc-windows-gnu"),
        vec!["advapi32", "userenv", "ws2_32", "gcc_eh", "pthread", "shell32", "kernel32"]
    );
    let v = ToolchainVersion::new(1, 60, 0);
    let msvc = Platform::from_rust_version_target(&v, find_target("x86_64-pc-windows-msvc"));
    assert_eq!(msvc.libs_debug, vec!["msvcrtd"]);
    assert_eq!(msvc.libs_release, vec!["msvcrt"]);
    let gnu = Platform::from_rust_version_target(&v, find_target("x86_64-pc-windows-gnu"));
    assert!(gnu.libs_debug.is_empty());
    assert!(gnu.libs_release.is_empty());
}

#[test]
fn unix_tables_and_unknown_targets() {
    assert_eq!(
        windows_libs("1.60.0", "x86_64-apple-darwin"),
        vec!["System", "resolv", "c", "m"]
    );
    assert_eq!(
        windows_libs("1.60.0", "x86_64-unknown-linux-gnu"),
        vec!["dl", "rt", "pthread", "gcc_s", "c", "m", "util"]
    );
    assert!(windows_libs("1.60.0", "x86_64-unknown-freebsd").is_empty());
    let unknown = Platform::from_rust_version_target(
        &ToolchainVersion::new(1, 60, 0),
        find_target("no-such-target"),
    );
    assert!(unknown.libs.is_empty());
    assert!(!unknown.is_windows());
}

#[test]
fn target_lookup() {
    assert_eq!(
        find_target("x86_64-pc-windows-msvc"),
        Some(TargetSpec { os: TargetOs::Windows, abi: TargetAbi::Msvc })
    );
    assert_eq!(
        find_target("x86_64-pc-windows-gnu"),
        Some(TargetSpec { os: TargetOs::Windows, abi: TargetAbi::Gnu })
    );
    assert_eq!(find_target("x86_64-apple-darwin").map(|t| t.os), Some(TargetOs::MacOs));
    assert_eq!(find_target("x86_64-unknown-linux-gnu").map(|t| t.os), Some(TargetOs::Linux));
    assert_eq!(find_target("x86_64-unknown-freebsd").map(|t| t.os), Some(TargetOs::Other));
    assert_eq!(find_target("no-such-target"), None);
}

#[test]
fn platform_predicates() {
    let v = ToolchainVersion::new(1, 60, 0);
    let msvc = Platform::from_rust_version_target(&v, find_target("x86_64-pc-windows-msvc"));
    let gnu = Platform::from_rust_version_target(&v, find_target("x86_64-pc-windows-gnu"));
    let mac = Platform::from_rust_version_target(&v, find_target("x86_64-apple-darwin"));
    assert!(msvc.is_windows() && msvc.is_msvc() && !msvc.is_windows_gnu() && !msvc.is_macos());
    assert!(gnu.is_windows() && !gnu.is_msvc() && gnu.is_windows_gnu());
    assert!(mac.is_macos() && !mac.is_windows());
}

#[test]
fn version_parsing() {
    let v = ToolchainVersion::parse("1.57.0-nightly").expect("valid");
    assert_eq!((v.major, v.minor, v.patch), (1, 57, 0));
    assert_eq!(v.pre, "nightly");
    assert!(v.is_before(1, 57, 0));
    assert!(!ToolchainVersion::parse("1.57.0").unwrap().is_before(1, 57, 0));
    assert!(ToolchainVersion::parse("1.56.9").unwrap().is_before(1, 57, 0));
    assert_eq!(ToolchainVersion::parse("1.57").err(), Some(VersionError::Malformed));
    assert_eq!(ToolchainVersion::parse("not a version").err(), Some(VersionError::Malformed));
}

#[test]
fn configuration_folders() {
    assert_eq!(config_type_target_folder(None), "debug");
    assert_eq!(config_type_target_folder(Some("Debug")), "debug");
    assert_eq!(config_type_target_folder(Some("Release")), "release");
    assert_eq!(config_type_target_folder(Some("RelWithDebInfo")), "release");
    assert_eq!(config_type_target_folder(Some("MinSizeRel")), "release");
}

#[test]
fn target_classification_from_cfg_values() {
    assert_eq!(
        classify_target_cfg("windows", "msvc"),
        TargetSpec { os: TargetOs::Windows, abi: TargetAbi::Msvc }
    );
    assert_eq!(
        classify_target_cfg("macos", ""),
        TargetSpec { os: TargetOs::MacOs, abi: TargetAbi::Other }
    );
    assert_eq!(
        classify_target_cfg("freebsd", "gnu"),
        TargetSpec { os: TargetOs::Other, abi: TargetAbi::Gnu }
    );
}
