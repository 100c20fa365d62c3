use corrosion_gen::bridge::{combine_result, make_new_val, make_result};
use corrosion_gen::cargo_build::{cargo_build_args, BuildRequest};
use corrosion_gen::target::{select_targets, CargoTargetType, Package, TargetMetadata};

fn package(name: &str, targets: &[(&str, &[&str])]) -> Package {
    Package {
        name: name.to_string(),
        manifest_path: format!("/ws/{}/Cargo.toml", name),
        targets: targets
            .iter()
            .map(|(n, kinds)| TargetMetadata {
                name: n.to_string(),
                kind: kinds.iter().map(|k| k.to_string()).collect(),
            })
            .collect(),
    }
}

#[test]
fn selection_keeps_order_and_skips_other_kinds() {
    let pkgs = vec![
        package("a", &[("a-lib", &["rlib"]), ("a-bin", &["bin"])]),
        package("b", &[("b-lib", &["staticlib", "rlib"]), ("b-test", &["test"])]),
    ];
    let all = select_targets(&pkgs, &vec![]);
    let names: Vec<&str> = all.iter().map(|u| u.name.as_str()).collect();
    assert_eq!(names, vec!["a-bin", "b-lib"]);
    assert_eq!(all[0].package_name, "a");
    assert_eq!(all[1].manifest_path, "/ws/b/Cargo.toml");
    assert_eq!(
        all[1].target_type,
        CargoTargetType::Library { has_staticlib: true, has_cdylib: false }
    );
    let only_b = select_targets(&pkgs, &vec!["b".to_string()]);
    assert_eq!(only_b.len(), 1);
    assert_eq!(only_b[0].name, "b-lib");
    assert!(select_targets(&pkgs, &vec!["c".to_string()]).is_empty());
}

#[test]
fn build_arguments() {
    let req = BuildRequest {
        target: "x86_64-unknown-linux-gnu".to_string(),
        package: "pkg".to_string(),
        manifest_path: "/ws/Cargo.toml".to_string(),
        features: vec!["f1".to_string(), "f2".to_string()],
        verbose: true,
        all_features: false,
        no_default_features: true,
        release: false,
        profile: Some("dev-opt".to_string()),
    };
    assert_eq!(
        cargo_build_args(&req),
        vec![
            "build",
            "--target",
            "x86_64-unknown-linux-gnu",
            "--features",
            "f1 f2",
            "--package",
            "pkg",
            "--manifest-path",
            "/ws/Cargo.toml",
            "--verbose",
            "--no-default-features",
            "--profile",
            "dev-opt",
        ]
    );
    let plain = BuildRequest { verbose: false, no_default_features: false, release: true, profile: None, features: vec![], ..req };
    assert_eq!(cargo_build_args(&plain)[4], "");
    assert_eq!(cargo_build_args(&plain).last().map(|s| s.as_str()), Some("--release"));
}

#[test]
fn bridge_values_combine() {
    let fresh = make_result("t0".to_string()).unwrap().ok.unwrap();
    assert!(fresh.value);
    assert_eq!(fresh.message, "t0");
    let v = make_new_val("t1".to_string());
    let combined = combine_result(Some(v), "t2".to_string()).unwrap().ok.unwrap();
    assert_eq!(combined.message, "t1");
    let fallback = combine_result(None, "t2".to_string()).unwrap().ok.unwrap();
    assert_eq!(fallback.message, "t2");
    assert!(fallback.value);
}
