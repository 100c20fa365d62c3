use corrosion_gen::linker::{linker_environment, select_linker_language, LinkerPreference};

fn lang(name: &str, preference: Option<i32>) -> LinkerPreference {
    LinkerPreference {
        language: name.to_string(),
        preference,
        compiler: Some(format!("/usr/bin/{}-driver", name.to_lowercase())),
        compiler_target: None,
    }
}

#[test]
fn highest_preference_wins() {
    let langs = vec![lang("C", Some(1)), lang("CXX", Some(5))];
    assert_eq!(select_linker_language(&langs), Some(1));
    let env = linker_environment("x86_64-unknown-linux-gnu", "", &langs, "");
    let o = env.linker.expect("an override");
    assert_eq!(o.key, "CARGO_TARGET_X86_64_UNKNOWN_LINUX_GNU_LINKER");
    assert_eq!(o.driver, "/usr/bin/cxx-driver");
}

#[test]
fn without_preferences_the_first_wins() {
    let langs = vec![lang("C", None), lang("CXX", None)];
    assert_eq!(select_linker_language(&langs), Some(0));
    assert_eq!(
        linker_environment("t", "", &langs, "").linker.map(|o| o.driver),
        Some("/usr/bin/c-driver".to_string())
    );
}

#[test]
fn ties_keep_the_earliest() {
    let langs = vec![lang("A", Some(3)), lang("B", Some(3)), lang("C", None)];
    assert_eq!(select_linker_language(&langs), Some(0));
    let langs = vec![lang("A", None), lang("B", Some(-2)), lang("C", Some(-2))];
    assert_eq!(select_linker_language(&langs), Some(1));
    assert_eq!(select_linker_language(&vec![]), None);
}

#[test]
fn cross_target_follows_default_flag() {
    let mut c = lang("C", Some(1));
    c.compiler_target = Some("aarch64-linux-gnu".to_string());
    let env = linker_environment("aarch64-unknown-linux-gnu", "-Copt-level=2", &vec![c], "");
    assert_eq!(
        env.rustflags.as_deref(),
        Some("-Copt-level=2 -Cdefault-linker-libraries=yes -Clink-args=--target=aarch64-linux-gnu")
    );
}

#[test]
fn raw_link_arguments_come_last_and_flags_are_trimmed() {
    let mut c = lang("C", None);
    c.compiler = None;
    c.compiler_target = Some("t2".to_string());
    let env = linker_environment("t", "", &vec![c], "-lfoo");
    assert_eq!(
        env.rustflags.as_deref(),
        Some("-Cdefault-linker-libraries=yes -Clink-args=--target=t2 -Clink-args=-lfoo")
    );
    assert!(env.linker.is_none());
}

#[test]
fn no_languages_sets_nothing() {
    let env = linker_environment("t", "-Cfoo", &vec![], "-lbar");
    assert!(env.rustflags.is_none());
    assert!(env.linker.is_none());
}

#[test]
fn untrimmed_flags_keep_the_leading_space() {
    let langs = vec![lang("C", None)];
    assert_eq!(
        corrosion_gen::linker::raw_linker_flags("", &langs, ""),
        " -Cdefault-linker-libraries=yes"
    );
    assert_eq!(
        linker_environment("t", "  ", &langs, "").rustflags.as_deref(),
        Some("-Cdefault-linker-libraries=yes")
    );
}
