use corrosion_gen::integrator::{link_instructions, split_list};

#[test]
fn colon_lists_split_like_str_split() {
    assert_eq!(split_list("a:b:c", ':'), vec!["a", "b", "c"]);
    assert_eq!(split_list("", ':'), vec![""]);
    assert_eq!(split_list("a::", ':'), vec!["a", "", ""]);
    assert_eq!(split_list("/usr/lib", ':'), vec!["/usr/lib"]);
}

#[test]
fn link_instructions_for_search_dirs_and_libraries() {
    assert_eq!(
        link_instructions(Some("/a:/b"), Some("foo:bar")),
        vec![
            "cargo:rustc-link-search=/a",
            "cargo:rustc-link-search=/b",
            "cargo:rustc-link-lib=foo",
            "cargo:rustc-link-lib=bar",
        ]
    );
    assert_eq!(link_instructions(None, Some("m")), vec!["cargo:rustc-link-lib=m"]);
    assert!(link_instructions(None, None).is_empty());
}
