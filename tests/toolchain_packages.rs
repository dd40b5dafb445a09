use pacdef::rustup::{Package, PackageError, Repotype, RustupPackage};

fn package(name: &str, repo: Option<&str>) -> Package {
    Package {
        name: name.to_string(),
        repo: repo.map(|r| r.to_string()),
    }
}

#[test]
fn toolchain_derivation() {
    let p = RustupPackage::try_from(&package("stable", Some("toolchain"))).unwrap();
    assert_eq!(p.repotype, Repotype::Toolchain);
    assert_eq!(p.toolchain, "stable");
    assert_eq!(p.component, None);
}

#[test]
fn component_derivation() {
    let p = RustupPackage::try_from(&package("nightly/rust-src", Some("component"))).unwrap();
    assert_eq!(p.repotype, Repotype::Component);
    assert_eq!(p.toolchain, "nightly");
    assert_eq!(p.component, Some("rust-src".to_string()));
}

#[test]
fn component_without_slash_is_malformed() {
    let r = RustupPackage::try_from(&package("nightly-rust-src", Some("component")));
    match r {
        Err(PackageError::MalformedComponentName { name }) => assert_eq!(name, "nightly-rust-src"),
        other => panic!("unexpected {:?}", other),
    }
}

#[test]
fn component_with_two_slashes_is_malformed() {
    let r = RustupPackage::try_from(&package("nightly/rust/src", Some("component")));
    assert!(matches!(r, Err(PackageError::MalformedComponentName { .. })));
    let r = RustupPackage::try_from(&package("/rust-src", Some("component")));
    assert!(matches!(r, Err(PackageError::MalformedComponentName { .. })));
}

#[test]
fn unknown_repo_is_invalid_repotype() {
    let r = RustupPackage::try_from(&package("x", Some("plugin")));
    match r {
        Err(PackageError::InvalidRepotype { repo }) => assert_eq!(repo, "plugin"),
        other => panic!("unexpected {:?}", other),
    }
}

#[test]
fn missing_repo() {
    let r = RustupPackage::try_from(&package("x", None));
    assert!(matches!(r, Err(PackageError::MissingRepo)));
}

#[test]
fn repotype_tags() {
    assert_eq!(Repotype::try_from("toolchain").unwrap(), Repotype::Toolchain);
    assert_eq!(Repotype::try_from("component").unwrap(), Repotype::Component);
    assert!(matches!(
        Repotype::try_from("Toolchain"),
        Err(PackageError::InvalidRepotype { .. })
    ));
    assert!(matches!(Repotype::try_from(""), Err(PackageError::InvalidRepotype { .. })));
}

#[test]
fn switches() {
    assert_eq!(Repotype::Toolchain.get_install_switches(), vec!["toolchain", "install"]);
    assert_eq!(
        Repotype::Component.get_install_switches(),
        vec!["component", "add", "--toolchain"]
    );
    assert_eq!(Repotype::Toolchain.get_remove_switches(), vec!["toolchain", "uninstall"]);
    assert_eq!(
        Repotype::Component.get_remove_switches(),
        vec!["component", "remove", "--toolchain"]
    );
    assert_eq!(Repotype::Toolchain.get_info_switches(), vec!["toolchain", "list"]);
    assert_eq!(
        Repotype::Component.get_info_switches(),
        vec!["component", "list", "--installed", "--toolchain"]
    );
}

#[test]
fn new_keeps_parts() {
    let p = RustupPackage::new(Repotype::Component, "beta".to_string(), Some("clippy".to_string()));
    assert_eq!(p.repotype, Repotype::Component);
    assert_eq!(p.toolchain, "beta");
    assert_eq!(p.component.as_deref(), Some("clippy"));
}
