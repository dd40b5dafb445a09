use std::collections::BTreeMap;

use pacdef::cmd::Perms;
use pacdef::flatpak::{Config, Flatpak, FlatpakError, FlatpakInstallOptions};

fn strings(v: &[&str]) -> Vec<String> {
    v.iter().map(|s| s.to_string()).collect()
}

fn as_map(v: Vec<(String, pacdef::flatpak::FlatpakQueryInfo)>) -> BTreeMap<String, bool> {
    v.into_iter().map(|(k, i)| (k, i.systemwide)).collect()
}

#[test]
fn query_unions_scopes() {
    let r = Flatpak::parse_installed("foo\n", "bar\n", "", "").unwrap();
    assert_eq!(r.len(), 2);
    let m = as_map(r);
    assert_eq!(m.get("foo"), Some(&true));
    assert_eq!(m.get("bar"), Some(&false));
}

#[test]
fn query_trims_and_reads_runtimes() {
    let sys_pins = "Pinned patterns:\n  runtime/org.gnome.Platform/x86_64/45\n";
    let user_pins = "Pinned patterns:\nruntime/org.kde.Platform\n";
    let r = Flatpak::parse_installed("  org.a.App  \r\n", "", sys_pins, user_pins).unwrap();
    let names: Vec<(String, bool)> = r.into_iter().map(|(k, i)| (k, i.systemwide)).collect();
    assert_eq!(
        names,
        vec![
            ("org.a.App".to_string(), true),
            ("org.gnome.Platform".to_string(), true),
            ("org.kde.Platform".to_string(), false),
        ]
    );
}

#[test]
fn query_keeps_duplicates() {
    let r = Flatpak::parse_installed("org.a\n", "org.a\n", "", "").unwrap();
    assert_eq!(r.len(), 2);
}

#[test]
fn malformed_runtime_line() {
    let r = Flatpak::parse_installed("", "", "header\nnoslash\n", "");
    match r {
        Err(FlatpakError::MalformedPinLine { line }) => assert_eq!(line, "noslash"),
        other => panic!("unexpected {:?}", other),
    }
}

#[test]
fn runtime_name_segments() {
    assert_eq!(Flatpak::runtime_name("runtime/org.x/arch"), Some("org.x".to_string()));
    assert_eq!(Flatpak::runtime_name("a/"), Some(String::new()));
    assert_eq!(Flatpak::runtime_name("plain"), None);
}

#[test]
fn empty_install_and_remove_run_nothing() {
    let config = Config { flatpak_systemwide: true };
    assert!(Flatpak::install_command(&Vec::new(), false, &config).is_none());
    assert!(Flatpak::remove_command(&Vec::new(), true, &config).is_none());
}

#[test]
fn install_is_one_batched_elevated_command() {
    let config = Config { flatpak_systemwide: true };
    let c = Flatpak::install_command(&strings(&["org.a", "org.b"]), false, &config).unwrap();
    assert_eq!(c.perms, Perms::Sudo);
    assert_eq!(c.args, strings(&["flatpak", "install", "--system", "org.a", "org.b"]));
}

#[test]
fn remove_in_user_scope_without_confirmation() {
    let config = Config { flatpak_systemwide: false };
    let c = Flatpak::remove_command(&strings(&["org.a"]), true, &config).unwrap();
    assert_eq!(c.perms, Perms::Sudo);
    assert_eq!(c.args, strings(&["flatpak", "uninstall", "--user", "--assumeyes", "org.a"]));
}

#[test]
fn managed_packages_are_unchanged() {
    let mut m = BTreeMap::new();
    m.insert("org.a".to_string(), FlatpakInstallOptions {});
    m.insert("org.b".to_string(), FlatpakInstallOptions {});
    let config = Config { flatpak_systemwide: true };
    let r = Flatpak::map_managed_packages(m.clone(), &config).unwrap();
    assert_eq!(r, m);
}
