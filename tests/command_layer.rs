use pacdef::cmd::{
    command_output, command_status, path_candidates, prepare_command, use_sudo, CommandError,
    Host, Perms,
};

fn strings(v: &[&str]) -> Vec<String> {
    v.iter().map(|s| s.to_string()).collect()
}

#[test]
fn same_perms_run_unmodified() {
    let args = strings(&["flatpak", "list", "--app"]);
    for host in [Host::Unix { euid: 1000 }, Host::Unix { euid: 0 }, Host::NoEscalationHelper] {
        let r = prepare_command(args.clone(), Perms::Same, host).unwrap();
        assert_eq!(r, args);
    }
}

#[test]
fn sudo_as_root_adds_no_prefix() {
    let args = strings(&["flatpak", "install", "org.x"]);
    let r = prepare_command(args.clone(), Perms::Sudo, Host::Unix { euid: 0 }).unwrap();
    assert_eq!(r, args);
}

#[test]
fn sudo_unelevated_prefixes_helper() {
    let args = strings(&["flatpak", "install", "org.x"]);
    let r = prepare_command(args, Perms::Sudo, Host::Unix { euid: 1000 }).unwrap();
    assert_eq!(r, strings(&["sudo", "flatpak", "install", "org.x"]));
}

#[test]
fn sudo_without_helper_is_refused() {
    let args = strings(&["flatpak", "install", "org.x"]);
    let r = prepare_command(args, Perms::Sudo, Host::NoEscalationHelper);
    assert!(matches!(r, Err(CommandError::UnsupportedEscalation)));
    assert!(matches!(
        use_sudo(Perms::Sudo, Host::NoEscalationHelper),
        Err(CommandError::UnsupportedEscalation)
    ));
}

#[test]
fn use_sudo_decisions() {
    assert!(matches!(use_sudo(Perms::Same, Host::Unix { euid: 1000 }), Ok(false)));
    assert!(matches!(use_sudo(Perms::Same, Host::NoEscalationHelper), Ok(false)));
    assert!(matches!(use_sudo(Perms::Sudo, Host::Unix { euid: 0 }), Ok(false)));
    assert!(matches!(use_sudo(Perms::Sudo, Host::Unix { euid: 1 }), Ok(true)));
}

#[test]
fn empty_command_is_refused() {
    for perms in [Perms::Same, Perms::Sudo] {
        for host in [Host::Unix { euid: 0 }, Host::Unix { euid: 7 }, Host::NoEscalationHelper] {
            let r = prepare_command(Vec::new(), perms, host);
            assert!(matches!(r, Err(CommandError::EmptyCommand)));
        }
    }
}

#[test]
fn nonzero_exit_names_requested_args() {
    let args = strings(&["flatpak", "install", "--system", "org.x"]);
    match command_status(&args, false) {
        Err(CommandError::CommandFailed { args }) => {
            assert_eq!(args, "flatpak install --system org.x")
        }
        other => panic!("unexpected {:?}", other),
    }
    match command_output(&args, false, b"partial output".to_vec()) {
        Err(CommandError::CommandFailed { args }) => {
            assert_eq!(args, "flatpak install --system org.x")
        }
        other => panic!("unexpected {:?}", other),
    }
}

#[test]
fn zero_exit_succeeds() {
    let args = strings(&["true"]);
    assert!(command_status(&args, true).is_ok());
    assert_eq!(command_output(&args, true, b"a\nb\n".to_vec()).unwrap(), "a\nb\n");
}

#[test]
fn invalid_output_encoding() {
    let args = strings(&["tool"]);
    let r = command_output(&args, true, vec![0x66, 0xff, 0xfe]);
    assert!(matches!(r, Err(CommandError::InvalidOutputEncoding)));
}

#[test]
fn empty_path_probes_nothing() {
    assert!(path_candidates("", "flatpak").is_empty());
    assert!(path_candidates(":::", "flatpak").is_empty());
}

#[test]
fn path_probes_each_directory() {
    let r = path_candidates("/usr/local/bin:/usr/bin::/bin", "flatpak");
    assert_eq!(
        r,
        strings(&["/usr/local/bin/flatpak", "/usr/bin/flatpak", "/bin/flatpak"])
    );
}
