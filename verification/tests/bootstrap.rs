use sandpit::args::parse_arg;
use sandpit::args::parse_args;
use sandpit::args::ProcessType as Role;
use sandpit::bootstrap::after_fork;
use sandpit::bootstrap::ids_warrant_root_warning;
use sandpit::bootstrap::next_phase;
use sandpit::bootstrap::next_pivot_step;
use sandpit::bootstrap::render_decimal;
use sandpit::bootstrap::render_id_map_line;
use sandpit::bootstrap::render_setgroups_deny;
use sandpit::bootstrap::unpriv_clone_warns;
use sandpit::bootstrap::Phase;
use sandpit::bootstrap::PivotStep;
use sandpit::bootstrap::ProcessType;
use sandpit::bootstrap::BIND_SELF_MOUNT_FLAGS;
use sandpit::bootstrap::CLONE_NEWCGROUP;
use sandpit::bootstrap::CLONE_NEWIPC;
use sandpit::bootstrap::CLONE_NEWNET;
use sandpit::bootstrap::CLONE_NEWNS;
use sandpit::bootstrap::CLONE_NEWPID;
use sandpit::bootstrap::CLONE_NEWUSER;
use sandpit::bootstrap::CLONE_NEWUTS;
use sandpit::bootstrap::MNT_DETACH;
use sandpit::bootstrap::MS_BIND;
use sandpit::bootstrap::MS_NODEV;
use sandpit::bootstrap::MS_NOEXEC;
use sandpit::bootstrap::MS_NOSUID;
use sandpit::bootstrap::MS_PRIVATE;
use sandpit::bootstrap::MS_RDONLY;
use sandpit::bootstrap::MS_REC;
use sandpit::bootstrap::PROC_MOUNT_FLAGS;
use sandpit::bootstrap::ROOT_PRIVATE_MOUNT_FLAGS;
use sandpit::bootstrap::SYS_MOUNT_FLAGS;
use sandpit::bootstrap::UNSHARE_ALL_NAMESPACES;
use sandpit::util::join_path;
use sandpit::util::truncate_at_nul;

#[test]
fn only_the_fork_child_continues() {
    assert!(after_fork(&ProcessType::Child));
    assert!(!after_fork(&ProcessType::Parent));
}

#[test]
fn bootstrap_phases_run_in_order() {
    let expected = [
        Phase::WriteMarker,
        Phase::SetNoNewPrivs,
        Phase::InspectUnprivClone,
        Phase::RecordIdentity,
        Phase::CreateNamespaces,
        Phase::ForkInner,
        Phase::WriteIdentityMap,
        Phase::SetIsolatedHostname,
        Phase::PivotRoot,
        Phase::Rendezvous,
        Phase::InstallFilter,
        Phase::DropCapabilities,
        Phase::Confined,
    ];
    let mut phase = Phase::WriteMarker;
    for want in expected.iter() {
        assert_eq!(phase, *want);
        phase = next_phase(&phase);
    }
    assert_eq!(next_phase(&Phase::Confined), Phase::Confined);
}

#[test]
fn pivot_steps_run_in_order() {
    let expected = [
        PivotStep::MakeRootPrivate,
        PivotStep::BindWorkdirSelf,
        PivotStep::EnterWorkdir,
        PivotStep::MountRestrictedProc,
        PivotStep::MountRestrictedSys,
        PivotStep::PivotIntoWorkdir,
        PivotStep::DetachOldRoot,
        PivotStep::ReturnToRoot,
        PivotStep::PivotDone,
    ];
    let mut step = PivotStep::MakeRootPrivate;
    for want in expected.iter() {
        assert_eq!(step, *want);
        step = next_pivot_step(&step);
    }
    assert_eq!(next_pivot_step(&PivotStep::PivotDone), PivotStep::PivotDone);
}

#[test]
fn namespace_flags_match_the_system_abi() {
    assert_eq!(CLONE_NEWNS, libc::CLONE_NEWNS);
    assert_eq!(CLONE_NEWCGROUP, libc::CLONE_NEWCGROUP);
    assert_eq!(CLONE_NEWUTS, libc::CLONE_NEWUTS);
    assert_eq!(CLONE_NEWIPC, libc::CLONE_NEWIPC);
    assert_eq!(CLONE_NEWUSER, libc::CLONE_NEWUSER);
    assert_eq!(CLONE_NEWPID, libc::CLONE_NEWPID);
    assert_eq!(CLONE_NEWNET, libc::CLONE_NEWNET);
    assert_eq!(
        UNSHARE_ALL_NAMESPACES,
        CLONE_NEWUSER | CLONE_NEWNS | CLONE_NEWPID | CLONE_NEWCGROUP | CLONE_NEWIPC
            | CLONE_NEWNET | CLONE_NEWUTS
    );
}

#[test]
fn mount_flags_match_the_system_abi() {
    assert_eq!(MS_RDONLY, libc::MS_RDONLY);
    assert_eq!(MS_NOSUID, libc::MS_NOSUID);
    assert_eq!(MS_NODEV, libc::MS_NODEV);
    assert_eq!(MS_NOEXEC, libc::MS_NOEXEC);
    assert_eq!(MS_BIND, libc::MS_BIND);
    assert_eq!(MS_REC, libc::MS_REC);
    assert_eq!(MS_PRIVATE, libc::MS_PRIVATE);
    assert_eq!(MNT_DETACH, libc::MNT_DETACH);
    assert_eq!(ROOT_PRIVATE_MOUNT_FLAGS, MS_REC | MS_PRIVATE);
    assert_eq!(BIND_SELF_MOUNT_FLAGS, MS_REC | MS_BIND);
    assert_eq!(PROC_MOUNT_FLAGS, MS_NOEXEC | MS_NOSUID | MS_NODEV);
    assert_eq!(SYS_MOUNT_FLAGS, MS_NOEXEC | MS_NOSUID | MS_NODEV | MS_RDONLY);
}

#[test]
fn decimal_rendering_is_exact() {
    assert_eq!(render_decimal(0), b"0".to_vec());
    assert_eq!(render_decimal(7), b"7".to_vec());
    assert_eq!(render_decimal(42), b"42".to_vec());
    assert_eq!(render_decimal(1000), b"1000".to_vec());
    assert_eq!(render_decimal(u32::MAX), b"4294967295".to_vec());
}

#[test]
fn id_map_line_is_a_single_self_mapping() {
    assert_eq!(render_id_map_line(1000), b"1000\t1000\t1\n".to_vec());
    assert_eq!(render_id_map_line(0), b"0\t0\t1\n".to_vec());
}

#[test]
fn setgroups_denial_bytes() {
    assert_eq!(render_setgroups_deny(), b"deny".to_vec());
}

#[test]
fn root_ids_warrant_a_warning() {
    assert!(ids_warrant_root_warning(0, 1000, 1000, 1000));
    assert!(ids_warrant_root_warning(1000, 0, 1000, 1000));
    assert!(ids_warrant_root_warning(1000, 1000, 0, 1000));
    assert!(ids_warrant_root_warning(1000, 1000, 1000, 0));
    assert!(!ids_warrant_root_warning(1000, 1000, 1000, 1000));
}

#[test]
fn unpriv_clone_reading_of_zero_warns() {
    assert!(unpriv_clone_warns(b"0"));
    assert!(!unpriv_clone_warns(b"1"));
    assert!(!unpriv_clone_warns(b"0\n"));
    assert!(!unpriv_clone_warns(b""));
}

#[test]
fn sandbox_flag_selects_the_sandbox_role() {
    assert_eq!(parse_arg("--sandbox"), Some(Role::Sandbox));
    assert_eq!(parse_arg("--help"), None);
    assert_eq!(parse_arg("sandbox"), None);
    assert_eq!(parse_arg(""), None);
    assert_eq!(parse_arg("--sandboxx"), None);
}

#[test]
fn argument_vector_resolves_the_role() {
    let broker: Vec<String> = vec!["sandpit".to_string()];
    assert_eq!(parse_args(&broker), Some(Role::Broker));
    let sandbox: Vec<String> = vec!["sandpit".to_string(), "--sandbox".to_string()];
    assert_eq!(parse_args(&sandbox), Some(Role::Sandbox));
    let unknown: Vec<String> = vec!["sandpit".to_string(), "--other".to_string()];
    assert_eq!(parse_args(&unknown), None);
    let too_many: Vec<String> =
        vec!["sandpit".to_string(), "--sandbox".to_string(), "x".to_string()];
    assert_eq!(parse_args(&too_many), None);
    let none: Vec<String> = Vec::new();
    assert_eq!(parse_args(&none), None);
}

#[test]
fn joined_paths_carry_one_separator() {
    assert_eq!(
        join_path(b"/tmp/sandpit.sandbox", b"demo.txt"),
        b"/tmp/sandpit.sandbox/demo.txt".to_vec()
    );
}

#[test]
fn link_buffers_truncate_at_the_first_nul() {
    assert_eq!(truncate_at_nul(b"abc\0def"), b"abc".to_vec());
    assert_eq!(truncate_at_nul(b"abc"), b"abc".to_vec());
    assert_eq!(truncate_at_nul(b"\0x"), Vec::new());
    assert_eq!(truncate_at_nul(b""), Vec::new());
}
