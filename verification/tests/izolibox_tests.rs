use izolilib::izolibox::{
    trim_leading_slashes, IzoliBox, IzoliBoxOptions, Mount, MountFlags, Namespace, SetupStep,
};

fn plain_box(id: usize) -> IzoliBox {
    IzoliBox::new(id, IzoliBoxOptions::default())
}

#[test]
fn box_paths_derive_from_the_id() {
    let b = plain_box(1);
    assert_eq!(b.get_root(), "/var/local/lib/izoli/1");
    assert_eq!(b.cgroup_path(), "izoli/box_1");
    let b = plain_box(42);
    assert_eq!(b.get_root(), "/var/local/lib/izoli/42");
    assert_eq!(b.cgroup_path(), "izoli/box_42");
}

#[test]
fn mount_new_keeps_its_fields() {
    let m = Mount::new("/bin", "/usr/bin", true, false);
    assert_eq!(m.target, "/bin");
    assert_eq!(m.source, "/usr/bin");
    assert!(m.readonly);
    assert!(!m.no_exec);
}

#[test]
fn namespaces_without_network() {
    let b = plain_box(1);
    let ns = b.namespaces();
    assert_eq!(
        ns,
        vec![Namespace::Mount, Namespace::Uts, Namespace::Ipc, Namespace::Pid]
    );
    assert!(!ns.contains(&Namespace::Net));
}

#[test]
fn namespaces_with_network() {
    let b = IzoliBox::new(
        1,
        IzoliBoxOptions {
            cgroup_option: None,
            new_net: true,
            mounts: vec![],
        },
    );
    let ns = b.namespaces();
    assert_eq!(
        ns,
        vec![
            Namespace::Mount,
            Namespace::Uts,
            Namespace::Ipc,
            Namespace::Pid,
            Namespace::Net
        ]
    );
}

#[test]
fn prelude_begins_by_resetting_the_staging_root() {
    let b = plain_box(7);
    let steps = b.prelude();
    match &steps[0] {
        SetupStep::RemoveDirAll(p) => assert_eq!(p, "/var/local/lib/izoli/7"),
        other => panic!("unexpected first step: {:?}", other),
    }
    match &steps[1] {
        SetupStep::CreateDirAll(p) => assert_eq!(p, "/var/local/lib/izoli/7"),
        other => panic!("unexpected second step: {:?}", other),
    }
    // A second planning run for the same id starts with the same
    // reset, so sequential runs each begin from an empty layout.
    let again = b.prelude();
    assert!(matches!(&again[0], SetupStep::RemoveDirAll(p) if p == "/var/local/lib/izoli/7"));
    assert!(matches!(&again[1], SetupStep::CreateDirAll(p) if p == "/var/local/lib/izoli/7"));
}

#[test]
fn prelude_ends_with_chroot_workdir_hostname() {
    let b = plain_box(7);
    let steps = b.prelude();
    let n = steps.len();
    assert!(matches!(&steps[n - 3], SetupStep::Chroot(p) if p == "/var/local/lib/izoli/7"));
    assert!(matches!(&steps[n - 2], SetupStep::SetWorkDir(p) if p == "/"));
    assert!(matches!(&steps[n - 1], SetupStep::SetHostname(h) if h == "IzoliBox"));
}

#[test]
fn prelude_mount_detaches_propagation_then_mounts_tmp_and_proc() {
    let b = plain_box(3);
    let steps = b.prelude_mount();
    assert_eq!(steps.len(), 8);
    assert!(matches!(&steps[0], SetupStep::Umount(p) if p == "/"));
    match &steps[1] {
        SetupStep::Mount(c) => {
            assert_eq!(c.source.as_deref(), Some("none"));
            assert_eq!(c.target, "/");
            assert_eq!(c.fstype, None);
            assert!(c.flags.recursive);
            assert!(c.flags.private_propagation);
            assert!(!c.flags.bind);
        },
        other => panic!("unexpected step: {:?}", other),
    }
    assert!(matches!(&steps[2], SetupStep::CreateDirAll(p) if p == "/var/local/lib/izoli/3/tmp"));
    assert!(matches!(&steps[3], SetupStep::Umount(p) if p == "/var/local/lib/izoli/3/tmp"));
    match &steps[4] {
        SetupStep::Mount(c) => {
            assert_eq!(c.source.as_deref(), Some("tmpfs"));
            assert_eq!(c.target, "/var/local/lib/izoli/3/tmp");
            assert_eq!(c.fstype.as_deref(), Some("tmpfs"));
            assert_eq!(
                c.flags,
                MountFlags {
                    recursive: false,
                    private_propagation: false,
                    read_only: false,
                    no_exec: false,
                    bind: false,
                    remount: false,
                }
            );
        },
        other => panic!("unexpected step: {:?}", other),
    }
    assert!(matches!(&steps[5], SetupStep::CreateDirAll(p) if p == "/var/local/lib/izoli/3/proc"));
    assert!(matches!(&steps[6], SetupStep::Umount(p) if p == "/var/local/lib/izoli/3/proc"));
    match &steps[7] {
        SetupStep::Mount(c) => {
            assert_eq!(c.source.as_deref(), Some("proc"));
            assert_eq!(c.fstype.as_deref(), Some("proc"));
            assert!(c.flags.read_only);
            assert!(!c.flags.recursive);
        },
        other => panic!("unexpected step: {:?}", other),
    }
}

#[test]
fn caller_mounts_bind_then_remount_with_restrictions() {
    let b = IzoliBox::new(
        5,
        IzoliBoxOptions {
            cgroup_option: None,
            new_net: false,
            mounts: vec![Mount::new("/bin", "/bin", true, false)],
        },
    );
    let steps = b.prelude_mount();
    assert_eq!(steps.len(), 11);
    assert!(matches!(&steps[8], SetupStep::CreateDirAll(p) if p == "/var/local/lib/izoli/5/bin"));
    match &steps[9] {
        SetupStep::Mount(c) => {
            assert_eq!(c.source.as_deref(), Some("/bin"));
            assert_eq!(c.target, "/var/local/lib/izoli/5/bin");
            assert_eq!(c.fstype.as_deref(), Some("none"));
            assert!(c.flags.bind && c.flags.recursive);
            assert!(!c.flags.remount);
            // The first phase never restricts: a bind mount inherits
            // the source's flags.
            assert!(!c.flags.read_only && !c.flags.no_exec);
        },
        other => panic!("unexpected step: {:?}", other),
    }
    match &steps[10] {
        SetupStep::Mount(c) => {
            assert_eq!(c.source, None);
            assert_eq!(c.target, "/var/local/lib/izoli/5/bin");
            assert_eq!(c.fstype, None);
            assert!(c.flags.bind && c.flags.recursive && c.flags.remount);
            assert!(c.flags.read_only);
            assert!(!c.flags.no_exec);
        },
        other => panic!("unexpected step: {:?}", other),
    }
}

#[test]
fn caller_mounts_keep_list_order_and_flags() {
    let b = IzoliBox::new(
        2,
        IzoliBoxOptions {
            cgroup_option: None,
            new_net: false,
            mounts: vec![
                Mount::new("/bin", "/bin", true, false),
                Mount::new("/etc", "/etc", true, true),
            ],
        },
    );
    let steps = b.prelude_mount();
    assert_eq!(steps.len(), 14);
    assert!(matches!(&steps[8], SetupStep::CreateDirAll(p) if p == "/var/local/lib/izoli/2/bin"));
    assert!(matches!(&steps[11], SetupStep::CreateDirAll(p) if p == "/var/local/lib/izoli/2/etc"));
    match &steps[13] {
        SetupStep::Mount(c) => {
            assert!(c.flags.read_only && c.flags.no_exec && c.flags.remount);
        },
        other => panic!("unexpected step: {:?}", other),
    }
}

#[test]
fn mount_targets_are_rerooted_without_leading_slashes() {
    let b = IzoliBox::new(
        9,
        IzoliBoxOptions {
            cgroup_option: None,
            new_net: false,
            mounts: vec![Mount::new("usr/lib", "/usr/lib", false, false)],
        },
    );
    let steps = b.prelude_mount();
    assert!(
        matches!(&steps[8], SetupStep::CreateDirAll(p) if p == "/var/local/lib/izoli/9/usr/lib")
    );
    assert_eq!(trim_leading_slashes("/bin"), "bin");
    assert_eq!(trim_leading_slashes("bin"), "bin");
    assert_eq!(trim_leading_slashes("//x"), "x");
    assert_eq!(trim_leading_slashes(""), "");
}

#[test]
fn box_new_keeps_id_and_options() {
    let b = IzoliBox::new(
        11,
        IzoliBoxOptions {
            cgroup_option: None,
            new_net: true,
            mounts: vec![Mount::new("/lib", "/lib", true, false)],
        },
    );
    assert_eq!(b.id, 11);
    assert!(b.options.new_net);
    assert_eq!(b.options.mounts.len(), 1);
}
