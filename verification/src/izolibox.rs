//! The sandbox orchestrator's decision layer. A sandbox is identified
//! by a small integer id, which deterministically derives its cgroup
//! leaf name and its filesystem staging directory. From the
//! configuration this module computes, as plain data with exact
//! contracts, the namespace set for the spawn call and the ordered
//! prelude steps (staging-root reset, mount-namespace detachment,
//! two-phase bind mounts, chroot, hostname) that must run in the child
//! before user code. Executing the steps — the actual syscalls — is
//! the unverified shell's job.

use vstd::prelude::*;
use crate::cgroup::cgroup_option::CGroupOption;
use crate::strutil::{dec_digits, format_u64};

verus! {

/// One bind-mount request: expose the host directory `source` at
/// `target` under the sandbox root, optionally read-only and
/// no-exec.
#[derive(Debug, Clone, Default)]
pub struct Mount {
    pub target: String,
    pub source: String,
    pub readonly: bool,
    pub no_exec: bool,
}

/// The mathematical value of a [`Mount`].
pub struct MountView {
    pub target: Seq<char>,
    pub source: Seq<char>,
    pub readonly: bool,
    pub no_exec: bool,
}

impl View for Mount {
    type V = MountView;

    open spec fn view(&self) -> MountView {
        MountView {
            target: self.target@,
            source: self.source@,
            readonly: self.readonly,
            no_exec: self.no_exec,
        }
    }
}

impl DeepView for Mount {
    type V = MountView;

    open spec fn deep_view(&self) -> MountView {
        self.view()
    }
}

/// The configuration of one sandbox: optional cgroup limits, whether
/// to give it a private network namespace, and the ordered mounts of
/// its root filesystem.
#[derive(Debug, Clone, Default)]
pub struct IzoliBoxOptions {
    pub cgroup_option: Option<CGroupOption>,
    pub new_net: bool,
    pub mounts: Vec<Mount>,
}

/// One sandbox, identified by its integer id. Two sandboxes sharing an
/// id must not run concurrently: the id keys the cgroup leaf and the
/// staging directory.
pub struct IzoliBox {
    pub id: usize,
    pub options: IzoliBoxOptions,
}

/// A kernel namespace kind the spawn call can unshare.
#[derive(Debug, Clone, Copy, PartialEq, Eq, Structural)]
pub enum Namespace {
    Mount,
    Uts,
    Ipc,
    Pid,
    Net,
}

/// Mount-call flags, as plain booleans; the shell maps them onto the
/// kernel's flag bits.
#[derive(Debug, Clone, Copy, PartialEq, Eq, Structural)]
pub struct MountFlags {
    pub recursive: bool,
    pub private_propagation: bool,
    pub read_only: bool,
    pub no_exec: bool,
    pub bind: bool,
    pub remount: bool,
}

/// One mount syscall: source and filesystem type are optional exactly
/// as in the kernel interface.
#[derive(Debug, Clone)]
pub struct MountCall {
    pub source: Option<String>,
    pub target: String,
    pub fstype: Option<String>,
    pub flags: MountFlags,
}

/// The mathematical value of a [`MountCall`].
pub struct MountCallView {
    pub source: Option<Seq<char>>,
    pub target: Seq<char>,
    pub fstype: Option<Seq<char>>,
    pub flags: MountFlags,
}

impl View for MountCall {
    type V = MountCallView;

    open spec fn view(&self) -> MountCallView {
        MountCallView {
            source: match self.source {
                Some(ref s) => Some(s@),
                None => None,
            },
            target: self.target@,
            fstype: match self.fstype {
                Some(ref s) => Some(s@),
                None => None,
            },
            flags: self.flags,
        }
    }
}

/// One step of the child-side prelude, in the order the shell must
/// perform them. `RemoveDirAll` and `Umount` are best-effort: their
/// failure is ignored, every other step's failure aborts the prelude.
#[derive(Debug, Clone)]
pub enum SetupStep {
    RemoveDirAll(String),
    CreateDirAll(String),
    Umount(String),
    Mount(MountCall),
    Chroot(String),
    SetWorkDir(String),
    SetHostname(String),
}

/// The mathematical value of a [`SetupStep`].
pub enum StepView {
    RemoveDirAll(Seq<char>),
    CreateDirAll(Seq<char>),
    Umount(Seq<char>),
    Mount(MountCallView),
    Chroot(Seq<char>),
    SetWorkDir(Seq<char>),
    SetHostname(Seq<char>),
}

impl View for SetupStep {
    type V = StepView;

    open spec fn view(&self) -> StepView {
        match self {
            SetupStep::RemoveDirAll(p) => StepView::RemoveDirAll(p@),
            SetupStep::CreateDirAll(p) => StepView::CreateDirAll(p@),
            SetupStep::Umount(p) => StepView::Umount(p@),
            SetupStep::Mount(c) => StepView::Mount(c@),
            SetupStep::Chroot(p) => StepView::Chroot(p@),
            SetupStep::SetWorkDir(p) => StepView::SetWorkDir(p@),
            SetupStep::SetHostname(p) => StepView::SetHostname(p@),
        }
    }
}

impl DeepView for SetupStep {
    type V = StepView;

    open spec fn deep_view(&self) -> StepView {
        self.view()
    }
}

/// The staging directory a sandbox id derives.
pub open spec fn box_root_spec(id: int) -> Seq<char> {
    "/var/local/lib/izoli/"@ + dec_digits(id)
}

/// The cgroup leaf name a sandbox id derives.
pub open spec fn box_cgroup_path_spec(id: int) -> Seq<char> {
    "izoli/box_"@ + dec_digits(id)
}

/// The namespaces every sandbox gets, plus the network namespace
/// exactly when requested.
pub open spec fn namespaces_spec(new_net: bool) -> Seq<Namespace> {
    if new_net {
        seq![Namespace::Mount, Namespace::Uts, Namespace::Ipc, Namespace::Pid, Namespace::Net]
    } else {
        seq![Namespace::Mount, Namespace::Uts, Namespace::Ipc, Namespace::Pid]
    }
}

/// A target path with its leading slashes removed, so it can be
/// re-rooted under the staging directory.
pub open spec fn trim_slashes_spec(s: Seq<char>) -> Seq<char>
    decreases s.len(),
{
    if s.len() > 0 && s[0] == '/' {
        trim_slashes_spec(s.drop_first())
    } else {
        s
    }
}

/// Remove the leading slashes of a target path, against
/// `trim_slashes_spec`.
pub fn trim_leading_slashes<'a>(s: &'a str) -> (r: &'a str)
    ensures
        r@ == trim_slashes_spec(s@),
{
    let len = s.unicode_len();
    let mut i: usize = 0;
    proof {
        assert(s@.skip(0) =~= s@);
    }
    while i < len && s.get_char(i) == '/'
        invariant
            len == s@.len(),
            i <= len,
            trim_slashes_spec(s@) == trim_slashes_spec(s@.skip(i as int)),
        decreases len - i,
    {
        proof {
            assert(s@.skip(i as int).drop_first() =~= s@.skip(i + 1));
        }
        i += 1;
    }
    proof {
        if i == len {
            assert(s@.skip(i as int) =~= Seq::<char>::empty());
        }
        assert(trim_slashes_spec(s@) == s@.skip(i as int));
        assert(s@.subrange(i as int, len as int) =~= s@.skip(i as int));
    }
    s.substring_char(i, len)
}

/// No mount flags at all.
pub open spec fn flags_none() -> MountFlags {
    MountFlags {
        recursive: false,
        private_propagation: false,
        read_only: false,
        no_exec: false,
        bind: false,
        remount: false,
    }
}

/// The three steps of one caller-declared bind mount: create the
/// target under the staging root, bind recursively, then remount with
/// the restricting flags — the kernel accepts read-only/no-exec only
/// on the second step, because the initial bind inherits the source's
/// flags.
pub open spec fn mount_step_model(root: Seq<char>, m: MountView) -> Seq<StepView> {
    let full = root + "/"@ + trim_slashes_spec(m.target);
    seq![
        StepView::CreateDirAll(full),
        StepView::Mount(
            MountCallView {
                source: Some(m.source),
                target: full,
                fstype: Some("none"@),
                flags: (MountFlags {
                    recursive: true,
                    private_propagation: false,
                    read_only: false,
                    no_exec: false,
                    bind: true,
                    remount: false,
                }),
            },
        ),
        StepView::Mount(
            MountCallView {
                source: None,
                target: full,
                fstype: None,
                flags: (MountFlags {
                    recursive: true,
                    private_propagation: false,
                    read_only: m.readonly,
                    no_exec: m.no_exec,
                    bind: true,
                    remount: true,
                }),
            },
        ),
    ]
}

/// The caller-declared mounts expanded in list order.
pub open spec fn mounts_model(root: Seq<char>, ms: Seq<MountView>) -> Seq<StepView>
    decreases ms.len(),
{
    if ms.len() == 0 {
        Seq::empty()
    } else {
        mounts_model(root, ms.drop_last()) + mount_step_model(root, ms.last())
    }
}

/// The fixed opening of the mount phase: detach mount propagation
/// from the host (private and recursive), mount a fresh tmpfs at
/// `<root>/tmp` and a read-only proc at `<root>/proc`.
pub open spec fn prelude_mount_base(root: Seq<char>) -> Seq<StepView> {
    seq![
        StepView::Umount("/"@),
        StepView::Mount(
            MountCallView {
                source: Some("none"@),
                target: "/"@,
                fstype: None,
                flags: (MountFlags {
                    recursive: true,
                    private_propagation: true,
                    read_only: false,
                    no_exec: false,
                    bind: false,
                    remount: false,
                }),
            },
        ),
        StepView::CreateDirAll(root + "/tmp"@),
        StepView::Umount(root + "/tmp"@),
        StepView::Mount(
            MountCallView {
                source: Some("tmpfs"@),
                target: root + "/tmp"@,
                fstype: Some("tmpfs"@),
                flags: flags_none(),
            },
        ),
        StepView::CreateDirAll(root + "/proc"@),
        StepView::Umount(root + "/proc"@),
        StepView::Mount(
            MountCallView {
                source: Some("proc"@),
                target: root + "/proc"@,
                fstype: Some("proc"@),
                flags: (MountFlags {
                    recursive: false,
                    private_propagation: false,
                    read_only: true,
                    no_exec: false,
                    bind: false,
                    remount: false,
                }),
            },
        ),
    ]
}

/// The mount phase of the prelude: the fixed opening, then the
/// caller's mounts in list order.
pub open spec fn prelude_mount_model(root: Seq<char>, ms: Seq<MountView>) -> Seq<StepView> {
    prelude_mount_base(root) + mounts_model(root, ms)
}

/// The whole child-side prelude: reset the staging directory to an
/// empty layout, assemble the mounts, chroot into the staging root,
/// re-resolve the working directory inside the new root, and set the
/// sandbox hostname — in exactly that order.
pub open spec fn prelude_model(id: int, ms: Seq<MountView>) -> Seq<StepView> {
    let root = box_root_spec(id);
    seq![StepView::RemoveDirAll(root), StepView::CreateDirAll(root)] + prelude_mount_model(
        root,
        ms,
    ) + seq![StepView::Chroot(root), StepView::SetWorkDir("/"@), StepView::SetHostname(
        "IzoliBox"@,
    )]
}

/// Every prelude — in particular each of two sequential runs for the
/// same id — begins by removing the staging directory and recreating
/// it, before any mount or chroot step, so each run starts from an
/// empty staging layout (given a shell that performs the steps in
/// order).
pub proof fn lemma_prelude_resets_staging(id: int, ms: Seq<MountView>)
    ensures
        prelude_model(id, ms).len() >= 2,
        prelude_model(id, ms)[0] == StepView::RemoveDirAll(box_root_spec(id)),
        prelude_model(id, ms)[1] == StepView::CreateDirAll(box_root_spec(id)),
{
    let root = box_root_spec(id);
    let head = seq![StepView::RemoveDirAll(root), StepView::CreateDirAll(root)];
    assert(prelude_model(id, ms)[0] == head[0]);
    assert(prelude_model(id, ms)[1] == head[1]);
}

impl Mount {
    /// A bind-mount request from its parts.
    pub fn new(target: &str, source: &str, readonly: bool, no_exec: bool) -> (r: Self)
        ensures
            r@ == (MountView { target: target@, source: source@, readonly, no_exec }),
    {
        Mount {
            target: String::from_str(target),
            source: String::from_str(source),
            readonly,
            no_exec,
        }
    }
}

impl IzoliBox {
    /// A sandbox from its id and configuration.
    pub fn new(id: usize, options: IzoliBoxOptions) -> (r: Self)
        ensures
            r.id == id,
            r.options == options,
    {
        Self { id, options }
    }

    /// The staging directory this sandbox's id derives.
    pub fn get_root(&self) -> (r: String)
        ensures
            r@ == box_root_spec(self.id as int),
    {
        let mut r = String::from_str("/var/local/lib/izoli/");
        let n = format_u64(self.id as u64);
        r.append(n.as_str());
        r
    }

    /// The cgroup leaf name this sandbox's id derives.
    pub fn cgroup_path(&self) -> (r: String)
        ensures
            r@ == box_cgroup_path_spec(self.id as int),
    {
        let mut r = String::from_str("izoli/box_");
        let n = format_u64(self.id as u64);
        r.append(n.as_str());
        r
    }

    /// The child-side prelude as ordered steps: reset the staging
    /// directory, assemble the mounts, chroot, re-resolve the working
    /// directory, set the hostname. The shell performs them in order
    /// before user code runs; a failing step (other than the
    /// best-effort removal and umounts) is fatal to the child.
    pub fn prelude(&self) -> (r: Vec<SetupStep>)
        ensures
            r.deep_view() == prelude_model(self.id as int, self.options.mounts.deep_view()),
    {
        let root = self.get_root();
        let mut r: Vec<SetupStep> = Vec::new();
        r.push(SetupStep::RemoveDirAll(root.clone()));
        r.push(SetupStep::CreateDirAll(root.clone()));
        let mut mid = self.prelude_mount();
        r.append(&mut mid);
        r.push(SetupStep::Chroot(root));
        r.push(SetupStep::SetWorkDir(String::from_str("/")));
        r.push(SetupStep::SetHostname(String::from_str("IzoliBox")));
        proof {
            assert(r.deep_view() =~= prelude_model(
                self.id as int,
                self.options.mounts.deep_view(),
            ));
        }
        r
    }

    /// The mount phase of the prelude as ordered steps.
    pub fn prelude_mount(&self) -> (r: Vec<SetupStep>)
        ensures
            r.deep_view() == prelude_mount_model(
                box_root_spec(self.id as int),
                self.options.mounts.deep_view(),
            ),
    {
        let root = self.get_root();
        let mut r: Vec<SetupStep> = Vec::new();
        r.push(SetupStep::Umount(String::from_str("/")));
        r.push(
            SetupStep::Mount(
                MountCall {
                    source: Some(String::from_str("none")),
                    target: String::from_str("/"),
                    fstype: None,
                    flags: MountFlags {
                        recursive: true,
                        private_propagation: true,
                        read_only: false,
                        no_exec: false,
                        bind: false,
                        remount: false,
                    },
                },
            ),
        );
        let mut tmp_path = root.clone();
        tmp_path.append("/tmp");
        r.push(SetupStep::CreateDirAll(tmp_path.clone()));
        r.push(SetupStep::Umount(tmp_path.clone()));
        r.push(
            SetupStep::Mount(
                MountCall {
                    source: Some(String::from_str("tmpfs")),
                    target: tmp_path,
                    fstype: Some(String::from_str("tmpfs")),
                    flags: MountFlags {
                        recursive: false,
                        private_propagation: false,
                        read_only: false,
                        no_exec: false,
                        bind: false,
                        remount: false,
                    },
                },
            ),
        );
        let mut proc_path = root.clone();
        proc_path.append("/proc");
        r.push(SetupStep::CreateDirAll(proc_path.clone()));
        r.push(SetupStep::Umount(proc_path.clone()));
        r.push(
            SetupStep::Mount(
                MountCall {
                    source: Some(String::from_str("proc")),
                    target: proc_path,
                    fstype: Some(String::from_str("proc")),
                    flags: MountFlags {
                        recursive: false,
                        private_propagation: false,
                        read_only: true,
                        no_exec: false,
                        bind: false,
                        remount: false,
                    },
                },
            ),
        );
        proof {
            assert(r.deep_view() =~= prelude_mount_base(root@));
            assert(self.options.mounts.deep_view().take(0) =~= Seq::<MountView>::empty());
            assert(prelude_mount_base(root@) + Seq::<StepView>::empty() =~= prelude_mount_base(
                root@,
            ));
        }
        let mut i: usize = 0;
        while i < self.options.mounts.len()
            invariant
                root@ == box_root_spec(self.id as int),
                i <= self.options.mounts@.len(),
                r.deep_view() == prelude_mount_base(root@) + mounts_model(
                    root@,
                    self.options.mounts.deep_view().take(i as int),
                ),
            decreases self.options.mounts@.len() - i,
        {
            let mut full = root.clone();
            full.append("/");
            let tt = trim_leading_slashes(self.options.mounts[i].target.as_str());
            full.append(tt);
            let ghost fullv = full@;
            proof {
                assert(fullv == root@ + "/"@ + trim_slashes_spec(
                    self.options.mounts.deep_view()[i as int].target,
                ));
            }
            let ghost p0 = r.deep_view();
            r.push(SetupStep::CreateDirAll(full.clone()));
            proof {
                assert(r.deep_view() =~= p0.push(StepView::CreateDirAll(fullv)));
            }
            r.push(
                SetupStep::Mount(
                    MountCall {
                        source: Some(self.options.mounts[i].source.clone()),
                        target: full.clone(),
                        fstype: Some(String::from_str("none")),
                        flags: MountFlags {
                            recursive: true,
                            private_propagation: false,
                            read_only: false,
                            no_exec: false,
                            bind: true,
                            remount: false,
                        },
                    },
                ),
            );
            proof {
                assert(r.deep_view() =~= p0.push(StepView::CreateDirAll(fullv)).push(
                    StepView::Mount(
                        MountCallView {
                            source: Some(
                                self.options.mounts.deep_view()[i as int].source,
                            ),
                            target: fullv,
                            fstype: Some("none"@),
                            flags: (MountFlags {
                                recursive: true,
                                private_propagation: false,
                                read_only: false,
                                no_exec: false,
                                bind: true,
                                remount: false,
                            }),
                        },
                    ),
                ));
            }
            r.push(
                SetupStep::Mount(
                    MountCall {
                        source: None,
                        target: full,
                        fstype: None,
                        flags: MountFlags {
                            recursive: true,
                            private_propagation: false,
                            read_only: self.options.mounts[i].readonly,
                            no_exec: self.options.mounts[i].no_exec,
                            bind: true,
                            remount: true,
                        },
                    },
                ),
            );
            proof {
                let msq = self.options.mounts.deep_view();
                let m = msq[i as int];
                let step1 = StepView::CreateDirAll(fullv);
                let step2 = StepView::Mount(
                    MountCallView {
                        source: Some(m.source),
                        target: fullv,
                        fstype: Some("none"@),
                        flags: (MountFlags {
                            recursive: true,
                            private_propagation: false,
                            read_only: false,
                            no_exec: false,
                            bind: true,
                            remount: false,
                        }),
                    },
                );
                let step3 = StepView::Mount(
                    MountCallView {
                        source: None,
                        target: fullv,
                        fstype: None,
                        flags: (MountFlags {
                            recursive: true,
                            private_propagation: false,
                            read_only: m.readonly,
                            no_exec: m.no_exec,
                            bind: true,
                            remount: true,
                        }),
                    },
                );
                assert(r.deep_view() =~= p0.push(step1).push(step2).push(step3));
                assert(msq.take(i + 1).drop_last() =~= msq.take(i as int));
                assert(msq.take(i + 1).last() == m);
                assert(mounts_model(root@, msq.take(i + 1)) == mounts_model(
                    root@,
                    msq.take(i as int),
                ) + mount_step_model(root@, m));
                assert(mount_step_model(root@, m) =~= seq![step1, step2, step3]);
                assert(p0.push(step1).push(step2).push(step3) =~= p0 + seq![
                    step1,
                    step2,
                    step3,
                ]);
                assert(r.deep_view() =~= prelude_mount_base(root@) + mounts_model(
                    root@,
                    msq.take(i + 1),
                ));
            }
            i += 1;
        }
        proof {
            let msq = self.options.mounts.deep_view();
            assert(msq.take(self.options.mounts@.len() as int) =~= msq);
        }
        r
    }

    /// The namespace set for the spawn call: Mount, UTS, IPC and PID
    /// always, Network exactly when the configuration asks for it.
    pub fn namespaces(&self) -> (r: Vec<Namespace>)
        ensures
            r@ == namespaces_spec(self.options.new_net),
            r@.contains(Namespace::Net) <==> self.options.new_net,
    {
        let mut r = vec![Namespace::Mount, Namespace::Uts, Namespace::Ipc, Namespace::Pid];
        if self.options.new_net {
            r.push(Namespace::Net);
        }
        proof {
            assert(r@ =~= namespaces_spec(self.options.new_net));
            if self.options.new_net {
                assert(r@[4] == Namespace::Net);
            } else {
                assert(!r@.contains(Namespace::Net)) by {
                    assert forall|i: int| 0 <= i < r@.len() implies r@[i] != Namespace::Net by {
                        assert(r@.len() == 4);
                    }
                }
            }
        }
        r
    }
}

} // verus!
