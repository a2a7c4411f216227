//! What holds of a restore as a whole, from the snapshot to the process.

use vstd::prelude::*;

#[allow(unused_imports)]
use crate::config::{join_path, ConfigView};
#[allow(unused_imports)]
use crate::driver::vm_core::{
    PrepStepView, RestoreActionView, RestoreInputsView, RestorePhaseView, RestoreReplyView,
    RestoreView, VmHandleView,
};
#[allow(unused_imports)]
use crate::model::{flag_at, option, plain};
#[allow(unused_imports)]
use crate::text;

verus! {

/// Whether a step copies `src` to `dst`.
pub open spec fn copies_to(steps: Seq<PrepStepView>, i: int, src: Seq<char>, dst: Seq<char>) -> bool {
    0 <= i < steps.len() && steps[i] == (PrepStepView::Copy { src, dst })
}

/// Whether what is at a place once all steps were done is what was at `src`:
/// it is copied there, and nothing else is.
pub open spec fn comes_from(steps: Seq<PrepStepView>, place: Seq<char>, src: Seq<char>) -> bool {
    &&& exists|i: int| copies_to(steps, i, src, place)
    &&& forall|i: int, other: Seq<char>| #[trigger]
        copies_to(steps, i, other, place) ==> other == src
}

/// Whether a place has its permissions and its owner once all steps were done,
/// given to it behind every copy.
pub open spec fn guarded_as(
    steps: Seq<PrepStepView>,
    place: Seq<char>,
    mode: u32,
    uid: u32,
    gid: u32,
) -> bool {
    &&& steps.contains(PrepStepView::Mode(place, mode))
    &&& steps.contains(PrepStepView::Owner(place, uid, gid))
    &&& forall|m: u32| #[trigger] steps.contains(PrepStepView::Mode(place, m)) ==> m == mode
    &&& forall|u: u32, g: u32| #[trigger]
        steps.contains(PrepStepView::Owner(place, u, g)) ==> u == uid && g == gid
    &&& forall|i: int, j: int|
        0 <= i < j < steps.len() && (#[trigger] steps[i] is Mode || steps[i] is Owner) ==>
            (#[trigger] steps[j]) !is Copy
}

/// Two different names below one directory are two different paths, and none
/// of them is the directory.
pub proof fn names_below_differ(base: Seq<char>, a: Seq<char>, b: Seq<char>)
    requires
        a.len() > 0 && a[0] != '/',
        b.len() > 0 && b[0] != '/',
        a != b,
    ensures
        join_path(base, a) != join_path(base, b),
        join_path(base, a) != base,
{
    let n = if base.len() > 0 && base.last() != '/' {
        base.len() + 1
    } else {
        base.len()
    };
    assert(join_path(base, a).skip(n as int) =~= a);
    assert(join_path(base, b).skip(n as int) =~= b);
}

/// A path as the microVM names it, on the host: the jail is its root.
pub open spec fn in_jail(jail: Seq<char>, path: Seq<char>) -> Seq<char> {
    jail + path
}

proof fn jail_names()
    ensures
        "vmlinux"@.len() == 7 && "vmlinux"@[0] == 'v',
        "rootfs.ext4"@.len() == 11 && "rootfs.ext4"@[0] == 'r',
        "vmstate.src"@.len() == 11 && "vmstate.src"@[0] == 'v',
        "mem.src"@.len() == 7 && "mem.src"@[0] == 'm',
        "data.ext4"@.len() == 9 && "data.ext4"@[0] == 'd',
        "/vmstate.src"@ == "/"@ + "vmstate.src"@,
        "/mem.src"@ == "/"@ + "mem.src"@,
        "/"@ == seq!['/'],
        "root"@.len() == 4 && "root"@[3] == 't' && "root"@[0] == 'r',
{
    reveal_strlit("vmlinux");
    reveal_strlit("rootfs.ext4");
    reveal_strlit("vmstate.src");
    reveal_strlit("mem.src");
    reveal_strlit("data.ext4");
    reveal_strlit("/vmstate.src");
    reveal_strlit("/mem.src");
    reveal_strlit("/");
    reveal_strlit("root");
    assert("/vmstate.src"@ =~= "/"@ + "vmstate.src"@);
    assert("/mem.src"@ =~= "/"@ + "mem.src"@);
    assert("/"@ =~= seq!['/']);
}

/// The steps of a jail.
spec fn steps_for(
    jail: Seq<char>,
    dst: Seq<Seq<char>>,
    src: Seq<Seq<char>>,
    data: Seq<char>,
    rw: Option<Seq<char>>,
    uid: u32,
    gid: u32,
) -> Seq<PrepStepView> {
    seq![
        PrepStepView::Mkdir(jail),
        PrepStepView::Copy { src: src[0], dst: dst[0] },
        PrepStepView::Copy { src: src[1], dst: dst[1] },
        PrepStepView::Copy { src: src[2], dst: dst[2] },
        PrepStepView::Copy { src: src[3], dst: dst[3] },
    ] + (match rw {
        Some(x) => seq![PrepStepView::Copy { src: x, dst: data }],
        None => seq![],
    }) + seq![
        PrepStepView::Mode(jail, 0o700),
        PrepStepView::Owner(jail, uid, gid),
        PrepStepView::Mode(dst[0], 0o444),
        PrepStepView::Owner(dst[0], uid, gid),
        PrepStepView::Mode(dst[1], 0o444),
        PrepStepView::Owner(dst[1], uid, gid),
        PrepStepView::Mode(dst[2], 0o444),
        PrepStepView::Owner(dst[2], uid, gid),
        PrepStepView::Mode(dst[3], 0o444),
        PrepStepView::Owner(dst[3], uid, gid),
    ] + (match rw {
        Some(x) => seq![PrepStepView::Mode(data, 0o666), PrepStepView::Owner(data, uid, gid)],
        None => seq![],
    })
}

/// The steps of a jail with six paths that are all different, and what they come
/// to.
#[verifier::spinoff_prover]
#[verifier::rlimit(40)]
proof fn steps_come_to(
    p: Seq<PrepStepView>,
    jail: Seq<char>,
    dst: Seq<Seq<char>>,
    src: Seq<Seq<char>>,
    data: Seq<char>,
    rw: Option<Seq<char>>,
    uid: u32,
    gid: u32,
)
    requires
        dst.len() == 4,
        src.len() == 4,
        forall|i: int, j: int| 0 <= i < j < 4 ==> #[trigger] dst[i] != #[trigger] dst[j],
        forall|i: int| 0 <= i < 4 ==> #[trigger] dst[i] != jail && dst[i] != data,
        data != jail,
        p == steps_for(jail, dst, src, data, rw, uid, gid),
    ensures
        forall|i: int| 0 <= i < 4 ==> comes_from(p, #[trigger] dst[i], src[i]),
        forall|i: int| 0 <= i < 4 ==> guarded_as(p, #[trigger] dst[i], 0o444, uid, gid),
        guarded_as(p, jail, 0o700, uid, gid),
        rw matches Some(x) ==> comes_from(p, data, x) && guarded_as(p, data, 0o666, uid, gid),
        rw is None ==> forall|i: int, x: Seq<char>| !(#[trigger] copies_to(p, i, x, data)),
{
    assert(dst[0] != dst[1] && dst[0] != dst[2] && dst[0] != dst[3]);
    assert(dst[1] != dst[2] && dst[1] != dst[3] && dst[2] != dst[3]);
    assert(copies_to(p, 1, src[0], dst[0]));
    assert(copies_to(p, 2, src[1], dst[1]));
    assert(copies_to(p, 3, src[2], dst[2]));
    assert(copies_to(p, 4, src[3], dst[3]));
    let k: int = if rw is Some {
        6
    } else {
        5
    };
    if rw is Some {
        assert(copies_to(p, 5, rw.unwrap(), data));
        assert(p[16] == PrepStepView::Mode(data, 0o666));
        assert(p[17] == PrepStepView::Owner(data, uid, gid));
        assert(p.len() == 18);
    } else {
        assert(p.len() == 15);
    }
    assert(p[k] == PrepStepView::Mode(jail, 0o700));
    assert(p[k + 1] == PrepStepView::Owner(jail, uid, gid));
    assert(p[k + 2] == PrepStepView::Mode(dst[0], 0o444));
    assert(p[k + 3] == PrepStepView::Owner(dst[0], uid, gid));
    assert(p[k + 4] == PrepStepView::Mode(dst[1], 0o444));
    assert(p[k + 5] == PrepStepView::Owner(dst[1], uid, gid));
    assert(p[k + 6] == PrepStepView::Mode(dst[2], 0o444));
    assert(p[k + 7] == PrepStepView::Owner(dst[2], uid, gid));
    assert(p[k + 8] == PrepStepView::Mode(dst[3], 0o444));
    assert(p[k + 9] == PrepStepView::Owner(dst[3], uid, gid));
}

/// Each file of the snapshot lies, once the jail is filled, where the microVM
/// is later told to take it from: the state of the snapshot where the request
/// to load it names the state, its memory where the request names the memory,
/// kernel and root file system under their own names, and the writable layer
/// as the data disk where there is one. The snapshot can only be read, the data
/// disk can be written, the jail is closed to others, and all of it belongs to
/// the user that the microVM runs as.
#[verifier::rlimit(30)]
pub proof fn snapshot_lies_where_it_is_loaded_from(
    cfg: ConfigView,
    id: Seq<char>,
    shim_pid: u32,
    inputs: RestoreInputsView,
    pid: u32,
)
    ensures
        ({
            let t = RestoreView::begin(cfg, id, shim_pid, inputs);
            let jail = cfg.jail_root(id);
            let uid = inputs.jailer_uid;
            let gid = inputs.jailer_gid;
            let load = RestoreView { phase: RestorePhaseView::Load(pid), ..t }.wants();
            &&& t.prep.len() > 0 && t.prep[0] == PrepStepView::Mkdir(jail)
            &&& load is LoadSnapshot
            &&& comes_from(
                t.prep,
                in_jail(jail, load->LoadSnapshot_vmstate),
                join_path(inputs.bundle_dir, "vmstate"@),
            )
            &&& comes_from(
                t.prep,
                in_jail(jail, load->LoadSnapshot_mem),
                join_path(inputs.bundle_dir, "mem"@),
            )
            &&& comes_from(
                t.prep,
                in_jail(jail, "/vmlinux"@),
                join_path(inputs.bundle_dir, "vmlinux"@),
            )
            &&& comes_from(
                t.prep,
                in_jail(jail, "/rootfs.ext4"@),
                join_path(inputs.bundle_dir, "rootfs.ext4"@),
            )
            &&& inputs.rw_layer_path matches Some(rw) ==> comes_from(
                t.prep,
                in_jail(jail, "/data.ext4"@),
                rw,
            ) && guarded_as(t.prep, in_jail(jail, "/data.ext4"@), 0o666, uid, gid)
            &&& inputs.rw_layer_path is None ==> forall|i: int, src: Seq<char>|
                !(#[trigger] copies_to(t.prep, i, src, in_jail(jail, "/data.ext4"@)))
            &&& guarded_as(t.prep, jail, 0o700, uid, gid)
            &&& guarded_as(t.prep, in_jail(jail, load->LoadSnapshot_vmstate), 0o444, uid, gid)
            &&& guarded_as(t.prep, in_jail(jail, load->LoadSnapshot_mem), 0o444, uid, gid)
            &&& guarded_as(t.prep, in_jail(jail, "/vmlinux"@), 0o444, uid, gid)
            &&& guarded_as(t.prep, in_jail(jail, "/rootfs.ext4"@), 0o444, uid, gid)
        }),
{
    let t = RestoreView::begin(cfg, id, shim_pid, inputs);
    let jail = cfg.jail_root(id);
    jail_names();
    reveal_strlit("/vmlinux");
    reveal_strlit("/rootfs.ext4");
    reveal_strlit("/data.ext4");
    let a = join_path(jail, "vmlinux"@);
    let b = join_path(jail, "rootfs.ext4"@);
    let c = join_path(jail, "vmstate.src"@);
    let d = join_path(jail, "mem.src"@);
    let e = join_path(jail, "data.ext4"@);
    assert(jail.len() > 0 && jail.last() == 't');
    reveal_strlit("vmlinux");
    reveal_strlit("rootfs.ext4");
    reveal_strlit("data.ext4");
    assert(in_jail(jail, "/vmlinux"@) =~= a);
    assert(in_jail(jail, "/rootfs.ext4"@) =~= b);
    assert(in_jail(jail, "/vmstate.src"@) =~= c);
    assert(in_jail(jail, "/mem.src"@) =~= d);
    assert(in_jail(jail, "/data.ext4"@) =~= e);
    names_below_differ(jail, "vmlinux"@, "rootfs.ext4"@);
    names_below_differ(jail, "vmlinux"@, "vmstate.src"@);
    names_below_differ(jail, "vmlinux"@, "mem.src"@);
    names_below_differ(jail, "vmlinux"@, "data.ext4"@);
    names_below_differ(jail, "rootfs.ext4"@, "vmstate.src"@);
    names_below_differ(jail, "rootfs.ext4"@, "mem.src"@);
    names_below_differ(jail, "rootfs.ext4"@, "data.ext4"@);
    names_below_differ(jail, "vmstate.src"@, "mem.src"@);
    names_below_differ(jail, "vmstate.src"@, "data.ext4"@);
    names_below_differ(jail, "mem.src"@, "data.ext4"@);
    names_below_differ(jail, "data.ext4"@, "vmlinux"@);
    let p = t.prep;
    let bundle = inputs.bundle_dir;
    let uid = inputs.jailer_uid;
    let gid = inputs.jailer_gid;
    let dst = seq![a, b, c, d];
    let src = seq![
        join_path(bundle, "vmlinux"@),
        join_path(bundle, "rootfs.ext4"@),
        join_path(bundle, "vmstate"@),
        join_path(bundle, "mem"@),
    ];
    assert(p =~= steps_for(jail, dst, src, e, inputs.rw_layer_path, uid, gid));
    steps_come_to(p, jail, dst, src, e, inputs.rw_layer_path, uid, gid);
    assert(dst[0] == a && dst[1] == b && dst[2] == c && dst[3] == d);
}

/// A restore after a number of replies.
pub open spec fn restored(s: RestoreView, replies: Seq<RestoreReplyView>) -> RestoreView
    decreases replies.len(),
{
    if replies.len() == 0 {
        s
    } else {
        let before = restored(s, replies.drop_last());
        RestoreView { phase: before.after(replies.last()), ..before }
    }
}

/// What a restore has asked for and what it was replied, in order.
pub open spec fn restore_log(s: RestoreView, replies: Seq<RestoreReplyView>) -> Seq<
    (RestoreActionView, RestoreReplyView),
>
    decreases replies.len(),
{
    if replies.len() == 0 {
        seq![]
    } else {
        restore_log(s, replies.drop_last()).push(
            (restored(s, replies.drop_last()).wants(), replies.last()),
        )
    }
}

/// Whether the first steps that fill the jail were all done. Only permissions
/// and owners may have failed.
pub open spec fn filled(
    log: Seq<(RestoreActionView, RestoreReplyView)>,
    prep: Seq<PrepStepView>,
    n: int,
) -> bool {
    forall|i: int|
        0 <= i < n ==> {
            ||| log.contains(
                (RestoreActionView::Prepare(#[trigger] prep[i]), RestoreReplyView::Done),
            )
            ||| (prep[i] is Mode || prep[i] is Owner) && exists|e: Seq<char>| #[trigger]
                log.contains((RestoreActionView::Prepare(prep[i]), RestoreReplyView::Failed(e)))
        }
}

/// Whether the jailer was started in the right way and ended well.
pub open spec fn jailed(
    log: Seq<(RestoreActionView, RestoreReplyView)>,
    inputs: RestoreInputsView,
    id: Seq<char>,
) -> bool {
    exists|program: Seq<char>, args: Seq<Seq<char>>|
        {
            &&& #[trigger] log.contains(
                (RestoreActionView::SpawnJailer { program, args }, RestoreReplyView::Done),
            )
            &&& program == inputs.jailer_bin
            &&& jails(args, inputs, id)
        }
}

/// Whether the words behind the jailer put the microVM of a sandbox into its
/// jail, its network and its user.
pub open spec fn jails(args: Seq<Seq<char>>, inputs: RestoreInputsView, id: Seq<char>) -> bool {
    plain(id) && plain(inputs.firecracker_bin) && plain(inputs.chroot_base_dir) && plain(
        inputs.netns_path,
    ) ==> {
        &&& option(args, "--id"@) == Some(id)
        &&& option(args, "--exec-file"@) == Some(inputs.firecracker_bin)
        &&& option(args, "--uid"@) == Some(text::dec(inputs.jailer_uid as nat))
        &&& option(args, "--gid"@) == Some(text::dec(inputs.jailer_gid as nat))
        &&& option(args, "--chroot-base-dir"@) == Some(inputs.chroot_base_dir)
        &&& option(args, "--netns"@) == Some(inputs.netns_path)
        &&& option(args, "--api-sock"@) == Some("run/firecracker.socket"@)
        &&& option(args, "--log-path"@) == Some("fc-"@ + id + ".log"@)
        &&& args.contains("--new-pid-ns"@)
        &&& args.contains("--daemonize"@)
    }
}

/// What was asked and replied by the time that a restore has come to a phase.
pub open spec fn come_to(
    log: Seq<(RestoreActionView, RestoreReplyView)>,
    s: RestoreView,
) -> bool {
    let up = |pid: u32|
        {
            &&& filled(log, s.prep, s.prep.len() as int)
            &&& jailed(log, s.inputs, s.sandbox_id)
            &&& log.contains(
                (
                    RestoreActionView::ProbePath(in_jail(s.jail(), "/run/firecracker.socket"@)),
                    RestoreReplyView::Flag(true),
                ),
            )
            &&& log.contains(
                (RestoreActionView::FindPid(s.jail()), RestoreReplyView::Pid(Some(pid))),
            )
        };
    let loaded = log.contains(
        (
            RestoreActionView::LoadSnapshot {
                sock: in_jail(s.jail(), "/run/firecracker.socket"@),
                vmstate: "/vmstate.src"@,
                mem: "/mem.src"@,
            },
            RestoreReplyView::Done,
        ),
    );
    let reached = s.cfg.net.wait_guest_agent ==> log.contains(
        (
            RestoreActionView::WaitAgent {
                netns_path: s.inputs.netns_path,
                ip: s.cfg.net.guest_ip,
                port: s.cfg.net.guest_agent_port,
                secs: s.cfg.net.guest_agent_wait_secs,
            },
            RestoreReplyView::Done,
        ),
    );
    let known = |pid: u32, ino: u64|
        log.contains((RestoreActionView::StatMntns(pid), RestoreReplyView::Inode(ino)));
    match s.phase {
        RestorePhaseView::Prepare(i) => i < s.prep.len() && filled(log, s.prep, i as int),
        RestorePhaseView::Cgroup => filled(log, s.prep, s.prep.len() as int),
        RestorePhaseView::Jailer(_) => filled(log, s.prep, s.prep.len() as int),
        RestorePhaseView::Settle => filled(log, s.prep, s.prep.len() as int) && jailed(
            log,
            s.inputs,
            s.sandbox_id,
        ),
        RestorePhaseView::Socket(_) => filled(log, s.prep, s.prep.len() as int) && jailed(
            log,
            s.inputs,
            s.sandbox_id,
        ),
        RestorePhaseView::SocketWait(_) => filled(log, s.prep, s.prep.len() as int) && jailed(
            log,
            s.inputs,
            s.sandbox_id,
        ),
        RestorePhaseView::Find => {
            &&& filled(log, s.prep, s.prep.len() as int)
            &&& jailed(log, s.inputs, s.sandbox_id)
            &&& log.contains(
                (
                    RestoreActionView::ProbePath(in_jail(s.jail(), "/run/firecracker.socket"@)),
                    RestoreReplyView::Flag(true),
                ),
            )
        },
        RestorePhaseView::DebugFlag(pid) => up(pid),
        RestorePhaseView::Diag(pid) => up(pid),
        RestorePhaseView::Logger(pid) => up(pid),
        RestorePhaseView::Load(pid) => up(pid),
        RestorePhaseView::Agent(pid) => up(pid) && loaded,
        RestorePhaseView::Inode(pid) => up(pid) && loaded && reached,
        RestorePhaseView::Meta(pid, ino) => up(pid) && loaded && reached && known(pid, ino),
        RestorePhaseView::Done(Ok(h)) => {
            &&& up(h.fc_pid)
            &&& loaded
            &&& reached
            &&& known(h.fc_pid, h.mntns_inode)
            &&& exists|r: RestoreReplyView| #[trigger]
                log.contains(
                    (
                        RestoreActionView::WriteMeta(
                            crate::driver::identity::ShimMeta {
                                fc_pid: h.fc_pid,
                                mntns_inode: h.mntns_inode,
                                started_at: 0,
                                shim_pid: s.shim_pid,
                            },
                        ),
                        r,
                    ),
                )
        },
        _ => true,
    }
}

proof fn jailer_flags()
    ensures
        "--id"@.len() == 4 && "--id"@[0] == '-',
        "--exec-file"@.len() == 11 && "--exec-file"@[0] == '-' && "--exec-file"@[2] == 'e',
        "--uid"@.len() == 5 && "--uid"@[0] == '-' && "--uid"@[2] == 'u',
        "--gid"@.len() == 5 && "--gid"@[0] == '-' && "--gid"@[2] == 'g',
        "--chroot-base-dir"@.len() == 17 && "--chroot-base-dir"@[0] == '-',
        "--cgroup-version"@.len() == 16 && "--cgroup-version"@[0] == '-',
        "2"@.len() == 1,
        "--new-pid-ns"@.len() == 12 && "--new-pid-ns"@[0] == '-',
        "--netns"@.len() == 7 && "--netns"@[0] == '-' && "--netns"@[2] == 'n',
        "--daemonize"@.len() == 11 && "--daemonize"@[0] == '-' && "--daemonize"@[2] == 'd',
        "--"@.len() == 2,
        "--api-sock"@.len() == 10 && "--api-sock"@[0] == '-' && "--api-sock"@[2] == 'a',
        "--log-path"@.len() == 10 && "--log-path"@[0] == '-' && "--log-path"@[2] == 'l',
        "--level"@.len() == 7 && "--level"@[0] == '-' && "--level"@[2] == 'l',
        "run/firecracker.socket"@.len() == 22,
{
    reveal_strlit("--id");
    reveal_strlit("--exec-file");
    reveal_strlit("--uid");
    reveal_strlit("--gid");
    reveal_strlit("--chroot-base-dir");
    reveal_strlit("--cgroup-version");
    reveal_strlit("2");
    reveal_strlit("--new-pid-ns");
    reveal_strlit("--netns");
    reveal_strlit("--daemonize");
    reveal_strlit("--");
    reveal_strlit("--api-sock");
    reveal_strlit("--log-path");
    reveal_strlit("--level");
    reveal_strlit("run/firecracker.socket");
}

/// A number in decimal is no flag.
proof fn dec_is_plain(n: nat)
    ensures
        plain(text::dec(n)),
{
    text::dec_reads_back(n);
    let d = text::dec(n);
    if d.len() > 0 && d[0] == '-' {
        assert(text::is_digits(d));
    }
}

proof fn words_jail(inputs: RestoreInputsView, id: Seq<char>, cgroup2: bool)
    ensures
        jails(crate::driver::vm_core::jailer_words(inputs, id, cgroup2), inputs, id),
{
    let w = crate::driver::vm_core::jailer_words(inputs, id, cgroup2);
    if plain(id) && plain(inputs.firecracker_bin) && plain(inputs.chroot_base_dir) && plain(
        inputs.netns_path,
    ) {
        jailer_flags();
        dec_is_plain(inputs.jailer_uid as nat);
        dec_is_plain(inputs.jailer_gid as nat);
        let k: int = if cgroup2 {
            12
        } else {
            10
        };
        assert(w.len() == k + 11);
        assert(w[0] == "--id"@ && w[1] == id);
        assert(w[2] == "--exec-file"@ && w[3] == inputs.firecracker_bin);
        assert(w[4] == "--uid"@ && w[5] == text::dec(inputs.jailer_uid as nat));
        assert(w[6] == "--gid"@ && w[7] == text::dec(inputs.jailer_gid as nat));
        assert(w[8] == "--chroot-base-dir"@ && w[9] == inputs.chroot_base_dir);
        if cgroup2 {
            assert(w[10] == "--cgroup-version"@ && w[11] == "2"@);
        }
        assert(w[k] == "--new-pid-ns"@ && w[k + 1] == "--netns"@ && w[k + 2] == inputs.netns_path);
        assert(w[k + 3] == "--daemonize"@ && w[k + 4] == "--"@);
        assert(w[k + 5] == "--api-sock"@ && w[k + 6] == "run/firecracker.socket"@);
        assert(w[k + 7] == "--log-path"@);
        crate::model::option_at(w, "--id"@, 0);
        crate::model::option_at(w, "--exec-file"@, 2);
        crate::model::option_at(w, "--uid"@, 4);
        crate::model::option_at(w, "--gid"@, 6);
        crate::model::option_at(w, "--chroot-base-dir"@, 8);
        crate::model::option_at(w, "--netns"@, k + 1);
        reveal_strlit("run/firecracker.socket");
        crate::model::option_at(w, "--api-sock"@, k + 5);
        crate::model::option_at(w, "--log-path"@, k + 7);
    }
}

/// Whatever is replied, and however often: a microVM is handed out only where
/// the jail was filled step by step, the jailer was started with the user, the
/// jail and the network of the sandbox, the control socket in the jail was
/// there, the process was found in the jail, the snapshot was loaded through
/// that socket, the agent was reached where that is asked for, and the process
/// that is handed out is the one that was found, with the mount namespace that
/// it was seen in, of which a note was left.
#[verifier::rlimit(30)]
pub proof fn a_microvm_is_handed_out_only_when_it_is_up(
    cfg: ConfigView,
    id: Seq<char>,
    shim_pid: u32,
    inputs: RestoreInputsView,
    replies: Seq<RestoreReplyView>,
)
    requires
        inputs.cloud_disk_dev is None || inputs.cloud_disk_dev.unwrap().len() == 0,
    ensures
        ({
            let t = RestoreView::begin(cfg, id, shim_pid, inputs);
            let s = restored(t, replies);
            &&& s == (RestoreView { phase: s.phase, ..t })
            &&& come_to(restore_log(t, replies), s)
        }),
    decreases replies.len(),
{
    let t = RestoreView::begin(cfg, id, shim_pid, inputs);
    if replies.len() == 0 {
        snapshot_lies_where_it_is_loaded_from(cfg, id, shim_pid, inputs, 0);
    } else {
        a_microvm_is_handed_out_only_when_it_is_up(
            cfg,
            id,
            shim_pid,
            inputs,
            replies.drop_last(),
        );
        let b = restored(t, replies.drop_last());
        let l = restore_log(t, replies.drop_last());
        let x = (b.wants(), replies.last());
        let m = l.push(x);
        crate::model::push_keeps(l, x);
        words_jail(inputs, id, true);
        words_jail(inputs, id, false);
        socket_in_jail(cfg, id);
        assert forall|n: int| #[trigger] filled(l, b.prep, n) implies filled(m, b.prep, n) by {
            assert forall|i: int| 0 <= i < n implies {
                ||| m.contains(
                    (RestoreActionView::Prepare(#[trigger] b.prep[i]), RestoreReplyView::Done),
                )
                ||| (b.prep[i] is Mode || b.prep[i] is Owner) && exists|e: Seq<char>| #[trigger]
                    m.contains(
                        (RestoreActionView::Prepare(b.prep[i]), RestoreReplyView::Failed(e)),
                    )
            } by {
                if !l.contains(
                    (RestoreActionView::Prepare(b.prep[i]), RestoreReplyView::Done),
                ) {
                    let e = choose|e: Seq<char>| #[trigger]
                        l.contains(
                            (RestoreActionView::Prepare(b.prep[i]), RestoreReplyView::Failed(e)),
                        );
                    assert(m.contains(
                        (RestoreActionView::Prepare(b.prep[i]), RestoreReplyView::Failed(e)),
                    ));
                }
            }
        }
        if jailed(l, inputs, id) {
            let (program, args) = choose|program: Seq<char>, args: Seq<Seq<char>>|
                {
                    &&& #[trigger] l.contains(
                        (RestoreActionView::SpawnJailer { program, args }, RestoreReplyView::Done),
                    )
                    &&& program == inputs.jailer_bin
                    &&& jails(args, inputs, id)
                };
            assert(m.contains(
                (RestoreActionView::SpawnJailer { program, args }, RestoreReplyView::Done),
            ));
        }
        if b.phase is Prepare {
            let i = b.phase->Prepare_0;
            if replies.last() is Done || replies.last() is Failed {
                assert(x.0 == RestoreActionView::Prepare(b.prep[i as int]));
                assert(filled(m, b.prep, i as int));
                if b.after(replies.last()) !is Done {
                    assert(filled(m, b.prep, i + 1));
                }
            }
        }
        if let RestorePhaseView::Done(Ok(h)) = b.phase {
            let r = choose|r: RestoreReplyView| #[trigger]
                l.contains(
                    (
                        RestoreActionView::WriteMeta(
                            crate::driver::identity::ShimMeta {
                                fc_pid: h.fc_pid,
                                mntns_inode: h.mntns_inode,
                                started_at: 0,
                                shim_pid: b.shim_pid,
                            },
                        ),
                        r,
                    ),
                );
            assert(m.contains(
                (
                    RestoreActionView::WriteMeta(
                        crate::driver::identity::ShimMeta {
                            fc_pid: h.fc_pid,
                            mntns_inode: h.mntns_inode,
                            started_at: 0,
                            shim_pid: b.shim_pid,
                        },
                    ),
                    r,
                ),
            ));
        }
    }
}

/// The control socket lies in the jail where the jailer was told to make it.
proof fn socket_in_jail(cfg: ConfigView, id: Seq<char>)
    ensures
        join_path(join_path(cfg.jail_root(id), "run"@), "firecracker.socket"@) == in_jail(
            cfg.jail_root(id),
            "/run/firecracker.socket"@,
        ),
{
    let jail = cfg.jail_root(id);
    reveal_strlit("root");
    reveal_strlit("run");
    reveal_strlit("firecracker.socket");
    reveal_strlit("/run/firecracker.socket");
    assert(jail.len() > 0 && jail.last() == 't');
    assert(join_path(join_path(jail, "run"@), "firecracker.socket"@) =~= in_jail(
        jail,
        "/run/firecracker.socket"@,
    ));
}

} // verus!
