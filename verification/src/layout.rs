//! Where the files of a sandbox lie, and how its disks come to be there.

use vstd::prelude::*;

#[allow(unused_imports)]
use crate::config::{base_name, join_path, ConfigView, SandboxTypeView};
#[allow(unused_imports)]
use crate::model::{flag_at, option, option_at, push_keeps};
#[allow(unused_imports)]
use crate::net::setup::RunFailureView;
#[allow(unused_imports)]
use crate::storage::{
    DiskConfigView, ProvisionActionView, ProvisionPhaseView, ProvisionReplyView, ProvisionView,
    StorageErrorView,
};
#[allow(unused_imports)]
use crate::text;

verus! {

/// Whether a text names a directory without a slash at its end.
pub open spec fn is_dir(path: Seq<char>) -> bool {
    path.len() > 0 && path.last() != '/'
}

/// Whether a text is one name below a directory.
pub open spec fn is_name(name: Seq<char>) -> bool {
    name.len() > 0 && !name.contains('/')
}

proof fn below(dir: Seq<char>, name: Seq<char>)
    requires
        is_dir(dir),
        name.len() > 0,
        name[0] != '/',
    ensures
        join_path(dir, name) == dir + "/"@ + name,
        is_dir(join_path(dir, name)) <==> name.last() != '/',
{
    reveal_strlit("/");
    assert(dir.push('/') + name =~= dir + "/"@ + name);
}

proof fn plain_name(name: Seq<char>)
    requires
        is_name(name),
    ensures
        name[0] != '/',
        name.last() != '/',
{
    assert(name.contains(name[0]));
    assert(name.contains(name.last()));
}

/// The files of a sandbox and of its type lie under the directories of the
/// configuration, each under a name that tells the sandbox.
pub proof fn paths_of_a_sandbox(c: ConfigView, id: Seq<char>, bundle: Seq<char>)
    requires
        is_dir(c.artifacts_dir),
        is_dir(c.chroot_base_dir),
        is_dir(c.run_base_dir),
        is_dir(c.log_dir),
        is_name(id),
        is_name(bundle),
    ensures
        c.bundle_dir(bundle) == c.artifacts_dir + "/snapshots/"@ + bundle,
        c.sandbox_dir(id) == c.chroot_base_dir + "/firecracker/"@ + id,
        c.jail_root(id) == c.chroot_base_dir + "/firecracker/"@ + id + "/root"@,
        c.shim_socket(id) == c.run_base_dir + "/oas-shim-"@ + id + ".sock"@,
        c.shim_log(id) == c.log_dir + "/oas-shim-"@ + id + ".log"@,
        c.netns_path(id) == "/var/run/netns/"@ + c.netns_name(id),
{
    plain_name(id);
    plain_name(bundle);
    reveal_strlit("/");
    reveal_strlit("snapshots");
    reveal_strlit("/snapshots/");
    reveal_strlit("firecracker");
    reveal_strlit("/firecracker/");
    reveal_strlit("root");
    reveal_strlit("/root");
    reveal_strlit("oas-shim-");
    reveal_strlit("/oas-shim-");
    reveal_strlit(".sock");
    reveal_strlit(".log");
    reveal_strlit("oas-");
    reveal_strlit("/var/run/netns/");
    reveal_strlit("/var/run/netns/oas-");
    below(c.artifacts_dir, "snapshots"@);
    below(join_path(c.artifacts_dir, "snapshots"@), bundle);
    assert(c.bundle_dir(bundle) =~= c.artifacts_dir + "/snapshots/"@ + bundle);
    below(c.chroot_base_dir, "firecracker"@);
    below(join_path(c.chroot_base_dir, "firecracker"@), id);
    assert(c.sandbox_dir(id) =~= c.chroot_base_dir + "/firecracker/"@ + id);
    below(c.sandbox_dir(id), "root"@);
    assert(c.jail_root(id) =~= c.chroot_base_dir + "/firecracker/"@ + id + "/root"@);
    below(c.run_base_dir, "oas-shim-"@ + id + ".sock"@);
    assert(c.shim_socket(id) =~= c.run_base_dir + "/oas-shim-"@ + id + ".sock"@);
    below(c.log_dir, "oas-shim-"@ + id + ".log"@);
    assert(c.shim_log(id) =~= c.log_dir + "/oas-shim-"@ + id + ".log"@);
    assert(c.netns_path(id) =~= "/var/run/netns/"@ + c.netns_name(id));
}

proof fn middle_differs(a: Seq<char>, x: Seq<char>, y: Seq<char>, b: Seq<char>)
    requires
        a + x + b == a + y + b,
    ensures
        x == y,
{
    let p = a + x + b;
    let q = a + y + b;
    assert((a + x).len() == a.len() + x.len());
    assert((a + y).len() == a.len() + y.len());
    assert(p.len() == a.len() + x.len() + b.len());
    assert(q.len() == a.len() + y.len() + b.len());
    assert forall|i: int| 0 <= i < x.len() implies x[i] == y[i] by {
        assert(p[a.len() + i] == x[i]);
        assert(q[a.len() + i] == y[i]);
    }
    assert(x =~= y);
}

/// Two sandboxes share none of their files.
pub proof fn sandboxes_share_no_path(c: ConfigView, a: Seq<char>, b: Seq<char>)
    requires
        is_dir(c.artifacts_dir),
        is_dir(c.chroot_base_dir),
        is_dir(c.run_base_dir),
        is_dir(c.log_dir),
        is_name(a),
        is_name(b),
        a != b,
    ensures
        c.sandbox_dir(a) != c.sandbox_dir(b),
        c.jail_root(a) != c.jail_root(b),
        c.shim_socket(a) != c.shim_socket(b),
        c.shim_log(a) != c.shim_log(b),
        c.netns_name(a) != c.netns_name(b),
        c.netns_path(a) != c.netns_path(b),
{
    paths_of_a_sandbox(c, a, a);
    paths_of_a_sandbox(c, b, b);
    if c.sandbox_dir(a) == c.sandbox_dir(b) {
        assert(c.sandbox_dir(a) + seq![] =~= c.sandbox_dir(a));
        assert(c.sandbox_dir(b) + seq![] =~= c.sandbox_dir(b));
        middle_differs(c.chroot_base_dir + "/firecracker/"@, a, b, seq![]);
    }
    if c.jail_root(a) == c.jail_root(b) {
        middle_differs(c.chroot_base_dir + "/firecracker/"@, a, b, "/root"@);
    }
    if c.shim_socket(a) == c.shim_socket(b) {
        middle_differs(c.run_base_dir + "/oas-shim-"@, a, b, ".sock"@);
    }
    if c.shim_log(a) == c.shim_log(b) {
        middle_differs(c.log_dir + "/oas-shim-"@, a, b, ".log"@);
    }
    if c.netns_name(a) == c.netns_name(b) {
        assert("oas-"@ + a + seq![] =~= "oas-"@ + a);
        assert("oas-"@ + b + seq![] =~= "oas-"@ + b);
        middle_differs("oas-"@, a, b, seq![]);
    }
    if c.netns_path(a) == c.netns_path(b) {
        assert("/var/run/netns/oas-"@ + a + seq![] =~= "/var/run/netns/oas-"@ + a);
        assert("/var/run/netns/oas-"@ + b + seq![] =~= "/var/run/netns/oas-"@ + b);
        middle_differs("/var/run/netns/oas-"@, a, b, seq![]);
    }
}

/// A path below a directory that ends with a slash has that slash only; an
/// absolute path stays as it is.
pub proof fn joined_paths_have_one_slash(dir: Seq<char>, name: Seq<char>)
    requires
        name.len() > 0,
    ensures
        name[0] == '/' ==> join_path(dir, name) == name,
        name[0] != '/' && dir.len() > 0 && dir.last() == '/' ==> join_path(dir, name) == dir
            + name,
        name[0] != '/' && is_dir(dir) ==> join_path(dir, name) == dir + "/"@ + name,
{
    if name[0] != '/' && is_dir(dir) {
        below(dir, name);
    }
}

/// The type with a number is the first in the table that has the number, and
/// there is none just where no type has it.
pub proof fn a_type_has_its_number(c: ConfigView, n: u8)
    ensures
        match c.get_type(n) {
            Some(ty) => {
                &&& ty.type_id == n
                &&& exists|i: int|
                    {
                        &&& 0 <= i < c.types.len()
                        &&& #[trigger] c.types[i] == ty
                        &&& forall|j: int| 0 <= j < i ==> (#[trigger] c.types[j]).type_id != n
                    }
            },
            None => forall|i: int|
                0 <= i < c.types.len() ==> (#[trigger] c.types[i]).type_id != n,
        },
{
    if exists|i: int| c.type_at(n, i) {
        let i = choose|i: int| c.type_at(n, i);
        assert(c.types[i] == c.get_type(n).unwrap());
    } else {
        assert forall|i: int| 0 <= i < c.types.len() implies (#[trigger] c.types[i]).type_id
            != n by {
            if c.types[i].type_id == n {
                first_of(c, n, i);
            }
        }
    }
}

proof fn first_of(c: ConfigView, n: u8, i: int)
    requires
        0 <= i < c.types.len(),
        c.types[i].type_id == n,
    ensures
        exists|k: int| c.type_at(n, k),
    decreases i,
{
    if exists|j: int| 0 <= j < i && (#[trigger] c.types[j]).type_id == n {
        let j = choose|j: int| 0 <= j < i && (#[trigger] c.types[j]).type_id == n;
        first_of(c, n, j);
    } else {
        assert(c.type_at(n, i));
    }
}

proof fn last_place_at(s: Seq<char>, c: char, i: int)
    requires
        0 <= i < s.len(),
        s[i] == c,
        forall|j: int| i < j < s.len() ==> s[j] != c,
    ensures
        s.index_of_last(c) == Some(i),
{
    assert(s.contains(c));
    s.index_of_last_ensures(c);
    let k = s.index_of_last(c).unwrap();
    if k > i {
        assert(s[k] != c);
    }
}

proof fn bare_of(repo: Seq<char>, rest: Seq<char>)
    ensures
        ({
            let image = repo + "/"@ + rest;
            let bare = if text::has_prefix(image, "sha256:"@) || text::has_prefix(
                image,
                "sha512:"@,
            ) {
                image.skip(7)
            } else {
                image
            };
            exists|head: Seq<char>|
                head.len() > 0 && head.last() == '/' && bare == #[trigger] (head + rest)
        }),
{
    reveal_strlit("/");
    reveal_strlit("sha256:");
    reveal_strlit("sha512:");
    let image = repo + "/"@ + rest;
    if text::has_prefix(image, "sha256:"@) || text::has_prefix(image, "sha512:"@) {
        if repo.len() < 7 {
            assert(image[repo.len() as int] == '/');
            assert(image.take(7)[repo.len() as int] == '/');
        }
        let head = repo.skip(7) + "/"@;
        assert(image.skip(7) =~= head + rest);
    } else {
        let head = repo + "/"@;
        assert(image =~= head + rest);
    }
}

/// An image is known by its name alone: neither the registry and path before
/// the last slash nor the tag behind the colon tells it from another. Before a
/// tag, the name of a digest does not count as one.
#[verifier::rlimit(30)]
pub proof fn an_image_is_known_by_its_name(repo: Seq<char>, name: Seq<char>, tag: Seq<char>)
    requires
        is_name(name),
        !name.contains(':'),
        !tag.contains('/'),
        !tag.contains(':'),
    ensures
        base_name(name) == name,
        name != "sha256"@ && name != "sha512"@ ==> base_name(name + ":"@ + tag) == name,
        base_name(repo + "/"@ + name) == name,
        base_name(repo + "/"@ + name + ":"@ + tag) == name,
        base_name("sha256:"@ + name) == name,
        base_name("sha512:"@ + name) == name,
{
    reveal_strlit(":");
    reveal_strlit("/");
    reveal_strlit("sha256:");
    reveal_strlit("sha512:");
    reveal_strlit("sha256");
    reveal_strlit("sha512");
    plain_name(name);
    let short = name + ":"@ + tag;
    cut_of(seq![], name, tag);
    assert(seq![] + name =~= name);
    assert(seq![] + name + ":"@ + tag =~= short);
    if text::has_prefix(name, "sha256:"@) || text::has_prefix(name, "sha512:"@) {
        assert(name.take(7)[6] == ':');
        assert(name.contains(name[6]));
    }
    if text::has_prefix(short, "sha256:"@) || text::has_prefix(short, "sha512:"@) {
        let p = if text::has_prefix(short, "sha256:"@) {
            "sha256"@
        } else {
            "sha512"@
        };
        assert forall|j: int| 0 <= j < 6 implies short[j] == #[trigger] p[j] by {
            assert(short.take(7)[j] == p[j]);
        }
        assert(short.take(7)[6] == ':');
        if name.len() > 6 {
            assert(name.contains(name[6]));
        }
        if name.len() < 6 {
            assert(short[name.len() as int] == ':');
            assert(p[name.len() as int] != ':');
        }
        assert(name =~= p);
    }
    bare_of(repo, name);
    let a = repo + "/"@ + name;
    let bare = if text::has_prefix(a, "sha256:"@) || text::has_prefix(a, "sha512:"@) {
        a.skip(7)
    } else {
        a
    };
    let head = choose|head: Seq<char>|
        head.len() > 0 && head.last() == '/' && bare == #[trigger] (head + name);
    cut_of(head, name, tag);
    bare_of(repo, short);
    let b = repo + "/"@ + name + ":"@ + tag;
    assert(repo + "/"@ + short =~= b);
    let bare2 = if text::has_prefix(b, "sha256:"@) || text::has_prefix(b, "sha512:"@) {
        b.skip(7)
    } else {
        b
    };
    let head2 = choose|head: Seq<char>|
        head.len() > 0 && head.last() == '/' && bare2 == #[trigger] (head + short);
    cut_of(head2, name, tag);
    assert(head2 + name + ":"@ + tag =~= head2 + short);
    assert(("sha256:"@ + name).take(7) =~= "sha256:"@);
    assert(("sha256:"@ + name).skip(7) =~= name);
    assert(("sha512:"@ + name).take(7) =~= "sha512:"@);
    assert(("sha512:"@ + name).skip(7) =~= name);
}

#[verifier::rlimit(30)]
proof fn cut_of(head: Seq<char>, name: Seq<char>, tag: Seq<char>)
    requires
        is_name(name),
        !name.contains(':'),
        !tag.contains('/'),
        !tag.contains(':'),
        head.len() == 0 || head.last() == '/',
    ensures
        text::before_last(text::after_last(head + name, '/'), ':') == name,
        text::before_last(text::after_last(head + name + ":"@ + tag, '/'), ':') == name,
{
    reveal_strlit(":");
    let a = head + name;
    let b = head + name + ":"@ + tag;
    let short = name + ":"@ + tag;
    let n = head.len() as int;
    assert forall|j: int| 0 <= j < short.len() implies short[j] != '/' by {
        if j < name.len() {
            assert(name.contains(name[j]));
        } else if j > name.len() {
            assert(tag.contains(tag[j - name.len() - 1]));
        }
    }
    assert forall|j: int| 0 <= j < name.len() implies name[j] != ':' by {
        assert(name.contains(name[j]));
    }
    assert(a.skip(n) =~= name);
    assert(b.skip(n) =~= short);
    if n > 0 {
        assert forall|j: int| n - 1 < j < a.len() implies a[j] != '/' by {
            assert(a[j] == name[j - n]);
            assert(name.contains(name[j - n]));
        }
        last_place_at(a, '/', n - 1);
        assert forall|j: int| n - 1 < j < b.len() implies b[j] != '/' by {
            assert(b[j] == short[j - n]);
        }
        last_place_at(b, '/', n - 1);
    } else {
        assert(!a.contains('/')) by {
            if a.contains('/') {
                let j = choose|j: int| 0 <= j < a.len() && a[j] == '/';
                assert(short[j] == '/');
            }
        }
        assert(!b.contains('/')) by {
            if b.contains('/') {
                let j = choose|j: int| 0 <= j < b.len() && b[j] == '/';
                assert(short[j] == '/');
            }
        }
        a.index_of_last_ensures('/');
        b.index_of_last_ensures('/');
        assert(a =~= name);
        assert(b =~= short);
    }
    assert(!name.contains(':'));
    name.index_of_last_ensures(':');
    assert forall|j: int| name.len() < j < short.len() implies short[j] != ':' by {
        assert(tag.contains(tag[j - name.len() - 1]));
    }
    last_place_at(short, ':', name.len() as int);
    assert(short.take(name.len() as int) =~= name);
}

/// The images that may run anywhere are those that some type lists.
pub proof fn images_are_those_of_the_types(c: ConfigView, n: nat, image: Seq<char>)
    requires
        n <= c.types.len(),
    ensures
        c.images(n).contains(image) <==> exists|i: int|
            0 <= i < n && (#[trigger] c.types[i]).image_whitelist.contains(image),
    decreases n,
{
    if n > 0 {
        let m = (n - 1) as nat;
        images_are_those_of_the_types(c, m, image);
        let a = c.images(m);
        let b = c.types[n - 1].image_whitelist;
        if (a + b).contains(image) {
            let k = choose|k: int| 0 <= k < (a + b).len() && (a + b)[k] == image;
            if k < a.len() {
                assert(a[k] == image);
                assert(a.contains(image));
            } else {
                assert(b[k - a.len()] == image);
                assert(c.types[n - 1].image_whitelist.contains(image));
            }
        }
        if exists|i: int| 0 <= i < n && (#[trigger] c.types[i]).image_whitelist.contains(image) {
            let i = choose|i: int|
                0 <= i < n && (#[trigger] c.types[i]).image_whitelist.contains(image);
            if i < m {
                assert(a.contains(image));
                let k = choose|k: int| 0 <= k < a.len() && a[k] == image;
                assert((a + b)[k] == image);
            } else {
                let k = choose|k: int| 0 <= k < b.len() && b[k] == image;
                assert((a + b)[a.len() + k] == image);
            }
        }
    }
}

/// Disks in the making after a number of replies.
pub open spec fn making(s: ProvisionView, replies: Seq<ProvisionReplyView>) -> ProvisionView
    decreases replies.len(),
{
    if replies.len() == 0 {
        s
    } else {
        let b = making(s, replies.drop_last());
        ProvisionView { phase: b.after(replies.last()), ..b }
    }
}

/// What the making of disks has asked for and was replied, in order.
pub open spec fn making_log(
    s: ProvisionView,
    replies: Seq<ProvisionReplyView>,
) -> Seq<(ProvisionActionView, ProvisionReplyView)>
    decreases replies.len(),
{
    if replies.len() == 0 {
        seq![]
    } else {
        making_log(s, replies.drop_last()).push(
            (making(s, replies.drop_last()).wants(), replies.last()),
        )
    }
}

/// Whether a program was run on a file and succeeded: the file is its last word.
pub open spec fn ran_on(
    log: Seq<(ProvisionActionView, ProvisionReplyView)>,
    program: Seq<char>,
    flag: Seq<char>,
    value: Option<Seq<char>>,
    file: Seq<char>,
) -> bool {
    exists|args: Seq<Seq<char>>|
        {
            &&& #[trigger] log.contains(
                (ProvisionActionView::Run { program, args }, ProvisionReplyView::Done),
            )
            &&& args.len() >= 2
            &&& args[0] == flag
            &&& args.last() == file
            &&& match value {
                Some(v) => args.len() == 3 && args[1] == v,
                None => args.len() == 2,
            }
        }
}

/// Whether a file was copied from the template.
pub open spec fn copied(
    log: Seq<(ProvisionActionView, ProvisionReplyView)>,
    c: ConfigView,
    file: Seq<char>,
) -> bool {
    &&& c.rw_template_path is Some
    &&& log.contains(
        (
            ProvisionActionView::ProbeFile(c.rw_template_path.unwrap()),
            ProvisionReplyView::Exists(true),
        ),
    )
    &&& log.contains(
        (
            ProvisionActionView::Copy {
                src: c.rw_template_path.unwrap(),
                dst: file,
                reflink_enabled: c.reflink_enabled,
                reflink_required: c.reflink_required,
            },
            ProvisionReplyView::Done,
        ),
    )
}

/// Whether a file was made with the configured size.
pub open spec fn allocated(
    log: Seq<(ProvisionActionView, ProvisionReplyView)>,
    c: ConfigView,
    file: Seq<char>,
) -> bool {
    &&& c.rw_template_path is None
    &&& !c.reflink_required
    &&& ran_on(log, "truncate"@, "-s"@, Some(text::dec(c.rw_size_mib as nat) + "M"@), file)
}

/// Whether a layer is ready: a copy of the template with an identity of its
/// own, or a new file of the configured size with a file system.
pub open spec fn layer_ready(
    log: Seq<(ProvisionActionView, ProvisionReplyView)>,
    c: ConfigView,
    file: Seq<char>,
) -> bool {
    &&& log.contains((ProvisionActionView::Mkdir(c.rw_base_dir), ProvisionReplyView::Done))
    &&& (copied(log, c, file) && ran_on(log, "tune2fs"@, "-U"@, Some("random"@), file)
        || allocated(log, c, file) && ran_on(log, "mkfs.ext4"@, "-F"@, None, file))
}

/// What was asked and replied by the time that the making of the disks of a type
/// with a layer has come to a phase.
pub open spec fn making_came_to(
    log: Seq<(ProvisionActionView, ProvisionReplyView)>,
    c: ConfigView,
    file: Seq<char>,
    cloud: Option<Seq<char>>,
    phase: ProvisionPhaseView,
) -> bool {
    let dir = log.contains(
        (ProvisionActionView::Mkdir(c.rw_base_dir), ProvisionReplyView::Done),
    );
    match phase {
        ProvisionPhaseView::Mkdir => true,
        ProvisionPhaseView::ProbeTemplate => dir && c.rw_template_path is Some,
        ProvisionPhaseView::CopyTemplate => dir && c.rw_template_path is Some && log.contains(
            (
                ProvisionActionView::ProbeFile(c.rw_template_path.unwrap()),
                ProvisionReplyView::Exists(true),
            ),
        ),
        ProvisionPhaseView::NewUuid => dir && copied(log, c, file),
        ProvisionPhaseView::Allocate => dir && c.rw_template_path is None && !c.reflink_required,
        ProvisionPhaseView::Format => dir && allocated(log, c, file),
        ProvisionPhaseView::Done(Ok(d)) => {
            &&& layer_ready(log, c, file)
            &&& d.rw_layer_path == Some(file)
            &&& d.cloud_disk_dev == cloud
        },
        ProvisionPhaseView::Done(Err(_)) => true,
    }
}

proof fn runs_stay(
    l: Seq<(ProvisionActionView, ProvisionReplyView)>,
    x: (ProvisionActionView, ProvisionReplyView),
)
    ensures
        forall|p: Seq<char>, f: Seq<char>, v: Option<Seq<char>>, d: Seq<char>| #[trigger]
            ran_on(l, p, f, v, d) ==> ran_on(l.push(x), p, f, v, d),
{
    push_keeps(l, x);
    assert forall|p: Seq<char>, f: Seq<char>, v: Option<Seq<char>>, d: Seq<char>| #[trigger]
        ran_on(l, p, f, v, d) implies ran_on(l.push(x), p, f, v, d) by {
        let args = choose|args: Seq<Seq<char>>|
            {
                &&& #[trigger] l.contains(
                    (ProvisionActionView::Run { program: p, args }, ProvisionReplyView::Done),
                )
                &&& args.len() >= 2
                &&& args[0] == f
                &&& args.last() == d
                &&& match v {
                    Some(w) => args.len() == 3 && args[1] == w,
                    None => args.len() == 2,
                }
            };
        assert(l.push(x).contains(
            (ProvisionActionView::Run { program: p, args }, ProvisionReplyView::Done),
        ));
    }
}

/// Whatever is replied: a sandbox whose type has a writable layer gets, under
/// its own name in the directory of the layers, a copy of the template with an
/// identity of its own, or where there is no template a new file system of the
/// configured size; and it keeps the cloud disk that was asked for. One whose
/// type has none gets no layer, and nothing is done for it.
#[verifier::rlimit(30)]
pub proof fn a_layer_is_made_for_its_sandbox(
    c: ConfigView,
    id: Seq<char>,
    type_id: u8,
    cloud: Option<Seq<char>>,
    replies: Seq<ProvisionReplyView>,
)
    requires
        is_dir(c.rw_base_dir),
        is_name(id),
    ensures
        ({
            let start = ProvisionView::begin(c, id, type_id, cloud);
            let end = making(start, replies);
            let layer = c.get_type(type_id) is Some && c.get_type(type_id).unwrap().has_rw_layer;
            let file = c.rw_base_dir + "/"@ + id + ".ext4"@;
            &&& end.cfg == c && end.path == file && end.cloud_disk_ref == cloud
            &&& layer ==> making_came_to(making_log(start, replies), c, file, cloud, end.phase)
            &&& !layer ==> end.wants() == ProvisionActionView::Finish(
                Ok(DiskConfigView { rw_layer_path: None, cloud_disk_dev: cloud }),
            )
        }),
    decreases replies.len(),
{
    let start = ProvisionView::begin(c, id, type_id, cloud);
    let file = c.rw_base_dir + "/"@ + id + ".ext4"@;
    plain_name(id);
    reveal_strlit(".ext4");
    below(c.rw_base_dir, id + ".ext4"@);
    assert(c.rw_base_dir + "/"@ + (id + ".ext4"@) =~= file);
    if replies.len() > 0 {
        a_layer_is_made_for_its_sandbox(c, id, type_id, cloud, replies.drop_last());
        let b = making(start, replies.drop_last());
        let l = making_log(start, replies.drop_last());
        let x = (b.wants(), replies.last());
        let m = l.push(x);
        push_keeps(l, x);
        runs_stay(l, x);
        match (b.phase, x.1) {
            (ProvisionPhaseView::NewUuid, ProvisionReplyView::Done) => {
                let args = seq!["-U"@, "random"@, file];
                assert(m.contains(
                    (
                        ProvisionActionView::Run { program: "tune2fs"@, args },
                        ProvisionReplyView::Done,
                    ),
                ));
                assert(ran_on(m, "tune2fs"@, "-U"@, Some("random"@), file));
            },
            (ProvisionPhaseView::Allocate, ProvisionReplyView::Done) => {
                let size = text::dec(c.rw_size_mib as nat) + "M"@;
                let args = seq!["-s"@, size, file];
                assert(m.contains(
                    (
                        ProvisionActionView::Run { program: "truncate"@, args },
                        ProvisionReplyView::Done,
                    ),
                ));
                assert(ran_on(m, "truncate"@, "-s"@, Some(size), file));
            },
            (ProvisionPhaseView::Format, ProvisionReplyView::Done) => {
                let args = seq!["-F"@, file];
                assert(m.contains(
                    (
                        ProvisionActionView::Run { program: "mkfs.ext4"@, args },
                        ProvisionReplyView::Done,
                    ),
                ));
                assert(ran_on(m, "mkfs.ext4"@, "-F"@, None, file));
            },
            _ => {},
        }
    }
}

} // verus!
