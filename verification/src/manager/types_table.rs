//! The table of sandbox types by number.

use vstd::prelude::*;

use crate::manager::{OasError, OasErrorView};
use crate::model::Duplicate;
use crate::text;

verus! {

/// One type of sandbox.
#[derive(Debug, PartialEq)]
pub struct SandboxType {
    pub type_id: u8,
    pub vcpu: u32,
    pub mem_mib: u32,
    pub snapshot_path: String,
    pub rootfs_ro: String,
    pub has_rw_layer: bool,
    pub has_cloud_disk: bool,
    pub image_whitelist: Vec<String>,
}

/// The abstract value of [`SandboxType`].
#[verifier::ext_equal]
pub struct SandboxTypeView {
    pub type_id: u8,
    pub vcpu: u32,
    pub mem_mib: u32,
    pub snapshot_path: Seq<char>,
    pub rootfs_ro: Seq<char>,
    pub has_rw_layer: bool,
    pub has_cloud_disk: bool,
    pub image_whitelist: Seq<Seq<char>>,
}

impl DeepView for SandboxType {
    type V = SandboxTypeView;

    open spec fn deep_view(&self) -> SandboxTypeView {
        SandboxTypeView {
            type_id: self.type_id,
            vcpu: self.vcpu,
            mem_mib: self.mem_mib,
            snapshot_path: self.snapshot_path@,
            rootfs_ro: self.rootfs_ro@,
            has_rw_layer: self.has_rw_layer,
            has_cloud_disk: self.has_cloud_disk,
            image_whitelist: self.image_whitelist.deep_view(),
        }
    }
}

impl View for SandboxType {
    type V = SandboxTypeView;

    open spec fn view(&self) -> SandboxTypeView {
        self.deep_view()
    }
}

impl Duplicate for SandboxType {
    fn duplicate(&self) -> (r: Self) {
        SandboxType {
            type_id: self.type_id,
            vcpu: self.vcpu,
            mem_mib: self.mem_mib,
            snapshot_path: self.snapshot_path.duplicate(),
            rootfs_ro: self.rootfs_ro.duplicate(),
            has_rw_layer: self.has_rw_layer,
            has_cloud_disk: self.has_cloud_disk,
            image_whitelist: self.image_whitelist.duplicate(),
        }
    }
}

impl Clone for SandboxType {
    fn clone(&self) -> (r: Self)
        ensures
            r@ == self@,
    {
        self.duplicate()
    }
}

/// The types, each at the place of its number.
#[derive(Debug)]
pub struct SandboxTypeTable {
    entries: Vec<SandboxType>,
}

impl View for SandboxTypeTable {
    type V = Seq<SandboxTypeView>;

    closed spec fn view(&self) -> Seq<SandboxTypeView> {
        self.entries.deep_view()
    }
}

impl Clone for SandboxTypeTable {
    fn clone(&self) -> (r: Self)
        ensures
            r@ == self@,
    {
        SandboxTypeTable { entries: self.entries.duplicate() }
    }
}

/// The types that there are.
pub open spec fn default_table() -> Seq<SandboxTypeView> {
    seq![
        SandboxTypeView {
            type_id: 0,
            vcpu: 1,
            mem_mib: 512,
            snapshot_path: "base-0.snap"@,
            rootfs_ro: "base-0.ext4"@,
            has_rw_layer: false,
            has_cloud_disk: false,
            image_whitelist: seq!["img-a"@],
        },
        SandboxTypeView {
            type_id: 1,
            vcpu: 2,
            mem_mib: 2048,
            snapshot_path: "base-1.snap"@,
            rootfs_ro: "base-1.ext4"@,
            has_rw_layer: true,
            has_cloud_disk: false,
            image_whitelist: seq!["img-b"@],
        },
        SandboxTypeView {
            type_id: 2,
            vcpu: 4,
            mem_mib: 8192,
            snapshot_path: "base-2.snap"@,
            rootfs_ro: "base-2.ext4"@,
            has_rw_layer: true,
            has_cloud_disk: true,
            image_whitelist: seq!["img-c"@],
        },
    ]
}

/// The images of the first `n` types, in their order.
pub open spec fn images(types: Seq<SandboxTypeView>, n: nat) -> Seq<Seq<char>>
    decreases n,
{
    if n == 0 {
        seq![]
    } else {
        images(types, (n - 1) as nat) + types[n - 1].image_whitelist
    }
}

impl Default for SandboxTypeTable {
    fn default() -> (t: Self)
        ensures
            t@ == default_table(),
    {
        let t = SandboxTypeTable {
            entries: vec![
                SandboxType {
                    type_id: 0,
                    vcpu: 1,
                    mem_mib: 512,
                    snapshot_path: "base-0.snap".to_owned(),
                    rootfs_ro: "base-0.ext4".to_owned(),
                    has_rw_layer: false,
                    has_cloud_disk: false,
                    image_whitelist: vec!["img-a".to_owned()],
                },
                SandboxType {
                    type_id: 1,
                    vcpu: 2,
                    mem_mib: 2048,
                    snapshot_path: "base-1.snap".to_owned(),
                    rootfs_ro: "base-1.ext4".to_owned(),
                    has_rw_layer: true,
                    has_cloud_disk: false,
                    image_whitelist: vec!["img-b".to_owned()],
                },
                SandboxType {
                    type_id: 2,
                    vcpu: 4,
                    mem_mib: 8192,
                    snapshot_path: "base-2.snap".to_owned(),
                    rootfs_ro: "base-2.ext4".to_owned(),
                    has_rw_layer: true,
                    has_cloud_disk: true,
                    image_whitelist: vec!["img-c".to_owned()],
                },
            ],
        };
        assert(t@ =~~= default_table());
        t
    }
}

impl SandboxTypeTable {
    pub fn new() -> (t: Self)
        ensures
            t@ == default_table(),
    {
        SandboxTypeTable::default()
    }

    /// The type with a number. One that is not in the table is refused.
    pub fn get(&self, type_id: u8) -> (r: Result<&SandboxType, OasError>)
        ensures
            match r {
                Ok(t) => type_id < self@.len() && t@ == self@[type_id as int],
                Err(e) => type_id >= self@.len() && e@ == OasErrorView::InvalidArgument(
                    "unknown type_id: "@ + text::dec(type_id as nat),
                ),
            },
    {
        let i: usize = type_id as usize;
        if i < self.entries.len() {
            assert(self@[i as int] == self.entries@[i as int]@);
            Ok(&self.entries[i])
        } else {
            Err(
                OasError::InvalidArgument(
                    text::cat2("unknown type_id: ", text::dec_string(type_id as u64).as_str()),
                ),
            )
        }
    }

    /// The images of all types, in their order.
    pub fn all_images(&self) -> (r: Vec<&str>)
        ensures
            r.deep_view() == images(self@, self@.len()),
    {
        let mut out: Vec<&str> = Vec::new();
        let mut i: usize = 0;
        assert(out.deep_view() =~= images(self@, 0));
        while i < self.entries.len()
            invariant
                i <= self.entries@.len(),
                out.deep_view() == images(self@, i as nat),
            decreases self.entries@.len() - i,
        {
            let list = &self.entries[i].image_whitelist;
            assert(self@[i as int] == self.entries@[i as int]@);
            let mut j: usize = 0;
            let ghost before = out.deep_view();
            assert(before + list.deep_view().take(0) =~= before);
            while j < list.len()
                invariant
                    j <= list@.len(),
                    out.deep_view() == before + list.deep_view().take(j as int),
                decreases list@.len() - j,
            {
                let ghost o = out.deep_view();
                out.push(list[j].as_str());
                proof {
                    assert(out.deep_view() =~= o.push(list@[j as int]@));
                    assert(before + list.deep_view().take(j + 1) =~= o.push(
                        list.deep_view()[j as int],
                    ));
                }
                j = j + 1;
            }
            assert(list.deep_view().take(j as int) =~= list.deep_view());
            i = i + 1;
        }
        out
    }
}

} // verus!
