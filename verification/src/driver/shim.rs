//! What the runtime and a sandbox's shim say to one another.

use vstd::prelude::*;

use crate::driver::vm_core::{RestoreInputs, RestoreInputsView, VmCoreState, VmHandle};
use crate::model::Duplicate;
use crate::text;

verus! {

/// The request to bring a microVM up. An empty text stands for an absent one.
#[derive(Debug, PartialEq)]
pub struct CreateRequest {
    pub sandbox_id: String,
    pub bundle_dir: String,
    pub netns_path: String,
    pub tap_name: String,
    pub rw_layer_path: String,
    pub cloud_disk_dev: String,
    pub jailer_uid: u32,
    pub jailer_gid: u32,
    pub chroot_base_dir: String,
    pub firecracker_bin: String,
    pub jailer_bin: String,
}

/// The abstract value of [`CreateRequest`].
#[verifier::ext_equal]
pub struct CreateRequestView {
    pub sandbox_id: Seq<char>,
    pub bundle_dir: Seq<char>,
    pub netns_path: Seq<char>,
    pub tap_name: Seq<char>,
    pub rw_layer_path: Seq<char>,
    pub cloud_disk_dev: Seq<char>,
    pub jailer_uid: u32,
    pub jailer_gid: u32,
    pub chroot_base_dir: Seq<char>,
    pub firecracker_bin: Seq<char>,
    pub jailer_bin: Seq<char>,
}

impl DeepView for CreateRequest {
    type V = CreateRequestView;

    open spec fn deep_view(&self) -> CreateRequestView {
        CreateRequestView {
            sandbox_id: self.sandbox_id@,
            bundle_dir: self.bundle_dir@,
            netns_path: self.netns_path@,
            tap_name: self.tap_name@,
            rw_layer_path: self.rw_layer_path@,
            cloud_disk_dev: self.cloud_disk_dev@,
            jailer_uid: self.jailer_uid,
            jailer_gid: self.jailer_gid,
            chroot_base_dir: self.chroot_base_dir@,
            firecracker_bin: self.firecracker_bin@,
            jailer_bin: self.jailer_bin@,
        }
    }
}

impl View for CreateRequest {
    type V = CreateRequestView;

    open spec fn view(&self) -> CreateRequestView {
        self.deep_view()
    }
}

impl Duplicate for CreateRequest {
    fn duplicate(&self) -> (r: Self) {
        CreateRequest {
            sandbox_id: self.sandbox_id.duplicate(),
            bundle_dir: self.bundle_dir.duplicate(),
            netns_path: self.netns_path.duplicate(),
            tap_name: self.tap_name.duplicate(),
            rw_layer_path: self.rw_layer_path.duplicate(),
            cloud_disk_dev: self.cloud_disk_dev.duplicate(),
            jailer_uid: self.jailer_uid,
            jailer_gid: self.jailer_gid,
            chroot_base_dir: self.chroot_base_dir.duplicate(),
            firecracker_bin: self.firecracker_bin.duplicate(),
            jailer_bin: self.jailer_bin.duplicate(),
        }
    }
}

impl Clone for CreateRequest {
    fn clone(&self) -> (r: Self)
        ensures
            r@ == self@,
    {
        self.duplicate()
    }
}

/// The answer to a [`CreateRequest`].
#[derive(Debug, PartialEq)]
pub struct CreateResponse {
    pub state: String,
    pub error: String,
}

/// The abstract value of [`CreateResponse`].
#[verifier::ext_equal]
pub struct CreateResponseView {
    pub state: Seq<char>,
    pub error: Seq<char>,
}

impl DeepView for CreateResponse {
    type V = CreateResponseView;

    open spec fn deep_view(&self) -> CreateResponseView {
        CreateResponseView {
            state: self.state@,
            error: self.error@,
        }
    }
}

impl View for CreateResponse {
    type V = CreateResponseView;

    open spec fn view(&self) -> CreateResponseView {
        self.deep_view()
    }
}

impl Duplicate for CreateResponse {
    fn duplicate(&self) -> (r: Self) {
        CreateResponse {
            state: self.state.duplicate(),
            error: self.error.duplicate(),
        }
    }
}

impl Clone for CreateResponse {
    fn clone(&self) -> (r: Self)
        ensures
            r@ == self@,
    {
        self.duplicate()
    }
}

/// A text, where it is not empty.
pub open spec fn present(s: Seq<char>) -> Option<Seq<char>> {
    if s.len() == 0 {
        None
    } else {
        Some(s)
    }
}

fn present_string(s: &str) -> (r: Option<String>)
    ensures
        r.deep_view() == present(s@),
{
    if text::is_empty(s) {
        None
    } else {
        Some(s.to_owned())
    }
}

/// What a request asks to restore.
pub open spec fn inputs_of(req: CreateRequestView) -> RestoreInputsView {
    RestoreInputsView {
        bundle_dir: req.bundle_dir,
        netns_path: req.netns_path,
        rw_layer_path: present(req.rw_layer_path),
        jailer_uid: req.jailer_uid,
        jailer_gid: req.jailer_gid,
        chroot_base_dir: req.chroot_base_dir,
        firecracker_bin: req.firecracker_bin,
        jailer_bin: req.jailer_bin,
        cloud_disk_dev: present(req.cloud_disk_dev),
    }
}

/// What a request asks to restore.
pub fn inputs_from(req: &CreateRequest) -> (r: RestoreInputs)
    ensures
        r@ == inputs_of(req@),
{
    RestoreInputs {
        bundle_dir: req.bundle_dir.clone(),
        netns_path: req.netns_path.clone(),
        rw_layer_path: present_string(req.rw_layer_path.as_str()),
        jailer_uid: req.jailer_uid,
        jailer_gid: req.jailer_gid,
        chroot_base_dir: req.chroot_base_dir.clone(),
        firecracker_bin: req.firecracker_bin.clone(),
        jailer_bin: req.jailer_bin.clone(),
        cloud_disk_dev: present_string(req.cloud_disk_dev.as_str()),
    }
}

/// The answer to a request: a failure is an answer too.
pub fn create_response(result: &Result<VmHandle, String>) -> (r: CreateResponse)
    ensures
        r@ == (match *result {
            Ok(_) => CreateResponseView { state: "Running"@, error: ""@ },
            Err(e) => CreateResponseView { state: "Failed"@, error: e@ },
        }),
{
    match result {
        Ok(_) => CreateResponse { state: "Running".to_owned(), error: "".to_owned() },
        Err(e) => CreateResponse { state: "Failed".to_owned(), error: e.clone() },
    }
}

impl VmCoreState {
    /// The state as the shim tells it.
    pub open spec fn told(self) -> Seq<char> {
        match self {
            VmCoreState::NotExist => "Pending"@,
            VmCoreState::Running => "Running"@,
            VmCoreState::Stopped => "Stopped"@,
            VmCoreState::Failed => "Failed"@,
        }
    }

    /// The state as the shim tells it.
    pub fn as_resp_str(self) -> (r: &'static str)
        ensures
            r@ == self.told(),
    {
        match self {
            VmCoreState::NotExist => "Pending",
            VmCoreState::Running => "Running",
            VmCoreState::Stopped => "Stopped",
            VmCoreState::Failed => "Failed",
        }
    }
}

/// The one watch that a shim keeps on its microVM.
pub struct Watch {
    pub started: bool,
}

impl Watch {
    /// Whether a watch is to be started: only the first time.
    pub fn start(&mut self) -> (r: bool)
        ensures
            r == !old(self).started,
            final(self).started,
    {
        let first = !self.started;
        self.started = true;
        first
    }
}

} // verus!
