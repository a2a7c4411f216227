//! The manager: where each request starts.

use vstd::prelude::*;

use crate::config::Config;
use crate::manager::containers::{
    ContainerStatus, CreateContainer, CreateCtPhase, RemoveContainer, RemoveCtPhase,
    StartContainer, StartPhase, StatusPhase, StopContainer,
};
#[allow(unused_imports)]
use crate::manager::containers::{
    ContainerStatusView, CreateContainerView, CreateCtPhaseView, RemoveContainerView,
    RemoveCtPhaseView, StartContainerView, StartPhaseView, StatusPhaseView, StopContainerView,
};
use crate::manager::errors::map_store_err;
use crate::manager::sandboxes::{
    RemovePhase, RemoveSandbox, RunPhase, RunSandbox, StopPhase, StopSandbox,
};
#[allow(unused_imports)]
use crate::manager::sandboxes::{
    RemovePhaseView, RemoveSandboxView, RunPhaseView, RunSandboxView, StopPhaseView,
    StopSandboxView,
};
use crate::manager::{
    CreateContainerRequest, CreateSandboxRequest, ImageInfo, OasError, RuntimeStatusInfo,
    VersionInfo,
};
#[allow(unused_imports)]
use crate::manager::{ImageInfoView, OasErrorView};
use crate::model::Duplicate;
use crate::store::StoreError;
use crate::text;
use crate::types::{ContainerRecord, SandboxRecord};

verus! {

/// What is told of an image. It has an id and a size, as its users demand.
pub open spec fn info_of(image: Seq<char>) -> ImageInfoView {
    ImageInfoView {
        id: "sha256:"@ + image,
        repo_tags: seq![image],
        repo_digests: seq![],
        size: 1_048_576,
        username: ""@,
        image_ref: image,
        pinned: true,
    }
}

/// What is told of an image.
pub fn image_info(image: &str) -> (r: ImageInfo)
    ensures
        r@ == info_of(image@),
{
    let r = ImageInfo {
        id: text::cat2("sha256:", image),
        repo_tags: vec![image.to_owned()],
        repo_digests: Vec::new(),
        size: 1_048_576,
        username: "".to_owned(),
        image_ref: image.to_owned(),
        pinned: true,
    };
    assert(r@.repo_tags =~= seq![image@]);
    assert(r@.repo_digests =~= seq![]);
    r
}

/// The manager of a node.
pub struct OasManager {
    pub cfg: Config,
}

impl OasManager {
    pub fn new(cfg: Config) -> (m: Self)
        ensures
            m.cfg@ == cfg@,
    {
        OasManager { cfg }
    }

    /// What the runtime calls itself.
    pub fn version(&self) -> (r: Result<VersionInfo, OasError>)
        ensures
            r matches Ok(v) && v@ == crate::manager::own_version(),
    {
        Ok(crate::manager::version())
    }

    /// The conditions of the runtime.
    pub fn status(&self) -> (r: Result<RuntimeStatusInfo, OasError>)
        ensures
            r matches Ok(s) && s@.conditions == seq![
                crate::manager::holds("RuntimeReady"@),
                crate::manager::holds("NetworkReady"@),
            ],
    {
        Ok(crate::manager::status())
    }

    /// A new configuration of the network is taken note of, and changes nothing.
    pub fn update_runtime_config(&self, pod_cidr: Option<&str>) -> (r: Result<(), OasError>)
        ensures
            r is Ok,
    {
        Ok(())
    }

    /// A request for a sandbox.
    pub fn run_sandbox(&self, req: CreateSandboxRequest) -> (r: RunSandbox)
        ensures
            r@ == (RunSandboxView { req: req@, cfg: self.cfg@, phase: RunPhaseView::Lock }),
    {
        RunSandbox { req, cfg: self.cfg.duplicate(), phase: RunPhase::Lock }
    }

    /// A request to stop a sandbox.
    pub fn stop_sandbox(&self, sandbox_id: &str) -> (r: StopSandbox)
        ensures
            r@ == (StopSandboxView { sandbox_id: sandbox_id@, phase: StopPhaseView::Lock }),
    {
        StopSandbox { sandbox_id: sandbox_id.to_owned(), phase: StopPhase::Lock }
    }

    /// A request to remove a sandbox.
    pub fn remove_sandbox(&self, sandbox_id: &str) -> (r: RemoveSandbox)
        ensures
            r@ == (RemoveSandboxView { sandbox_id: sandbox_id@, phase: RemovePhaseView::Lock }),
    {
        RemoveSandbox { sandbox_id: sandbox_id.to_owned(), phase: RemovePhase::Lock }
    }

    /// A sandbox as the store has it. Nothing else is asked.
    pub fn sandbox_status(&self, read: Result<SandboxRecord, StoreError>) -> (r: Result<
        SandboxRecord,
        OasError,
    >)
        ensures
            match read {
                Ok(s) => r matches Ok(t) && t@ == s@,
                Err(e) => r matches Err(f) && f@ == crate::manager::errors::of_store(e@),
            },
    {
        match read {
            Ok(s) => Ok(s),
            Err(e) => Err(map_store_err(&e)),
        }
    }

    /// Sandboxes as the store lists them. Nothing else is asked.
    pub fn list_sandboxes(&self, read: Result<Vec<SandboxRecord>, StoreError>) -> (r: Result<
        Vec<SandboxRecord>,
        OasError,
    >)
        ensures
            match read {
                Ok(l) => r matches Ok(m) && m.deep_view() == l.deep_view(),
                Err(e) => r matches Err(f) && f@ == crate::manager::errors::of_store(e@),
            },
    {
        match read {
            Ok(l) => Ok(l),
            Err(e) => Err(map_store_err(&e)),
        }
    }

    /// A request for a container.
    pub fn create_container(&self, req: CreateContainerRequest) -> (r: CreateContainer)
        ensures
            r@ == (CreateContainerView {
                req: req@,
                cfg: self.cfg@,
                phase: CreateCtPhaseView::Lock,
            }),
    {
        CreateContainer { req, cfg: self.cfg.duplicate(), phase: CreateCtPhase::Lock }
    }

    /// A request to start a container.
    pub fn start_container(&self, container_id: &str) -> (r: StartContainer)
        ensures
            r@ == (StartContainerView {
                container_id: container_id@,
                phase: StartPhaseView::First,
            }),
    {
        StartContainer { container_id: container_id.to_owned(), phase: StartPhase::First }
    }

    /// A request to stop a container.
    pub fn stop_container(&self, container_id: &str, timeout: i64) -> (r: StopContainer)
        ensures
            r@ == (StopContainerView {
                container_id: container_id@,
                timeout,
                phase: StartPhaseView::First,
            }),
    {
        StopContainer { container_id: container_id.to_owned(), timeout, phase: StartPhase::First }
    }

    /// A request to remove a container.
    pub fn remove_container(&self, container_id: &str) -> (r: RemoveContainer)
        ensures
            r@ == (RemoveContainerView {
                container_id: container_id@,
                phase: RemoveCtPhaseView::First,
            }),
    {
        RemoveContainer { container_id: container_id.to_owned(), phase: RemoveCtPhase::First }
    }

    /// A question for a container.
    pub fn container_status(&self, container_id: &str) -> (r: ContainerStatus)
        ensures
            r@ == (ContainerStatusView {
                container_id: container_id@,
                phase: StatusPhaseView::Read,
            }),
    {
        ContainerStatus { container_id: container_id.to_owned(), phase: StatusPhase::Read }
    }

    /// Containers as the store lists them. Nothing else is asked.
    pub fn list_containers(&self, read: Result<Vec<ContainerRecord>, StoreError>) -> (r: Result<
        Vec<ContainerRecord>,
        OasError,
    >)
        ensures
            match read {
                Ok(l) => r matches Ok(m) && m.deep_view() == l.deep_view(),
                Err(e) => r matches Err(f) && f@ == crate::manager::errors::of_store(e@),
            },
    {
        match read {
            Ok(l) => Ok(l),
            Err(e) => Err(map_store_err(&e)),
        }
    }

    /// What is told of an image: nothing where no type allows it.
    pub fn image_status(&self, image: &str) -> (r: Result<Option<ImageInfo>, OasError>)
        ensures
            r matches Ok(i) && i.deep_view() == (if self.cfg@.allows_any(image@) {
                Some(info_of(image@))
            } else {
                None
            }),
    {
        if self.cfg.image_allowed_any(image) {
            Ok(Some(image_info(image)))
        } else {
            Ok(None)
        }
    }

    /// An image that a type allows is there already; another cannot be had.
    pub fn pull_image(&self, image: &str) -> (r: Result<String, OasError>)
        ensures
            match r {
                Ok(s) => self.cfg@.allows_any(image@) && s@ == image@,
                Err(e) => !self.cfg@.allows_any(image@) && e@ == OasErrorView::ImageNotInList(
                    image@,
                ),
            },
    {
        if self.cfg.image_allowed_any(image) {
            Ok(image.to_owned())
        } else {
            Err(OasError::ImageNotInList(image.to_owned()))
        }
    }

    /// What is told of all images, in the order of the table of types.
    pub fn list_images(&self) -> (r: Result<Vec<ImageInfo>, OasError>)
        ensures
            r matches Ok(l) && {
                let images = self.cfg@.images(self.cfg@.types.len());
                &&& l.deep_view().len() == images.len()
                &&& forall|i: int|
                    0 <= i < images.len() ==> #[trigger] l.deep_view()[i] == info_of(images[i])
            },
    {
        let images = self.cfg.all_images();
        let ghost v = images.deep_view();
        let mut out: Vec<ImageInfo> = Vec::new();
        let mut i: usize = 0;
        while i < images.len()
            invariant
                i <= images@.len(),
                v == images.deep_view(),
                out@.len() == i,
                forall|j: int| 0 <= j < i ==> (#[trigger] out@[j])@ == info_of(v[j]),
            decreases images@.len() - i,
        {
            out.push(image_info(images[i]));
            i = i + 1;
        }
        Ok(out)
    }

    /// Images cannot be removed; to ask for it does no harm.
    pub fn remove_image(&self, image: &str) -> (r: Result<(), OasError>)
        ensures
            r is Ok,
    {
        Ok(())
    }
}

} // verus!
