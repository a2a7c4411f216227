//! What the service for images answers.

use vstd::prelude::*;

use crate::cri::convert;
use crate::cri::error::{invalid_argument, swallow_not_found, to_status, Code, Status, StatusView};
use crate::cri::pb;
use crate::manager::clock::system_stamp;
use crate::manager::facade::OasManager;

verus! {

/// The service for images.
pub struct ImageSvc {
    pub mgr: OasManager,
}

/// The refusal of a request that names no image.
pub open spec fn no_image() -> StatusView {
    StatusView { code: Code::InvalidArgument, message: "missing image"@ }
}

/// The image file system as it is told: empty, and mounted at the root.
pub open spec fn fs_info(stamp: i64) -> pb::ImageFsInfoResponseView {
    pb::ImageFsInfoResponseView {
        image_filesystems: seq![convert::root_fs_at(stamp)],
        container_filesystems: seq![],
    }
}

/// The image file system as it is told.
pub fn image_fs(stamp: i64) -> (r: pb::ImageFsInfoResponse)
    ensures
        r@ == fs_info(stamp),
{
    let r = pb::ImageFsInfoResponse {
        image_filesystems: vec![convert::root_fs_usage(stamp)],
        container_filesystems: Vec::new(),
    };
    assert(r@.image_filesystems =~= seq![convert::root_fs_at(stamp)]);
    assert(r@.container_filesystems =~= seq![]);
    r
}

impl ImageSvc {
    pub fn new(mgr: OasManager) -> (s: Self)
        ensures
            s.mgr == mgr,
    {
        ImageSvc { mgr }
    }

    /// All images that a type allows.
    pub fn list_images(&self) -> (r: Result<Vec<pb::Image>, Status>)
        ensures
            r matches Ok(l) && {
                let images = self.mgr.cfg@.images(self.mgr.cfg@.types.len());
                &&& l.deep_view().len() == images.len()
                &&& forall|i: int|
                    0 <= i < images.len() ==> #[trigger] l.deep_view()[i]
                        == convert::image_info_out(crate::manager::facade::info_of(images[i]))
            },
    {
        let infos = match self.mgr.list_images() {
            Ok(l) => l,
            Err(e) => {
                return Err(to_status(e));
            },
        };
        let ghost v = infos.deep_view();
        let mut out: Vec<pb::Image> = Vec::new();
        let mut i: usize = 0;
        while i < infos.len()
            invariant
                i <= infos@.len(),
                v == infos.deep_view(),
                out@.len() == i,
                forall|j: int|
                    0 <= j < i ==> (#[trigger] out@[j])@ == convert::image_info_out(v[j]),
            decreases infos@.len() - i,
        {
            out.push(convert::image_info_to_image(&infos[i]));
            i = i + 1;
        }
        Ok(out)
    }

    /// What is told of an image: nothing where no type allows it.
    pub fn image_status(&self, image: &Option<pb::ImageSpec>) -> (r: Result<
        Option<pb::Image>,
        Status,
    >)
        ensures
            match image {
                None => r matches Err(s) && s@ == no_image(),
                Some(i) => r matches Ok(o) && o.deep_view() == (if self.mgr.cfg@.allows_any(
                    i.image@,
                ) {
                    Some(
                        convert::image_info_out(crate::manager::facade::info_of(i.image@)),
                    )
                } else {
                    None
                }),
            },
    {
        match image {
            None => Err(invalid_argument("missing image")),
            Some(i) => match self.mgr.image_status(i.image.as_str()) {
                Ok(Some(info)) => Ok(Some(convert::image_info_to_image(&info))),
                Ok(None) => Ok(None),
                Err(e) => Err(to_status(e)),
            },
        }
    }

    /// The name under which an image can be had. One that no type allows
    /// cannot be found.
    pub fn pull_image(&self, image: &Option<pb::ImageSpec>) -> (r: Result<String, Status>)
        ensures
            match image {
                None => r matches Err(s) && s@ == no_image(),
                Some(i) => if self.mgr.cfg@.allows_any(i.image@) {
                    r matches Ok(s) && s@ == i.image@
                } else {
                    r matches Err(s) && s@ == crate::cri::error::status_of(
                        crate::manager::OasErrorView::ImageNotInList(i.image@),
                    )
                },
            },
    {
        match image {
            None => Err(invalid_argument("missing image")),
            Some(i) => match self.mgr.pull_image(i.image.as_str()) {
                Ok(s) => Ok(s),
                Err(e) => Err(to_status(e)),
            },
        }
    }

    /// Images are not removed; a request that names one is well all the same.
    pub fn remove_image(&self, image: &Option<pb::ImageSpec>) -> (r: Result<(), Status>)
        ensures
            match image {
                None => r matches Err(s) && s@ == no_image(),
                Some(_) => r is Ok,
            },
    {
        match image {
            None => Err(invalid_argument("missing image")),
            Some(i) => swallow_not_found(self.mgr.remove_image(i.image.as_str())),
        }
    }

    /// The image file system, at the time that the machine tells.
    pub fn image_fs_info(&self) -> (r: Result<pb::ImageFsInfoResponse, Status>)
        ensures
            r matches Ok(f) && exists|stamp: i64| stamp >= 0 && f@ == #[trigger] fs_info(stamp),
    {
        Ok(image_fs(system_stamp()))
    }
}

} // verus!
