//! What an error of a lower layer means to a request.

use vstd::prelude::*;

use crate::driver::{DriverError, DriverErrorView};
use crate::manager::{OasError, OasErrorView};
use crate::net::{NetError, NetErrorView};
use crate::storage::{StorageError, StorageErrorView};
use crate::store::{StoreError, StoreErrorView};

verus! {

/// What an error of the driver means.
pub open spec fn of_driver(e: DriverErrorView) -> OasErrorView {
    match e {
        DriverErrorView::NotFound(_) => OasErrorView::NotFound(e.text()),
        DriverErrorView::Exists(_) => OasErrorView::Conflict(e.text()),
        _ => OasErrorView::Unavailable(e.text()),
    }
}

/// What an error of the driver means.
pub fn map_driver_err(e: &DriverError) -> (r: OasError)
    ensures
        r@ == of_driver(e@),
{
    match e {
        DriverError::NotFound(_) => OasError::NotFound(e.message()),
        DriverError::Exists(_) => OasError::Conflict(e.message()),
        _ => OasError::Unavailable(e.message()),
    }
}

/// What an error of the network means.
pub open spec fn of_net(e: NetErrorView) -> OasErrorView {
    match e {
        NetErrorView::IpamExhausted(_) => OasErrorView::Unavailable(e.text()),
        _ => OasErrorView::Internal(e.text()),
    }
}

/// What an error of the network means.
pub fn map_net_err(e: &NetError) -> (r: OasError)
    ensures
        r@ == of_net(e@),
{
    match e {
        NetError::IpamExhausted(_) => OasError::Unavailable(e.message()),
        _ => OasError::Internal(e.message()),
    }
}

/// What an error of the storage means.
pub open spec fn of_storage(e: StorageErrorView) -> OasErrorView {
    match e {
        StorageErrorView::CloudDiskNotFound(_) => OasErrorView::InvalidArgument(e.text()),
        _ => OasErrorView::Internal(e.text()),
    }
}

/// What an error of the storage means.
pub fn map_storage_err(e: &StorageError) -> (r: OasError)
    ensures
        r@ == of_storage(e@),
{
    match e {
        StorageError::CloudDiskNotFound(_) => OasError::InvalidArgument(e.message()),
        _ => OasError::Internal(e.message()),
    }
}

/// What an error of the store means.
pub open spec fn of_store(e: StoreErrorView) -> OasErrorView {
    match e {
        StoreErrorView::NotFound(_) => OasErrorView::NotFound(e.text()),
        _ => OasErrorView::Internal(e.text()),
    }
}

/// What an error of the store means.
pub fn map_store_err(e: &StoreError) -> (r: OasError)
    ensures
        r@ == of_store(e@),
{
    match e {
        StoreError::NotFound(_) => OasError::NotFound(e.message()),
        _ => OasError::Internal(e.message()),
    }
}

} // verus!
