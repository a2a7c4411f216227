//! What a shim tells of itself.

use containerd_shim_protos::api::DeleteResponse;
use containerd_shim_protos::protobuf::{Message, MessageField};
use containerd_shim_protos::types::introspection::{RuntimeInfo, RuntimeVersion};
use vstd::prelude::*;

#[allow(unused_imports)]
use crate::model::result_view;

verus! {

/// The name of the runtime.
pub const RUNTIME_ID: &'static str = "io.containerd.oas.v2";

/// The version of the runtime.
pub const RUNTIME_VERSION: &'static str = "0.1.0";

/// The bytes that `RuntimeInfo::write_to_bytes` makes of a message with a name
/// and a version and nothing else, or its error.
pub uninterp spec fn info_bytes(name: Seq<char>, version: Seq<char>) -> Result<Seq<u8>, Seq<char>>;

/// `RuntimeInfo::write_to_bytes` on a message with a name and a version, whose
/// result is named.
#[verifier::external_body]
fn encode_info(name: &str, version: &str) -> (r: Result<Vec<u8>, String>)
    ensures
        result_view(r) == info_bytes(name@, version@),
{
    let mut v = RuntimeVersion::new();
    v.version = version.to_string();
    let mut info = RuntimeInfo::new();
    info.name = name.to_string();
    info.version = MessageField::some(v);
    info.write_to_bytes().map_err(|e| e.to_string())
}

/// What the shim answers when it is asked what runtime it is.
pub fn show_info() -> (r: Result<Vec<u8>, String>)
    ensures
        result_view(r) == info_bytes(RUNTIME_ID@, RUNTIME_VERSION@),
{
    encode_info(RUNTIME_ID, RUNTIME_VERSION)
}

/// An encoding that holds nothing.
pub open spec fn no_bytes() -> Result<Seq<u8>, Seq<char>> {
    Ok(Seq::empty())
}

/// `DeleteResponse::write_to_bytes` on a message in which nothing is set. No
/// field of the message is required and one that is not set takes no bytes, so
/// there are none.
#[verifier::external_body]
fn encode_nothing_deleted() -> (r: Result<Vec<u8>, String>)
    ensures
        result_view(r) == no_bytes(),
{
    DeleteResponse::new().write_to_bytes().map_err(|e| e.to_string())
}

/// What the shim answers when it is asked to remove what a pod has left: a
/// message that tells of no process and no exit.
pub fn show_deleted() -> (r: Result<Vec<u8>, String>)
    ensures
        result_view(r) == no_bytes(),
{
    encode_nothing_deleted()
}

} // verus!
